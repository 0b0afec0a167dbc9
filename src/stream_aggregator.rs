use crate::bufcache::{released, BufCache};
use crate::stream::{chunk_size, DtChunkSource, DtStreamChunk, DtStreamError, DtStreamType};
use vstd::arithmetic::div_mod::{lemma_fundamental_div_mod, lemma_fundamental_div_mod_converse};
use vstd::prelude::*;

verus! {

/// Largest number of workers of one aggregator.
pub const MAX_THREADS: usize = 65536;

/// The largest multiple of `cs` that is not above `byte_offset`.
pub open spec fn aligned_offset(byte_offset: int, cs: int) -> int {
    byte_offset - byte_offset % cs
}

/// The chunk of its own keystream at which worker `i` of `n` starts when the
/// aggregated stream starts at global chunk `chunk_index`: workers below
/// `chunk_index % n` have already had their turn in that round.
pub open spec fn worker_start_chunk(i: int, chunk_index: int, n: int) -> int {
    if i < chunk_index % n {
        chunk_index / n + 1
    } else {
        chunk_index / n
    }
}

/// Global chunk `pos` of an aggregated stream of `n` workers is the chunk
/// `pos / n` of worker `pos % n`'s keystream.
pub open spec fn chunk_origin(pos: int, n: int) -> (int, int) {
    (pos % n, pos / n)
}

/// How many of the global chunks below `pos` worker `i` of `n` makes.
pub open spec fn chunks_of_worker_before(i: int, pos: int, n: int) -> int
    decreases pos,
{
    if pos <= 0 {
        0
    } else {
        chunks_of_worker_before(i, pos - 1, n) + if (pos - 1) % n == i {
            1int
        } else {
            0int
        }
    }
}

/// How `%` and `/` by `n` move from `p` to `p + 1`.
proof fn lemma_next_position(p: int, n: int)
    requires
        n > 0,
        p >= 0,
    ensures
        0 <= p % n < n,
        p / n >= 0,
        p % n + 1 < n ==> (p + 1) % n == p % n + 1 && (p + 1) / n == p / n,
        p % n + 1 == n ==> (p + 1) % n == 0 && (p + 1) / n == p / n + 1,
{
    lemma_fundamental_div_mod(p, n);
    let q = p / n;
    let r = p % n;
    assert(q >= 0) by (nonlinear_arith)
        requires p == n * q + r, 0 <= r < n, p >= 0;
    if r + 1 < n {
        assert(p + 1 == q * n + (r + 1)) by (nonlinear_arith)
            requires p == n * q + r;
        lemma_fundamental_div_mod_converse(p + 1, n, q, r + 1);
    } else {
        assert(p + 1 == (q + 1) * n + 0) by (nonlinear_arith)
            requires p == n * q + r, r + 1 == n;
        lemma_fundamental_div_mod_converse(p + 1, n, q + 1, 0);
    }
}

/// Every worker's start chunk moves by one exactly for the worker whose turn
/// global chunk `p` is.
proof fn lemma_start_chunk_step(i: int, p: int, n: int)
    requires
        n > 0,
        0 <= i < n,
        p >= 0,
    ensures
        worker_start_chunk(i, p + 1, n) == worker_start_chunk(i, p, n) + if i == p % n {
            1int
        } else {
            0int
        },
        i == p % n ==> worker_start_chunk(i, p, n) == p / n,
{
    lemma_next_position(p, n);
}

/// Seeking resumes every worker where it stands in the stream from the
/// start: a stream started at global chunk `pos` starts worker `i` at the
/// chunk of its keystream that follows the ones it made for the first
/// `pos` chunks of the stream started at 0.
pub proof fn lemma_seek_resumes_workers(i: int, pos: int, n: int)
    requires
        n > 0,
        0 <= i < n,
        pos >= 0,
    ensures
        worker_start_chunk(i, pos, n) == chunks_of_worker_before(i, pos, n),
    decreases pos,
{
    if pos == 0 {
        lemma_fundamental_div_mod_converse(0, n, 0, 0);
    } else {
        lemma_seek_resumes_workers(i, pos - 1, n);
        lemma_start_chunk_step(i, pos - 1, n);
    }
}

/// Successive chunks come from successive workers: the `k`-th chunk after
/// the stream started at global chunk `m` comes from worker
/// `(m % n + k) % n`.
pub proof fn lemma_round_robin(m: int, k: int, n: int)
    requires
        n > 0,
        m >= 0,
        k >= 0,
    ensures
        chunk_origin(m + k, n).0 == (m % n + k) % n,
    decreases k,
{
    lemma_next_position(m, n);
    if k > 0 {
        lemma_round_robin(m, k - 1, n);
        lemma_next_position(m + k - 1, n);
        lemma_next_position(m % n + k - 1, n);
    } else {
        lemma_fundamental_div_mod_converse(m % n, n, 0, m % n);
    }
}

/// Seeking is exact: the `k`-th chunk of the stream started at global
/// chunk `m` is the chunk of worker `(m + k) % n` that follows the ones
/// that worker made for the first `m + k` chunks of the stream started at
/// 0, which is chunk `m + k` of that stream.
pub proof fn lemma_seek_matches_start(m: int, k: int, n: int)
    requires
        n > 0,
        m >= 0,
        k >= 0,
    ensures
        chunk_origin(m + k, n).1 == worker_start_chunk(chunk_origin(m + k, n).0, m + k, n),
        chunk_origin(m + k, n).1 == chunks_of_worker_before(chunk_origin(m + k, n).0, m + k, n),
{
    let pos = m + k;
    lemma_next_position(pos, n);
    lemma_start_chunk_step(pos % n, pos, n);
    lemma_seek_resumes_workers(pos % n, pos, n);
}

/// Aligning an offset keeps its chunk and is idempotent: activating at an
/// offset and at its aligned offset starts at the same global chunk.
pub proof fn lemma_alignment(byte_offset: int, cs: int)
    requires
        cs > 0,
        byte_offset >= 0,
    ensures
        aligned_offset(byte_offset, cs) % cs == 0,
        0 <= aligned_offset(byte_offset, cs) <= byte_offset,
        byte_offset - aligned_offset(byte_offset, cs) < cs,
        aligned_offset(aligned_offset(byte_offset, cs), cs) == aligned_offset(byte_offset, cs),
        aligned_offset(byte_offset, cs) / cs == byte_offset / cs,
{
    lemma_fundamental_div_mod(byte_offset, cs);
    let q = byte_offset / cs;
    let r = byte_offset % cs;
    let a = aligned_offset(byte_offset, cs);
    assert(a == q * cs + 0 && q >= 0) by (nonlinear_arith)
        requires byte_offset == cs * q + r, a == byte_offset - r, 0 <= r < cs, byte_offset >= 0;
    lemma_fundamental_div_mod_converse(a, cs, q, 0);
    assert(a >= 0) by (nonlinear_arith)
        requires a == q * cs, q >= 0, cs > 0;
}

/// `byte_offset` rounded down to a multiple of `chunk_size`.
pub fn align_offset(byte_offset: u64, chunk_size: u64) -> (r: u64)
    requires
        chunk_size > 0,
    ensures
        r == aligned_offset(byte_offset as int, chunk_size as int),
{
    proof {
        lemma_alignment(byte_offset as int, chunk_size as int);
    }
    byte_offset - byte_offset % chunk_size
}

/// The byte offset in its own keystream at which worker `i` of
/// `num_threads` starts when the aggregated stream starts at global chunk
/// `chunk_index`.
pub fn thread_offset(i: u64, chunk_index: u64, num_threads: u64, chunk_size: u64) -> (r: u64)
    requires
        num_threads > 0,
        chunk_size > 0,
        chunk_index * chunk_size <= u64::MAX,
    ensures
        r == worker_start_chunk(i as int, chunk_index as int, num_threads as int) * chunk_size,
{
    let iteration = chunk_index / num_threads;
    let current = chunk_index % num_threads;
    proof {
        lemma_fundamental_div_mod(chunk_index as int, num_threads as int);
        assert(iteration * chunk_size <= chunk_index * chunk_size) by (nonlinear_arith)
            requires
                chunk_index == num_threads * iteration + current,
                num_threads > 0,
                chunk_size > 0,
        ;
    }
    if i < current {
        proof {
            assert(iteration + 1 <= chunk_index) by (nonlinear_arith)
                requires
                    chunk_index == num_threads * iteration + current,
                    current >= 1,
                    num_threads > 0,
            ;
            assert((iteration + 1) * chunk_size <= chunk_index * chunk_size) by (nonlinear_arith)
                requires
                    iteration + 1 <= chunk_index,
                    chunk_size > 0,
            ;
        }
        (iteration + 1) * chunk_size
    } else {
        iteration * chunk_size
    }
}

/// A chunk handed out by the aggregator, with the id of the worker that
/// made it. Give it back with `DtStreamAgg::release` so that its buffer is
/// recycled.
pub struct DtStreamAggChunk {
    chunk: DtStreamChunk,
    thread_id: usize,
    position: Ghost<int>,
    worker_chunk: Ghost<int>,
}

impl DtStreamAggChunk {
    /// The chunk's bytes.
    pub closed spec fn data(&self) -> Seq<u8> {
        self.chunk.data@
    }

    /// The id of the worker that made the chunk.
    pub closed spec fn worker(&self) -> int {
        self.thread_id as int
    }

    /// The global chunk number that the round-robin schedule gave this
    /// chunk, counted from byte 0 of the aggregated stream.
    pub closed spec fn position(&self) -> int {
        self.position@
    }

    /// The chunk number, in its worker's keystream, that the schedule gave
    /// this chunk: where the worker was activated plus the chunks taken from
    /// it since. The bytes are those the worker returned (see `accept`).
    pub closed spec fn worker_chunk(&self) -> int {
        self.worker_chunk@
    }

    /// The chunk's index among its worker's chunks since activation.
    pub closed spec fn index(&self) -> u64 {
        self.chunk.index
    }

    /// The chunk's bytes.
    pub fn get_data(&self) -> (r: &[u8])
        ensures
            r@ == self.data(),
    {
        self.chunk.data.as_slice()
    }

    /// The id of the worker that made the chunk.
    pub fn get_thread_id(&self) -> (r: usize)
        ensures
            r == self.worker(),
    {
        self.thread_id
    }

    /// The chunk's index among its worker's chunks since activation.
    pub fn get_index(&self) -> (r: u64)
        ensures
            r == self.index(),
    {
        self.chunk.index
    }
}

/// N workers presented as one stream of chunks: global chunk `p` is chunk
/// `p / N` of worker `p % N`'s keystream.
pub struct DtStreamAgg<S: DtChunkSource> {
    stype: DtStreamType,
    num_threads: usize,
    streams: Vec<S>,
    cache: BufCache,
    current_index: usize,
    is_active: bool,
    position: Ghost<int>,
    next_chunk: Ghost<Seq<int>>,
    started: Ghost<Seq<int>>,
}

/// What handing out `c` does to an aggregator, from `old` to `new`: `c`
/// comes from the worker whose turn it is, at the keystream chunk the
/// round-robin order gives it, and the turn passes to the next worker.
pub open spec fn hands_out<S: DtChunkSource>(old: DtStreamAgg<S>, new: DtStreamAgg<S>, c: DtStreamAggChunk) -> bool {
    &&& c.worker() == old.current()
    &&& (c.worker(), c.worker_chunk()) == chunk_origin(old.position(), old.num_workers())
    &&& c.worker_chunk() == old.next_chunk(c.worker())
    &&& c.position() == old.position()
    &&& new.position() == old.position() + 1
    &&& new.current() == (old.current() + 1) % old.num_workers()
    &&& forall|i: int| 0 <= i < old.num_workers() ==> #[trigger] new.next_chunk(i)
        == old.next_chunk(i) + if i == c.worker() { 1int } else { 0int }
}

impl<S: DtChunkSource> DtStreamAgg<S> {
    /// Number of workers.
    pub closed spec fn num_workers(&self) -> int {
        self.num_threads as int
    }

    /// The workers, worker `i` at index `i`.
    pub closed spec fn workers(&self) -> Seq<S> {
        self.streams@
    }

    /// The recycling slots of the chunk buffers.
    pub closed spec fn recycler(&self) -> BufCache {
        self.cache
    }

    /// The workers' keystream algorithm.
    pub closed spec fn stream_type(&self) -> DtStreamType {
        self.stype
    }

    /// Whether the aggregator has been activated.
    pub closed spec fn active(&self) -> bool {
        self.is_active
    }

    /// The id of the worker whose chunk comes next.
    pub closed spec fn current(&self) -> int {
        self.current_index as int
    }

    /// Global chunk number, from byte 0 of the aggregated stream, of the
    /// chunk that comes next.
    pub closed spec fn position(&self) -> int {
        self.position@
    }

    /// Chunk number, in worker `i`'s keystream, of that worker's next
    /// chunk: where it was activated plus the chunks taken from it since.
    pub closed spec fn next_chunk(&self, i: int) -> int {
        self.next_chunk@[i]
    }

    /// The byte offset at which worker `i` was last activated.
    pub closed spec fn start_offset(&self, i: int) -> int {
        self.started@[i]
    }

    /// The aggregator's invariant: a worker for each id, each with a
    /// recycling slot, and each worker's next chunk where the round-robin
    /// order puts it.
    pub closed spec fn wf(&self) -> bool {
        &&& 1 <= self.num_threads <= MAX_THREADS
        &&& self.streams@.len() == self.num_threads
        &&& forall|i: int| 0 <= i < self.num_threads ==> #[trigger] self.cache.consumers().contains(i as u32)
        &&& self.position@ >= 0
        &&& self.current_index == self.position@ % (self.num_threads as int)
        &&& self.next_chunk@.len() == self.num_threads
        &&& self.started@.len() == self.num_threads
        &&& forall|i: int| 0 <= i < self.num_threads ==> #[trigger] self.next_chunk@[i]
            == worker_start_chunk(i, self.position@, self.num_threads as int)
    }

    /// An idle aggregator over `streams`, worker `i` being `streams[i]`,
    /// whose chunk buffers go back to slot `i` of `cache`.
    pub fn new(stype: DtStreamType, streams: Vec<S>, cache: BufCache) -> (r: Self)
        requires
            1 <= streams@.len() <= MAX_THREADS,
            forall|i: int| 0 <= i < streams@.len() ==> #[trigger] cache.consumers().contains(i as u32),
        ensures
            r.wf(),
            !r.active(),
            r.num_workers() == streams@.len(),
            r.workers() == streams@,
            r.recycler() == cache,
            r.stream_type() == stype,
            r.current() == 0,
            r.position() == 0,
    {
        let num_threads = streams.len();
        proof {
            lemma_fundamental_div_mod_converse(0, num_threads as int, 0, 0);
        }
        DtStreamAgg {
            stype,
            num_threads,
            streams,
            cache,
            current_index: 0,
            is_active: false,
            position: Ghost(0),
            next_chunk: Ghost(Seq::new(num_threads as nat, |i: int| 0int)),
            started: Ghost(Seq::new(num_threads as nat, |i: int| 0int)),
        }
    }

    /// Size of every chunk, in bytes.
    pub fn get_chunk_size(&self) -> (r: usize)
        ensures
            r == chunk_size(self.stream_type()),
            r > 0,
    {
        self.stype.get_chunk_size()
    }

    /// Number of workers.
    pub fn get_num_threads(&self) -> (r: usize)
        requires
            self.wf(),
        ensures
            r == self.num_workers(),
            r >= 1,
    {
        self.num_threads
    }

    /// Whether the aggregator has been activated.
    pub fn is_active(&self) -> (r: bool)
        ensures
            r == self.active(),
    {
        self.is_active
    }

    /// Starts the stream at `byte_offset`, rounded down to a multiple of
    /// the chunk size, and returns the offset used. Each worker is
    /// activated at the chunk of its keystream that the round-robin order
    /// puts first for it. A worker's seek failure shows on a later pull.
    pub fn activate(&mut self, byte_offset: u64) -> (r: Result<u64, DtStreamError>)
        requires
            old(self).wf(),
        ensures
            final(self).wf(),
            final(self).num_workers() == old(self).num_workers(),
            final(self).stream_type() == old(self).stream_type(),
            final(self).recycler() == old(self).recycler(),
            final(self).workers().len() == old(self).workers().len(),
            r == Ok::<u64, DtStreamError>(
                aligned_offset(byte_offset as int, chunk_size(old(self).stream_type()) as int) as u64,
            ),
            final(self).active(),
            final(self).position() == aligned_offset(byte_offset as int, chunk_size(old(self).stream_type()) as int)
                / (chunk_size(old(self).stream_type()) as int),
            final(self).current() == final(self).position() % old(self).num_workers(),
            forall|i: int| 0 <= i < old(self).num_workers() ==> #[trigger] final(self).next_chunk(i)
                == worker_start_chunk(i, final(self).position(), old(self).num_workers()),
            forall|i: int| 0 <= i < old(self).num_workers() ==> #[trigger] final(self).start_offset(i)
                == worker_start_chunk(i, final(self).position(), old(self).num_workers())
                * (chunk_size(old(self).stream_type()) as int),
    {
        let chunk_size = self.get_chunk_size() as u64;
        let byte_offset = align_offset(byte_offset, chunk_size);
        proof {
            lemma_alignment(byte_offset as int, chunk_size as int);
            lemma_fundamental_div_mod(byte_offset as int, chunk_size as int);
        }
        let chunk_index = byte_offset / chunk_size;
        proof {
            assert(chunk_index * chunk_size <= byte_offset) by (nonlinear_arith)
                requires
                    byte_offset as int == chunk_size as int * (chunk_index as int) + (byte_offset as int) % (chunk_size as int),
                    (byte_offset as int) % (chunk_size as int) >= 0,
            ;
        }
        let n = self.num_threads as u64;
        self.is_active = false;
        self.current_index = (chunk_index % n) as usize;
        self.position = Ghost(chunk_index as int);
        self.next_chunk = Ghost(
            Seq::new(n as nat, |i: int| worker_start_chunk(i, chunk_index as int, n as int)),
        );
        let mut i: usize = 0;
        while i < self.num_threads
            invariant
                self.wf(),
                !self.is_active,
                i <= n,
                self.num_threads == n,
                self.num_threads == old(self).num_threads,
                self.cache == old(self).cache,
                chunk_size > 0,
                self.stype == old(self).stype,
                self.position@ == chunk_index,
                chunk_index * chunk_size <= u64::MAX,
                chunk_size == crate::stream::chunk_size(self.stype),
                n > 0,
                forall|j: int| 0 <= j < i ==> #[trigger] self.started@[j]
                    == worker_start_chunk(j, chunk_index as int, n as int) * chunk_size,
            decreases self.num_threads - i,
        {
            let off = thread_offset(i as u64, chunk_index, n, chunk_size);
            self.streams[i].activate(off);
            self.started = Ghost(self.started@.update(i as int, off as int));
            i = i + 1;
        }
        self.is_active = true;
        Ok(byte_offset)
    }

    /// Takes the answer of the worker whose turn it is: its chunk is handed
    /// out, with that worker's id, and the turn passes on; `None` or an
    /// error are passed on and change nothing.
    pub fn accept(&mut self, pulled: Result<Option<DtStreamChunk>, DtStreamError>) -> (r: Result<
        Option<DtStreamAggChunk>,
        DtStreamError,
    >)
        requires
            old(self).wf(),
            old(self).active(),
        ensures
            final(self).wf(),
            final(self).num_workers() == old(self).num_workers(),
            final(self).stream_type() == old(self).stream_type(),
            final(self).active() == old(self).active(),
            final(self).workers() == old(self).workers(),
            final(self).recycler() == old(self).recycler(),
            forall|i: int| #[trigger] final(self).start_offset(i) == old(self).start_offset(i),
            match pulled {
                Err(e) => r == Err::<Option<DtStreamAggChunk>, DtStreamError>(e) && *final(self) == *old(self),
                Ok(None) => r == Ok::<Option<DtStreamAggChunk>, DtStreamError>(None) && *final(self) == *old(self),
                Ok(Some(ch)) => match r {
                    Ok(Some(c)) => {
                        &&& c.data() == ch.data@
                        &&& c.index() == ch.index
                        &&& hands_out(*old(self), *final(self), c)
                    },
                    _ => false,
                },
            },
    {
        match pulled {
            Err(e) => Err(e),
            Ok(None) => Ok(None),
            Ok(Some(chunk)) => {
                let id = self.current_index;
                let ghost p = self.position@;
                let ghost n = self.num_threads as int;
                proof {
                    lemma_next_position(p, n);
                    assert forall|i: int| 0 <= i < n implies worker_start_chunk(i, p + 1, n)
                        == worker_start_chunk(i, p, n) + if i == p % n { 1int } else { 0int } by {
                        lemma_start_chunk_step(i, p, n);
                    }
                    lemma_start_chunk_step(id as int, p, n);
                    lemma_fundamental_div_mod_converse(id as int, n, 0, id as int);
                    lemma_next_position(id as int, n);
                }
                let c = DtStreamAggChunk {
                    chunk,
                    thread_id: id,
                    position: Ghost(p),
                    worker_chunk: Ghost(self.next_chunk@[id as int]),
                };
                self.current_index = if id + 1 == self.num_threads { 0 } else { id + 1 };
                self.position = Ghost(p + 1);
                self.next_chunk = Ghost(
                    Seq::new(n as nat, |i: int| worker_start_chunk(i, p + 1, n)),
                );
                Ok(Some(c))
            },
        }
    }

    /// The next chunk of the stream if the worker whose turn it is has one
    /// ready, else `None`; no other worker is asked, so the order is never
    /// broken. A worker's failure is returned. An inactive aggregator gives
    /// nothing and changes nothing.
    pub fn get_chunk(&mut self) -> (r: Result<Option<DtStreamAggChunk>, DtStreamError>)
        requires
            old(self).wf(),
        ensures
            final(self).wf(),
            final(self).num_workers() == old(self).num_workers(),
            final(self).stream_type() == old(self).stream_type(),
            final(self).active() == old(self).active(),
            final(self).recycler() == old(self).recycler(),
            final(self).workers().len() == old(self).workers().len(),
            forall|i: int| #[trigger] final(self).start_offset(i) == old(self).start_offset(i),
            !old(self).active() ==> r == Ok::<Option<DtStreamAggChunk>, DtStreamError>(None)
                && *final(self) == *old(self),
            forall|i: int| 0 <= i < old(self).num_workers() && i != old(self).current()
                ==> #[trigger] final(self).workers()[i] == old(self).workers()[i],
            match r {
                Ok(Some(c)) => old(self).active() && hands_out(*old(self), *final(self), c),
                _ => {
                    &&& final(self).position() == old(self).position()
                    &&& final(self).current() == old(self).current()
                },
            },
    {
        if !self.is_active {
            return Ok(None);
        }
        let id = self.current_index;
        let pulled = self.streams[id].get_chunk();
        self.accept(pulled)
    }

    /// Gives a chunk back: its buffer goes to the recycling slot of the
    /// worker that made it. The result is `true` where that worker is found
    /// gone for the first time, so that a warning is given once per worker.
    pub fn release(&mut self, chunk: DtStreamAggChunk) -> (warn: bool)
        requires
            old(self).wf(),
            0 <= chunk.worker() < old(self).num_workers(),
        ensures
            final(self).wf(),
            final(self).num_workers() == old(self).num_workers(),
            final(self).stream_type() == old(self).stream_type(),
            final(self).active() == old(self).active(),
            final(self).position() == old(self).position(),
            final(self).current() == old(self).current(),
            final(self).workers() == old(self).workers(),
            forall|i: int| #[trigger] final(self).start_offset(i) == old(self).start_offset(i),
            released(old(self).recycler(), final(self).recycler(), chunk.worker() as u32, chunk.data(), warn),
    {
        let id = chunk.thread_id;
        let DtStreamAggChunk { chunk: DtStreamChunk { index: _, data }, .. } = chunk;
        assert(self.cache.consumers().contains(id as u32));
        self.cache.push(id as u32, data)
    }
}

/// The schedule of an aggregator is determined by its place in the stream:
/// two aggregators with as many workers, at the same global chunk (as
/// after activating both at the same offset, or one at an offset and one at
/// that offset aligned), take the same chunk of the same worker's keystream
/// next, and at every later pull.
pub proof fn lemma_schedule_determined<S: DtChunkSource, T: DtChunkSource>(
    a: &DtStreamAgg<S>,
    b: &DtStreamAgg<T>,
)
    requires
        a.wf(),
        b.wf(),
        a.num_workers() == b.num_workers(),
        a.position() == b.position(),
    ensures
        a.current() == b.current(),
        forall|i: int| 0 <= i < a.num_workers() ==> #[trigger] a.next_chunk(i) == b.next_chunk(i),
{
}

} // verus!
