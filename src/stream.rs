use vstd::prelude::*;

verus! {

/// Keystream algorithm of a worker.
#[derive(Clone, Copy, Debug, PartialEq, Eq, Structural)]
pub enum DtStreamType {
    ChaCha8,
    ChaCha12,
    ChaCha20,
    Crc,
}

/// Bytes that one primitive call of a cipher generator yields.
pub const CHACHA_BASE_SIZE: usize = 4096;

/// Primitive calls of a cipher generator that make up one chunk.
pub const CHACHA_CHUNK_FACTOR: usize = 64;

/// Bytes that one primitive call of the CRC generator yields.
pub const CRC_BASE_SIZE: usize = 1024;

/// Primitive calls of the CRC generator that make up one chunk.
pub const CRC_CHUNK_FACTOR: usize = 256;

pub open spec fn base_size(stype: DtStreamType) -> nat {
    match stype {
        DtStreamType::Crc => CRC_BASE_SIZE as nat,
        _ => CHACHA_BASE_SIZE as nat,
    }
}

pub open spec fn chunk_factor(stype: DtStreamType) -> nat {
    match stype {
        DtStreamType::Crc => CRC_CHUNK_FACTOR as nat,
        _ => CHACHA_CHUNK_FACTOR as nat,
    }
}

/// Size of one chunk: `chunk_factor` base blocks.
pub open spec fn chunk_size(stype: DtStreamType) -> nat {
    base_size(stype) * chunk_factor(stype)
}

/// Every generator's chunk is 256 KiB.
pub proof fn lemma_chunk_size_values(stype: DtStreamType)
    ensures
        chunk_size(stype) == 262144,
{
    assert(4096nat * 64 == 262144 && 1024nat * 256 == 262144) by (nonlinear_arith);
}

impl DtStreamType {
    /// Size of the selected generator's output per primitive call, in bytes.
    pub fn get_generator_outsize(self) -> (r: usize)
        ensures
            r == base_size(self),
            r > 0,
    {
        match self {
            DtStreamType::Crc => CRC_BASE_SIZE,
            _ => CHACHA_BASE_SIZE,
        }
    }

    /// Number of primitive calls of the selected generator per chunk.
    pub fn get_chunk_factor(self) -> (r: usize)
        ensures
            r == chunk_factor(self),
            r > 0,
    {
        match self {
            DtStreamType::Crc => CRC_CHUNK_FACTOR,
            _ => CHACHA_CHUNK_FACTOR,
        }
    }

    /// Size of one chunk of the selected generator, in bytes.
    pub fn get_chunk_size(self) -> (r: usize)
        ensures
            r == chunk_size(self),
            r > 0,
    {
        let b = self.get_generator_outsize();
        let f = self.get_chunk_factor();
        assert(b * f <= 4096 * 256) by (nonlinear_arith)
            requires b <= 4096, f <= 256;
        assert(b * f > 0) by (nonlinear_arith)
            requires b > 0, f > 0;
        b * f
    }
}

/// One chunk of a worker's keystream: the `index`-th chunk since the
/// worker was activated.
pub struct DtStreamChunk {
    pub index: u64,
    pub data: Vec<u8>,
}

/// Failure of a worker's stream.
#[derive(Clone, Copy, Debug, PartialEq, Eq, Structural)]
pub enum DtStreamError {
    /// The generator could not seek to the requested offset; the worker
    /// stopped and this activation produces nothing more.
    GeneratorSeek,
}

impl DtStreamError {
    /// A one-line description of the error.
    pub fn message(&self) -> (r: String)
        ensures
            r@ == "Generator stream thread aborted with an error."@,
    {
        proof {
            reveal_strlit("Generator stream thread aborted with an error.");
        }
        match self {
            DtStreamError::GeneratorSeek => "Generator stream thread aborted with an error.".to_string(),
        }
    }
}

/// Maximum number of chunks that a worker computes ahead of its consumer.
pub const LEVEL_THRES: isize = 8;

/// What a worker's producer does next.
#[derive(Clone, Copy, Debug, PartialEq, Eq, Structural)]
pub enum WorkerAction {
    /// Leave the loop: the worker was told to stop.
    Exit,
    /// The queue is full: sleep briefly, then ask again.
    Wait,
    /// Generate the chunk with this index and queue it.
    Produce(u64),
}

/// The queue level after one producer step from `level` (the consumer not
/// taking anything meanwhile).
pub open spec fn level_after_step(abort: bool, level: int) -> int {
    if !abort && level < LEVEL_THRES { level + 1 } else { level }
}

/// The queue level after producer steps with the given abort flags, the
/// consumer taking nothing meanwhile.
pub open spec fn level_after_steps(aborts: Seq<bool>, level: int) -> int
    decreases aborts.len(),
{
    if aborts.len() == 0 {
        level
    } else {
        level_after_steps(aborts.drop_first(), level_after_step(aborts[0], level))
    }
}

/// The decisions of a worker's producer loop: it counts the chunks it has
/// produced since activation.
pub struct Producer {
    pub index: u64,
}

impl Producer {
    /// A producer at its first chunk.
    pub fn new() -> (r: Producer)
        ensures
            r.index == 0,
    {
        Producer { index: 0 }
    }

    /// One turn of the producer loop, given the abort flag and the number
    /// of chunks waiting in the queue. It produces only while fewer than
    /// `LEVEL_THRES` chunks wait, and stops as soon as it is told to.
    pub fn step(&mut self, abort: bool, level: isize) -> (r: WorkerAction)
        requires
            old(self).index < u64::MAX,
        ensures
            abort ==> r == WorkerAction::Exit,
            !abort && level >= LEVEL_THRES ==> r == WorkerAction::Wait,
            !abort && level < LEVEL_THRES ==> r == WorkerAction::Produce(old(self).index),
            r is Produce ==> final(self).index == old(self).index + 1,
            !(r is Produce) ==> final(self).index == old(self).index,
            r is Produce <==> level_after_step(abort, level as int) == level + 1,
    {
        if abort {
            WorkerAction::Exit
        } else if level < LEVEL_THRES {
            let index = self.index;
            self.index = index + 1;
            WorkerAction::Produce(index)
        } else {
            WorkerAction::Wait
        }
    }
}

/// With the consumer taking nothing, a queue that holds at most
/// `LEVEL_THRES` chunks never holds more, whatever the producer is told.
pub proof fn lemma_level_bounded(aborts: Seq<bool>, level: int)
    requires
        level <= LEVEL_THRES,
    ensures
        level_after_steps(aborts, level) <= LEVEL_THRES,
        level <= level_after_steps(aborts, level),
    decreases aborts.len(),
{
    if aborts.len() > 0 {
        lemma_level_bounded(aborts.drop_first(), level_after_step(aborts[0], level));
    }
}

/// Chunk buffers one worker has in use: the chunks waiting in its queue,
/// the one being filled, and those its consumer holds.
pub open spec fn buffers_in_use(level: int, filling: bool, held: int) -> int {
    level + (if filling { 1int } else { 0int }) + held
}

/// With the consumer blocked holding at most one chunk, a worker that
/// starts with at most `LEVEL_THRES` queued chunks never has more than
/// `LEVEL_THRES + 2` buffers in use, whatever the producer is told.
pub proof fn lemma_buffers_bounded(aborts: Seq<bool>, level: int, filling: bool, held: int)
    requires
        level <= LEVEL_THRES,
        0 <= held <= 1,
    ensures
        buffers_in_use(level_after_steps(aborts, level), filling, held) <= LEVEL_THRES + 2,
{
    lemma_level_bounded(aborts, level);
}

/// What the consumer side of a worker does when asked for a chunk.
#[derive(Clone, Copy, Debug, PartialEq, Eq, Structural)]
pub enum PollPlan {
    /// The worker is not active: there is no chunk.
    Idle,
    /// The producer stopped with an error: report it.
    Fail,
    /// Take a chunk from the queue if one is waiting.
    Receive,
}

/// The consumer side's decision: nothing from an inactive worker, the
/// error of a failed producer, else whatever the queue holds.
pub fn poll_plan(is_active: bool, thread_error: bool) -> (r: PollPlan)
    ensures
        !is_active ==> r == PollPlan::Idle,
        is_active && thread_error ==> r == PollPlan::Fail,
        is_active && !thread_error ==> r == PollPlan::Receive,
{
    if !is_active {
        PollPlan::Idle
    } else if thread_error {
        PollPlan::Fail
    } else {
        PollPlan::Receive
    }
}

/// One worker as the aggregator sees it: a stream of chunks of its own
/// keystream, restartable at a byte offset.
pub trait DtChunkSource {
    /// Stops any running production and restarts it at `byte_offset` of
    /// this worker's keystream; chunk indices start again at 0. A seek
    /// failure shows on the next `get_chunk`.
    fn activate(&mut self, byte_offset: u64);

    /// The next chunk if one is ready, `None` if not yet, or the error that
    /// stopped the producer.
    fn get_chunk(&mut self) -> Result<Option<DtStreamChunk>, DtStreamError>;
}

} // verus!
