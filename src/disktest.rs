use vstd::prelude::*;

verus! {

/// Bytes between two progress messages.
pub const LOGTHRES: u64 = 10485760;

pub open spec fn min_of(a: int, b: int) -> int {
    if a <= b { a } else { b }
}

/// Byte accounting of one write or verify pass over at most `max` bytes.
pub struct DtProgress {
    max_bytes: u64,
    bytes_left: u64,
    bytes_done: u64,
    log_count: u64,
}

impl DtProgress {
    /// Bytes the pass may still handle.
    pub closed spec fn left(&self) -> int {
        self.bytes_left as int
    }

    /// Bytes handled so far.
    pub closed spec fn done(&self) -> int {
        self.bytes_done as int
    }

    /// Bytes handled since the last progress message.
    pub closed spec fn since_log(&self) -> int {
        self.log_count as int
    }

    pub closed spec fn wf(&self) -> bool {
        &&& self.bytes_done + self.bytes_left == self.max_bytes
        &&& self.log_count <= self.bytes_done
    }

    /// A pass that has handled nothing yet, out of at most `max_bytes`.
    pub fn new(max_bytes: u64) -> (r: DtProgress)
        ensures
            r.wf(),
            r.left() == max_bytes,
            r.done() == 0,
            r.since_log() == 0,
    {
        DtProgress { max_bytes, bytes_left: max_bytes, bytes_done: 0, log_count: 0 }
    }

    /// Bytes of a chunk of `chunk_size` bytes that the pass still uses.
    pub fn next_len(&self, chunk_size: usize) -> (r: usize)
        ensures
            r == min_of(chunk_size as int, self.left()),
    {
        if (chunk_size as u64) <= self.bytes_left {
            chunk_size
        } else {
            self.bytes_left as usize
        }
    }

    /// Accounts for `len` more bytes handled. The result tells whether a
    /// progress message is due: another `LOGTHRES` bytes have gone by.
    pub fn account(&mut self, len: u64) -> (log: bool)
        requires
            old(self).wf(),
            len <= old(self).left(),
        ensures
            final(self).wf(),
            final(self).done() == old(self).done() + len,
            final(self).left() == old(self).left() - len,
            log == (old(self).since_log() + len >= LOGTHRES),
            final(self).since_log() == if log {
                old(self).since_log() + len - LOGTHRES
            } else {
                old(self).since_log() + len
            },
    {
        self.bytes_done = self.bytes_done + len;
        self.bytes_left = self.bytes_left - len;
        self.log_count = self.log_count + len;
        if self.log_count >= LOGTHRES {
            self.log_count = self.log_count - LOGTHRES;
            true
        } else {
            false
        }
    }

    /// Whether no byte is left to handle.
    pub fn is_done(&self) -> (r: bool)
        ensures
            r == (self.left() == 0),
    {
        self.bytes_left == 0
    }

    /// Bytes handled so far.
    pub fn bytes_done(&self) -> (r: u64)
        ensures
            r == self.done(),
    {
        self.bytes_done
    }
}

/// The first of the first `count` bytes at which `data` and `expected`
/// differ, if any.
pub fn find_mismatch(data: &[u8], expected: &[u8], count: usize) -> (r: Option<usize>)
    requires
        count <= data@.len(),
        count <= expected@.len(),
    ensures
        match r {
            Some(i) => {
                &&& i < count
                &&& data@[i as int] != expected@[i as int]
                &&& forall|j: int| 0 <= j < i ==> data@[j] == expected@[j]
            },
            None => forall|j: int| 0 <= j < count ==> data@[j] == expected@[j],
        },
{
    let mut i: usize = 0;
    while i < count
        invariant
            i <= count,
            count <= data@.len(),
            count <= expected@.len(),
            forall|j: int| 0 <= j < i ==> data@[j] == expected@[j],
        decreases count - i,
    {
        if data[i] != expected[i] {
            return Some(i);
        }
        i = i + 1;
    }
    None
}

/// What a verify pass does after a read from the device.
#[derive(Clone, Copy, Debug, PartialEq, Eq, Structural)]
pub enum ReadStep {
    /// The read buffer is not full yet: read again.
    ReadMore,
    /// Compare this many bytes of the read buffer with the next chunk of
    /// the stream, then call `compared`.
    Compare(usize),
    /// The device has ended: the pass is over.
    Finish,
}

/// The decisions of a verify pass: it fills a read buffer of up to one
/// chunk, has it compared with the stream chunk by chunk, and ends at the
/// byte limit or at the device's end.
pub struct DtReadState {
    progress: DtProgress,
    chunk_size: usize,
    read_count: usize,
    read_len: usize,
    at_end: bool,
}

impl DtReadState {
    pub closed spec fn wf(&self) -> bool {
        &&& self.progress.wf()
        &&& self.chunk_size > 0
        &&& self.read_count <= self.read_len
        &&& self.read_len == min_of(self.chunk_size as int, self.progress.left())
    }

    /// Bytes of one chunk.
    pub closed spec fn chunk(&self) -> int {
        self.chunk_size as int
    }

    /// Bytes of the read buffer that are filled.
    pub closed spec fn filled(&self) -> int {
        self.read_count as int
    }

    /// Bytes the read buffer is to hold before it is compared.
    pub closed spec fn wanted(&self) -> int {
        self.read_len as int
    }

    /// Bytes verified so far.
    pub closed spec fn verified(&self) -> int {
        self.progress.done()
    }

    /// Whether the last read found the device's end.
    pub closed spec fn device_ended(&self) -> bool {
        self.at_end
    }

    /// Bytes verified since the last progress message.
    pub closed spec fn since_log(&self) -> int {
        self.progress.since_log()
    }

    /// Bytes the pass may still verify.
    pub closed spec fn left(&self) -> int {
        self.progress.left()
    }

    /// A pass over at most `max_bytes` bytes, compared in chunks of
    /// `chunk_size` bytes.
    pub fn new(max_bytes: u64, chunk_size: usize) -> (r: DtReadState)
        requires
            chunk_size > 0,
        ensures
            r.wf(),
            r.verified() == 0,
            r.chunk() == chunk_size,
            r.left() == max_bytes,
            r.filled() == 0,
            r.wanted() == min_of(chunk_size as int, max_bytes as int),
    {
        let progress = DtProgress::new(max_bytes);
        let read_len = progress.next_len(chunk_size);
        DtReadState { progress, chunk_size, read_count: 0, read_len, at_end: false }
    }

    /// The part of the read buffer that the next read fills.
    pub fn read_range(&self) -> (r: (usize, usize))
        requires
            self.wf(),
        ensures
            r.0 == self.filled(),
            r.1 == self.wanted(),
            r.0 <= r.1,
    {
        (self.read_count, self.read_len)
    }

    /// Takes account of a read of `n` bytes; `n == 0` means that the device
    /// has ended. A full buffer, or a partly filled one at the device's
    /// end, is to be compared; an empty one at the end finishes the pass.
    pub fn after_read(&mut self, n: usize) -> (r: ReadStep)
        requires
            old(self).wf(),
            n <= old(self).wanted() - old(self).filled(),
        ensures
            final(self).wf(),
            final(self).filled() == old(self).filled() + n,
            final(self).wanted() == old(self).wanted(),
            final(self).verified() == old(self).verified(),
            final(self).left() == old(self).left(),
            final(self).chunk() == old(self).chunk(),
            final(self).since_log() == old(self).since_log(),
            final(self).device_ended() == (n == 0),
            final(self).filled() == final(self).wanted() || (final(self).filled() > 0 && n == 0)
                ==> r == ReadStep::Compare(final(self).filled() as usize),
            !(final(self).filled() == final(self).wanted() || (final(self).filled() > 0 && n == 0))
                ==> r == if n == 0 { ReadStep::Finish } else { ReadStep::ReadMore },
    {
        self.read_count = self.read_count + n;
        self.at_end = n == 0;
        if self.read_count == self.read_len || (self.read_count > 0 && n == 0) {
            ReadStep::Compare(self.read_count)
        } else if n == 0 {
            ReadStep::Finish
        } else {
            ReadStep::ReadMore
        }
    }

    /// Takes account of a successful comparison of the filled bytes. The
    /// result tells whether the pass is over (byte limit reached, or the
    /// device ended with the last read), and whether a progress message is
    /// due. The buffer is emptied for the next chunk.
    pub fn compared(&mut self) -> (r: (bool, bool))
        requires
            old(self).wf(),
        ensures
            final(self).wf(),
            final(self).verified() == old(self).verified() + old(self).filled(),
            final(self).left() == old(self).left() - old(self).filled(),
            r.0 == (final(self).left() == 0 || old(self).device_ended()),
            final(self).filled() == 0,
            final(self).chunk() == old(self).chunk(),
            final(self).wanted() == min_of(old(self).chunk(), final(self).left()),
            r.1 == (old(self).since_log() + old(self).filled() >= LOGTHRES),
            final(self).since_log() == if r.1 {
                old(self).since_log() + old(self).filled() - LOGTHRES
            } else {
                old(self).since_log() + old(self).filled()
            },
            final(self).device_ended() == old(self).device_ended(),
    {
        let log = self.progress.account(self.read_count as u64);
        self.read_count = 0;
        self.read_len = self.progress.next_len(self.chunk_size);
        (self.progress.is_done() || self.at_end, log)
    }

    /// Bytes verified so far.
    pub fn bytes_verified(&self) -> (r: u64)
        ensures
            r == self.verified(),
    {
        self.progress.bytes_done()
    }
}

} // verus!
