use std::collections::HashMap;
use std::sync::mpsc::{Receiver, Sender};
use vstd::prelude::*;

verus! {

broadcast use vstd::std_specs::hash::group_hash_axioms;

#[verifier::external_type_specification]
#[verifier::external_body]
#[verifier::reject_recursive_types(T)]
pub struct ExSender<T>(Sender<T>);

#[verifier::external_type_specification]
#[verifier::external_body]
#[verifier::reject_recursive_types(T)]
pub struct ExReceiver<T>(Receiver<T>);

/// Relies on std::sync::mpsc::channel: a fresh, connected sender and receiver.
pub assume_specification<T>[ std::sync::mpsc::channel::<T> ]() -> (Sender<T>, Receiver<T>);

/// Relies on Sender::send: the buffer goes to the receiving side; `false`
/// when that side has been dropped. Whether it is still there is up to
/// another thread, so nothing is promised of the result.
#[verifier::external_body]
fn send_buf(snd: &Sender<Vec<u8>>, buf: Vec<u8>) -> bool {
    snd.send(buf).is_ok()
}

/// Relies on Receiver::try_recv: a buffer sent earlier, if one is waiting.
/// What waits depends on other threads, so nothing is promised of the result.
#[verifier::external_body]
fn try_recv_buf(rcv: &Receiver<Vec<u8>>) -> Option<Vec<u8>> {
    rcv.try_recv().ok()
}

/// The buffer that a consumer hands out for a request of `len` bytes, given
/// the recycled buffer it found, if any: the recycled bytes cut or
/// zero-padded to `len`, or `len` zeros.
pub open spec fn fitted(recycled: Option<Seq<u8>>, len: nat) -> Seq<u8> {
    match recycled {
        Some(b) => if b.len() >= len {
            b.take(len as int)
        } else {
            b + Seq::new((len - b.len()) as nat, |i: int| 0u8)
        },
        None => Seq::new(len, |i: int| 0u8),
    }
}

/// The bytes of an optional buffer.
pub open spec fn bytes_of(b: Option<Vec<u8>>) -> Option<Seq<u8>> {
    match b {
        Some(v) => Some(v@),
        None => None,
    }
}

/// Brings a buffer to exactly `len` bytes: a recycled buffer is cut or
/// zero-padded, and without one a zeroed buffer is allocated.
pub fn fit_buffer(recycled: Option<Vec<u8>>, len: usize) -> (r: Vec<u8>)
    ensures
        r@ == fitted(bytes_of(recycled), len as nat),
{
    let mut buf = match recycled {
        Some(b) => b,
        None => Vec::with_capacity(len),
    };
    let ghost start = buf@;
    if buf.len() > len {
        buf.truncate(len);
    }
    let ghost kept = buf@;
    while buf.len() < len
        invariant
            kept.len() <= buf@.len() <= len,
            buf@.take(kept.len() as int) == kept,
            forall|i: int| kept.len() <= i < buf@.len() ==> buf@[i] == 0u8,
        decreases len - buf.len(),
    {
        buf.push(0u8);
    }
    assert(buf@ =~= fitted(bytes_of(recycled), len as nat));
    buf
}

/// Recycling slots for chunk buffers, one per consumer id. A slot holds the
/// sending end of that consumer's channel, or nothing once the consumer has
/// been found gone.
pub struct BufCache {
    snd: HashMap<u32, Option<Sender<Vec<u8>>>>,
    handed: Ghost<Map<u32, Seq<Seq<u8>>>>,
}

impl BufCache {
    /// The ids that have a slot.
    pub closed spec fn consumers(&self) -> Set<u32> {
        self.snd@.dom()
    }

    /// Whether the consumer of slot `id` has been found gone.
    pub closed spec fn is_closed(&self, id: u32) -> bool {
        self.snd@.contains_key(id) && self.snd@[id] is None
    }

    /// The buffers handed to the channel of slot `id`, oldest first.
    pub closed spec fn handed_over(&self, id: u32) -> Seq<Seq<u8>> {
        self.handed@[id]
    }

    /// An empty cache without slots.
    pub fn new() -> (r: BufCache)
        ensures
            r.consumers() == Set::<u32>::empty(),
    {
        BufCache { snd: HashMap::new(), handed: Ghost(Map::empty()) }
    }

    /// Opens the recycling slot of consumer `cons_id` and returns the
    /// handle from which that consumer takes its buffers.
    pub fn new_consumer(&mut self, cons_id: u32) -> (r: BufCacheCons)
        requires
            !old(self).consumers().contains(cons_id),
        ensures
            final(self).consumers() == old(self).consumers().insert(cons_id),
            !final(self).is_closed(cons_id),
            final(self).handed_over(cons_id) == Seq::<Seq<u8>>::empty(),
            forall|id: u32| id != cons_id ==> final(self).is_closed(id) == old(self).is_closed(id),
            forall|id: u32| id != cons_id ==> final(self).handed_over(id) == old(self).handed_over(id),
    {
        let (snd, rcv) = std::sync::mpsc::channel();
        self.snd.insert(cons_id, Some(snd));
        self.handed = Ghost(self.handed@.insert(cons_id, Seq::empty()));
        BufCacheCons { rcv }
    }

    /// Takes account of a release to slot `cons_id`: `sent` tells whether
    /// its consumer took the buffer. A failed hand-over closes the slot;
    /// the result is `true` where that closes it now, so that a warning is
    /// given once per slot.
    pub fn record_send(&mut self, cons_id: u32, sent: bool) -> (warn: bool)
        requires
            old(self).consumers().contains(cons_id),
        ensures
            final(self).consumers() == old(self).consumers(),
            warn == (!sent && !old(self).is_closed(cons_id)),
            final(self).is_closed(cons_id) == (old(self).is_closed(cons_id) || !sent),
            forall|id: u32| id != cons_id ==> final(self).is_closed(id) == old(self).is_closed(id),
            forall|id: u32| final(self).handed_over(id) == old(self).handed_over(id),
    {
        let open = match self.snd.get(&cons_id) {
            Some(Some(_)) => true,
            _ => false,
        };
        if !sent && open {
            self.snd.insert(cons_id, None);
            true
        } else {
            false
        }
    }

    /// Returns `buf` to the slot of consumer `cons_id`. The buffer is handed
    /// to that consumer's channel, unless the consumer is gone: then it is
    /// dropped and the slot closed. The result is `true` on the first such
    /// release to a slot only, so that a warning is given once per slot.
    pub fn push(&mut self, cons_id: u32, buf: Vec<u8>) -> (warn: bool)
        requires
            old(self).consumers().contains(cons_id),
        ensures
            final(self).consumers() == old(self).consumers(),
            released(*old(self), *final(self), cons_id, buf@, warn),
    {
        let ghost bytes = buf@;
        let sent = match self.snd.get(&cons_id) {
            Some(Some(s)) => send_buf(s, buf),
            _ => false,
        };
        if sent {
            self.handed = Ghost(self.handed@.insert(cons_id, self.handed@[cons_id].push(bytes)));
        }
        self.record_send(cons_id, sent)
    }
}

/// What a release of `buf` to slot `id` does, from `old` to `new`: a
/// closed slot drops it silently; an open one hands it to its consumer, or,
/// with that consumer gone, drops it, closes the slot and asks for a
/// warning. Other slots stay as they are.
pub open spec fn released(old: BufCache, new: BufCache, id: u32, buf: Seq<u8>, warn: bool) -> bool {
    &&& new.consumers() == old.consumers()
    &&& old.is_closed(id) ==> {
        &&& !warn
        &&& new.is_closed(id)
        &&& new.handed_over(id) == old.handed_over(id)
    }
    &&& !old.is_closed(id) ==> {
        ||| {
            &&& !warn
            &&& !new.is_closed(id)
            &&& new.handed_over(id) == old.handed_over(id).push(buf)
        }
        ||| {
            &&& warn
            &&& new.is_closed(id)
            &&& new.handed_over(id) == old.handed_over(id)
        }
    }
    &&& forall|j: u32| j != id ==> new.is_closed(j) == old.is_closed(j)
    &&& forall|j: u32| j != id ==> new.handed_over(j) == old.handed_over(j)
}

/// The receiving end of one consumer's recycling slot.
pub struct BufCacheCons {
    rcv: Receiver<Vec<u8>>,
}

impl BufCacheCons {
    /// A buffer of exactly `buf_len` bytes: a recycled one, cut or
    /// zero-padded, where one is waiting, else a freshly zeroed one.
    pub fn pull(&mut self, buf_len: usize) -> (r: Vec<u8>)
        ensures
            r@.len() == buf_len,
    {
        let recycled = try_recv_buf(&self.rcv);
        let r = fit_buffer(recycled, buf_len);
        r
    }
}

} // verus!
