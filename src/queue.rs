use crate::element::SpeechElement;
use crossbeam_queue::SegQueue;
use vstd::prelude::*;

verus! {

#[verifier::external_type_specification]
#[verifier::external_body]
#[verifier::reject_recursive_types(T)]
pub struct ExSegQueue<T>(SegQueue<T>);

/// The elements a queue holds, from its head to its tail.
pub uninterp spec fn queued(q: SegQueue<SpeechElement>) -> Seq<SpeechElement>;

/// Relies on `SegQueue::new`: a new queue holds nothing.
#[verifier::external_body]
pub(crate) fn queue_new() -> (r: SegQueue<SpeechElement>)
    ensures
        queued(r) == Seq::<SpeechElement>::empty(),
{
    SegQueue::new()
}

/// Relies on `SegQueue::push_mut`: the element goes to the tail.
#[verifier::external_body]
pub(crate) fn queue_push(q: &mut SegQueue<SpeechElement>, e: SpeechElement)
    ensures
        queued(*final(q)) == queued(*old(q)).push(e),
{
    q.push_mut(e)
}

/// Relies on `SegQueue::pop_mut`: the head element is taken out, or
/// `None` comes back from an empty queue, which stays as it is.
#[verifier::external_body]
pub(crate) fn queue_pop(q: &mut SegQueue<SpeechElement>) -> (r: Option<SpeechElement>)
    ensures
        match r {
            Some(e) => {
                &&& queued(*old(q)).len() > 0
                &&& e == queued(*old(q))[0]
                &&& queued(*final(q)) == queued(*old(q)).drop_first()
            },
            None => {
                &&& queued(*old(q)).len() == 0
                &&& queued(*final(q)) == queued(*old(q))
            },
        },
{
    q.pop_mut()
}

/// Relies on `SegQueue::len`: the number of elements held. The queue is
/// reached only through its owner, so nothing changes it during the call.
#[verifier::external_body]
pub(crate) fn queue_len(q: &SegQueue<SpeechElement>) -> (r: usize)
    ensures
        r == queued(*q).len(),
{
    q.len()
}

} // verus!
