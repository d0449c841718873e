use crate::element::SpeechElement;
use crate::queue::{queue_len, queue_new, queue_pop, queue_push, queued};
use crate::state::SynthState;
use crossbeam_queue::SegQueue;
use vstd::prelude::*;

verus! {

/// The elements that one dispatch takes from the head of `q`: the run of
/// bookmarks there, and the element after it if there is one.
pub open spec fn dispatch_len(q: Seq<SpeechElement>) -> nat
    decreases q.len(),
{
    if q.len() == 0 {
        0
    } else if q[0] is Bookmark {
        1 + dispatch_len(q.drop_first())
    } else {
        1
    }
}

/// A pass takes at least one element from a queue that is not empty, and
/// never more than the queue holds.
pub proof fn lemma_dispatch_len_bounds(q: Seq<SpeechElement>)
    ensures
        dispatch_len(q) <= q.len(),
        q.len() > 0 ==> dispatch_len(q) >= 1,
    decreases q.len(),
{
    if q.len() > 0 && q[0] is Bookmark {
        lemma_dispatch_len_bounds(q.drop_first());
    }
}

/// The bookmark labels in `labels`, followed by the element to play, if any,
/// as the sequence of elements they came from.
pub open spec fn consumed_elements(labels: Seq<String>, element: Option<SpeechElement>) -> Seq<SpeechElement> {
    labels.map_values(|b: String| SpeechElement::Bookmark(b)) + match element {
        Some(e) => seq![e],
        None => Seq::<SpeechElement>::empty(),
    }
}

/// What one pass of the dispatcher did: the bookmarks it reached, in order,
/// and the element it handed to playback.
///
/// An `element` of `None` means that the queue ran dry: the timeline is
/// finished and the event sink is told that the synthesizer is ready.
/// A bookmark is never the element to play.
#[derive(Debug, Clone, PartialEq, Eq)]
pub struct Dispatch {
    pub bookmarks: Vec<String>,
    pub element: Option<SpeechElement>,
}

impl Dispatch {
    /// The elements of the queue that this pass consumed, in order.
    pub open spec fn consumed(&self) -> Seq<SpeechElement> {
        consumed_elements(self.bookmarks@, self.element)
    }

    pub open spec fn plays_no_bookmark(&self) -> bool {
        match self.element {
            Some(e) => !(e is Bookmark),
            None => true,
        }
    }

    /// Whether this pass is the outcome of dispatching from `q`.
    pub open spec fn dispatched_from(&self, q: Seq<SpeechElement>) -> bool {
        &&& self.plays_no_bookmark()
        &&& self.consumed() == q.take(dispatch_len(q) as int)
    }

    /// Whether the pass found nothing left to play.
    pub fn is_drained(&self) -> (r: bool)
        ensures
            r == (self.element is None),
    {
        self.element.is_none()
    }
}

/// The queue of pending speech elements and the dispatcher that drains it.
///
/// Each pass of the dispatcher takes elements from the head of the queue:
/// bookmarks are reported at once and the pass goes on, until it reaches an
/// element with audio, which the caller then plays. The next pass comes from
/// the player's completion (or failure) of that element. The mixer is driven
/// through `&mut self`, so passes never overlap: a caller that shares it
/// between threads holds it behind a lock, which serializes the dispatcher.
pub struct SpeechMixer {
    speech_queue: SegQueue<SpeechElement>,
}

impl SpeechMixer {
    /// The pending elements, from the next one to the last one.
    pub closed spec fn view(&self) -> Seq<SpeechElement> {
        queued(self.speech_queue)
    }

    pub fn new() -> (r: Self)
        ensures
            r@ == Seq::<SpeechElement>::empty(),
    {
        SpeechMixer { speech_queue: queue_new() }
    }

    /// The number of pending elements.
    pub fn len(&self) -> (r: usize)
        ensures
            r == self@.len(),
    {
        queue_len(&self.speech_queue)
    }

    pub fn is_empty(&self) -> (r: bool)
        ensures
            r == (self@.len() == 0),
    {
        queue_len(&self.speech_queue) == 0
    }

    /// One pass of the dispatcher: takes the leading bookmarks and the
    /// element after them from the queue.
    pub fn process_queue(&mut self) -> (r: Dispatch)
        ensures
            r.dispatched_from(old(self)@),
            final(self)@ == old(self)@.skip(dispatch_len(old(self)@) as int),
    {
        let ghost q0 = self@;
        let mut bookmarks: Vec<String> = Vec::new();
        loop
            invariant
                q0 == old(self)@,
                consumed_elements(bookmarks@, None) + self@ == q0,
                dispatch_len(q0) == bookmarks@.len() + dispatch_len(self@),
            decreases self@.len(),
        {
            let ghost before = self@;
            match queue_pop(&mut self.speech_queue) {
                None => {
                    proof {
                        assert(dispatch_len(self@) == 0);
                        assert(consumed_elements(bookmarks@, None) =~= q0);
                        assert(q0.take(dispatch_len(q0) as int) =~= q0);
                        assert(q0.skip(dispatch_len(q0) as int) =~= self@);
                    }
                    return Dispatch { bookmarks, element: None };
                },
                Some(SpeechElement::Bookmark(b)) => {
                    proof {
                        let mark = SpeechElement::Bookmark(b);
                        let head = consumed_elements(bookmarks@, None);
                        assert(before =~= seq![mark] + self@);
                        assert(consumed_elements(bookmarks@.push(b), None) =~= head.push(mark));
                    }
                    bookmarks.push(b);
                    assert(consumed_elements(bookmarks@, None) + self@ =~= q0);
                },
                Some(e) => {
                    let ghost n: int = bookmarks@.len() as int;
                    proof {
                        assert(before =~= seq![e] + self@);
                        assert(before[0] == e);
                        assert(dispatch_len(before) == 1);
                        let head = consumed_elements(bookmarks@, None);
                        assert(head.len() == n);
                        assert(consumed_elements(bookmarks@, Some(e)) =~= head + seq![e]);
                        assert(q0.take(n + 1) =~= consumed_elements(bookmarks@, Some(e)));
                        assert(q0.skip(n + 1) =~= self@);
                    }
                    return Dispatch { bookmarks, element: Some(e) };
                },
            }
        }
    }

    /// Processes `element` as if it stood at the head of the queue: a
    /// bookmark is reported and the pass goes on into the queue; any other
    /// element is handed to playback at once.
    pub fn process_speech_element(&mut self, element: SpeechElement) -> (r: Dispatch)
        ensures
            r.dispatched_from(seq![element] + old(self)@),
            final(self)@ == (seq![element] + old(self)@).skip(
                dispatch_len(seq![element] + old(self)@) as int,
            ),
    {
        let ghost q = seq![element] + self@;
        proof {
            assert(q.drop_first() =~= self@);
        }
        match element {
            SpeechElement::Bookmark(b) => {
                let ghost k = dispatch_len(self@) as int;
                let ghost rest = self@;
                let d = self.process_queue();
                proof {
                    lemma_dispatch_len_bounds(rest);
                }
                let mut bookmarks: Vec<String> = Vec::new();
                bookmarks.push(b);
                let mut later = d.bookmarks;
                bookmarks.append(&mut later);
                proof {
                    let mark = SpeechElement::Bookmark(b);
                    assert(bookmarks@ =~= seq![b] + d.bookmarks@);
                    assert(consumed_elements(bookmarks@, d.element) =~= seq![mark] + d.consumed());
                    assert(q.take(1 + k) =~= seq![mark] + rest.take(k));
                    assert(q.skip(1 + k) =~= rest.skip(k));
                }
                Dispatch { bookmarks, element: d.element }
            },
            e => {
                proof {
                    assert(q.take(1) =~= seq![e]);
                    assert(consumed_elements(Seq::<String>::empty(), Some(e)) =~= seq![e]);
                    assert(q.skip(1) =~= self@);
                }
                Dispatch { bookmarks: Vec::new(), element: Some(e) }
            },
        }
    }

    /// Appends `utterance` to the queue, in order, and starts a pass of the
    /// dispatcher if the synthesizer is `state == Ready` and there is
    /// something to play. Otherwise the elements only wait in the queue:
    /// the next pass comes from the player's next completion.
    pub fn speak(&mut self, utterance: Vec<SpeechElement>, state: SynthState) -> (r: Option<Dispatch>)
        ensures
            ({
                let q = old(self)@ + utterance@;
                if state == SynthState::Ready && q.len() > 0 {
                    &&& r matches Some(d) && d.dispatched_from(q)
                    &&& final(self)@ == q.skip(dispatch_len(q) as int)
                } else {
                    &&& r is None
                    &&& final(self)@ == q
                }
            }),
    {
        let ghost q0 = self@;
        let ghost items = utterance@;
        for e in it: utterance.into_iter()
            invariant
                it.seq() == items,
                self@ == q0 + items.take(it.index() as int),
        {
            queue_push(&mut self.speech_queue, e);
            proof {
                assert(q0 + items.take(it.index() + 1) =~= (q0 + items.take(it.index() as int)).push(e));
            }
        }
        proof {
            assert(self@ =~= q0 + items);
        }
        if state == SynthState::Ready {
            match queue_pop(&mut self.speech_queue) {
                Some(e) => {
                    proof {
                        assert(q0 + utterance@ =~= seq![e] + self@);
                    }
                    Some(self.process_speech_element(e))
                },
                None => None,
            }
        } else {
            None
        }
    }

    /// Discards every pending element and makes the closing pass, which
    /// finds the queue empty and reports the synthesizer ready.
    pub fn stop(&mut self) -> (r: Dispatch)
        ensures
            r.dispatched_from(Seq::<SpeechElement>::empty()),
            r.bookmarks@ == Seq::<String>::empty(),
            r.element is None,
            final(self)@ == Seq::<SpeechElement>::empty(),
    {
        loop
            invariant_except_break
                true,
            ensures
                self@ == Seq::<SpeechElement>::empty(),
            decreases self@.len(),
        {
            if queue_pop(&mut self.speech_queue).is_none() {
                break;
            }
        }
        let r = self.process_queue();
        proof {
            assert(r.consumed().len() == 0);
            assert(r.bookmarks@.len() == 0);
            assert(r.bookmarks@ =~= Seq::<String>::empty());
        }
        r
    }
}

/// What remains of the queue `q` after `n` successive passes of the
/// dispatcher, with nothing pushed in between.
pub open spec fn remaining_after(q: Seq<SpeechElement>, n: nat) -> Seq<SpeechElement>
    decreases n,
{
    if n == 0 {
        q
    } else {
        let r = remaining_after(q, (n - 1) as nat);
        r.skip(dispatch_len(r) as int)
    }
}

/// The elements that `n` successive passes of the dispatcher consume from
/// `q`, in the order in which they are reported or played.
pub open spec fn dispatched_in(q: Seq<SpeechElement>, n: nat) -> Seq<SpeechElement>
    decreases n,
{
    if n == 0 {
        Seq::empty()
    } else {
        let r = remaining_after(q, (n - 1) as nat);
        dispatched_in(q, (n - 1) as nat) + r.take(dispatch_len(r) as int)
    }
}

/// Successive passes consume the queue in order: after any number of passes,
/// what they consumed followed by what is left is the queue as it was; once
/// there have been as many passes as elements, every element has been
/// consumed, in push order.
pub proof fn lemma_dispatched_in_push_order(q: Seq<SpeechElement>, n: nat)
    ensures
        dispatched_in(q, n) + remaining_after(q, n) == q,
        remaining_after(q, n).len() == 0 || remaining_after(q, n).len() + n <= q.len(),
        n >= q.len() ==> dispatched_in(q, n) == q,
    decreases n,
{
    if n > 0 {
        lemma_dispatched_in_push_order(q, (n - 1) as nat);
        let r = remaining_after(q, (n - 1) as nat);
        lemma_dispatch_len_bounds(r);
        let k = dispatch_len(r) as int;
        assert(r.take(k) + r.skip(k) =~= r);
        assert(dispatched_in(q, n) + remaining_after(q, n) =~= dispatched_in(q, (n - 1) as nat) + (r.take(
            k,
        ) + r.skip(k)));
    }
    if n >= q.len() {
        assert(remaining_after(q, n).len() == 0);
        assert(dispatched_in(q, n) + remaining_after(q, n) =~= dispatched_in(q, n));
    }
}

/// Stopping twice in a row gives the same outcome both times: each closing
/// pass starts from an empty queue, consumes nothing, and reports the
/// synthesizer ready.
pub proof fn lemma_stop_idempotent(first: Dispatch, second: Dispatch)
    requires
        first.dispatched_from(Seq::<SpeechElement>::empty()),
        second.dispatched_from(Seq::<SpeechElement>::empty()),
    ensures
        first.bookmarks@ == second.bookmarks@,
        first.bookmarks@ == Seq::<String>::empty(),
        first.element is None,
        second.element is None,
{
    assert(first.consumed().len() == 0);
    assert(second.consumed().len() == 0);
    assert(first.bookmarks@ =~= Seq::<String>::empty());
    assert(second.bookmarks@ =~= Seq::<String>::empty());
}

/// A bookmark followed by an element with audio is consumed in a single
/// pass: the bookmark is reported, and the element after it is handed to
/// playback with no wait for a completion in between.
pub proof fn lemma_bookmark_falls_through(q: Seq<SpeechElement>, d: Dispatch)
    requires
        q.len() >= 2,
        q[0] is Bookmark,
        !(q[1] is Bookmark),
        d.dispatched_from(q),
    ensures
        dispatch_len(q) == 2,
        d.bookmarks@ == seq![q[0]->Bookmark_0],
        d.element == Some(q[1]),
{
    assert(q.drop_first()[0] == q[1]);
    assert(dispatch_len(q.drop_first()) == 1);
    assert(dispatch_len(q) == 2);
    let c = d.consumed();
    assert(c == q.take(2));
    assert(c.len() == 2);
    if d.element is None {
        assert(c[1] == SpeechElement::Bookmark(d.bookmarks@[1]));
    }
    assert(d.bookmarks@.len() == 1);
    assert(c[0] == SpeechElement::Bookmark(d.bookmarks@[0]));
    assert(d.bookmarks@ =~= seq![q[0]->Bookmark_0]);
}

} // verus!
