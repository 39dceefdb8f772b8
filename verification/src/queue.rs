//! The queue of pending tracks.

use crate::error::Empty;
use crate::track::{is_http_locator, TrackRequest};
use vstd::prelude::*;

verus! {

/// Whether every entry of a list of locators is an accepted one.
pub open spec fn all_locators(uris: Seq<Seq<char>>) -> bool {
    forall|i: int| 0 <= i < uris.len() ==> is_http_locator(#[trigger] uris[i])
}

/// The pending tracks, in the order in which they will play. A locator may
/// occur more than once.
#[derive(Debug)]
pub struct TrackQueue {
    items: Vec<TrackRequest>,
}

impl View for TrackQueue {
    type V = Seq<Seq<char>>;

    closed spec fn view(&self) -> Seq<Seq<char>> {
        Seq::new(self.items@.len(), |i: int| self.items@[i]@)
    }
}

impl TrackQueue {
    /// Holds of every queue: each entry is a request that passed validation.
    #[verifier::type_invariant]
    pub closed spec fn wf(self) -> bool {
        forall|i: int| 0 <= i < self.items@.len() ==> (#[trigger] self.items@[i]).wf()
    }

    /// Every entry of a queue is an accepted locator.
    pub proof fn lemma_entries_valid(self)
        requires
            self.wf(),
        ensures
            all_locators(self@),
    {
        assert forall|i: int| 0 <= i < self@.len() implies is_http_locator(#[trigger] self@[i]) by {
            self.items@[i].lemma_valid();
        }
    }

    /// Moves the entries out and leaves the queue empty, so that they can be
    /// changed and put back.
    fn take_items(&mut self) -> (items: Vec<TrackRequest>)
        ensures
            items == old(self).items,
            final(self).items@.len() == 0,
    {
        let mut items: Vec<TrackRequest> = Vec::new();
        core::mem::swap(&mut self.items, &mut items);
        items
    }

    /// The empty queue.
    pub fn new() -> (r: TrackQueue)
        ensures
            r@ == Seq::<Seq<char>>::empty(),
    {
        TrackQueue { items: Vec::new() }
    }

    /// The number of pending tracks.
    pub fn len(&self) -> (n: usize)
        ensures
            n == self@.len(),
    {
        self.items.len()
    }

    /// Whether no track is pending.
    pub fn is_empty(&self) -> (b: bool)
        ensures
            b == (self@.len() == 0),
    {
        self.items.len() == 0
    }

    /// Appends a request behind all pending ones.
    pub fn enqueue(&mut self, request: TrackRequest)
        ensures
            final(self)@ == old(self)@.push(request@),
    {
        proof {
            use_type_invariant(&*self);
            use_type_invariant(&request);
        }
        let mut items = self.take_items();
        items.push(request);
        self.items = items;
    }

    /// Removes the head of the queue and hands it out.
    pub fn advance(&mut self) -> (r: Result<TrackRequest, Empty>)
        ensures
            old(self)@.len() == 0 ==> r is Err && final(self)@ == old(self)@,
            old(self)@.len() > 0 ==> r is Ok && r->Ok_0@ == old(self)@[0] && final(self)@ == old(
                self,
            )@.drop_first(),
    {
        proof {
            use_type_invariant(&*self);
        }
        if self.items.len() == 0 {
            return Err(Empty);
        }
        let mut items = self.take_items();
        let head = items.remove(0);
        self.items = items;
        Ok(head)
    }

    /// Removes every pending track.
    pub fn clear(&mut self)
        ensures
            final(self)@ == Seq::<Seq<char>>::empty(),
    {
        self.items = Vec::new();
    }

    /// Puts a request in front of all pending ones.
    pub fn requeue_front(&mut self, request: TrackRequest)
        ensures
            final(self)@ == seq![request@] + old(self)@,
    {
        proof {
            use_type_invariant(&*self);
            use_type_invariant(&request);
        }
        let mut items = self.take_items();
        items.insert(0, request);
        self.items = items;
    }

    /// The locators of the pending tracks, in playing order.
    pub fn uris(&self) -> (r: Vec<String>)
        ensures
            r.deep_view() == self@,
    {
        let mut out: Vec<String> = Vec::new();
        let mut i: usize = 0;
        while i < self.items.len()
            invariant
                i <= self.items@.len(),
                out@.len() == i,
                forall|j: int| 0 <= j < i ==> (#[trigger] out@[j])@ == self.items@[j]@,
            decreases self.items@.len() - i,
        {
            let uri = self.items[i].as_str();
            out.push(uri.to_owned());
            i += 1;
        }
        out
    }
}

} // verus!
