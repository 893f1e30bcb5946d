use vstd::prelude::*;
use crate::image_data::{Image, ImageView};

verus! {

/// Upper bound on the snapshots a history stack keeps.
pub const CAPACITY: usize = 10;

/// What a bounded push leaves on a stack: the old entries, less the oldest
/// one when the stack is already full, with the new snapshot on top.
pub open spec fn spec_bounded_push(s: Seq<ImageView>, v: ImageView) -> Seq<ImageView> {
    if s.len() < CAPACITY {
        s.push(v)
    } else {
        s.subrange(1, s.len() as int).push(v)
    }
}

/// A bounded, ordered stack of image snapshots: oldest at index 0, most
/// recently pushed at the end. Pushing past capacity evicts the oldest.
pub struct HistoryStack {
    items: Vec<Image>,
}

impl View for HistoryStack {
    type V = Seq<ImageView>;

    closed spec fn view(&self) -> Seq<ImageView> {
        self.items@.map_values(|img: Image| img@)
    }
}

impl HistoryStack {
    /// The stack never outgrows its capacity.
    pub open spec fn wf(self) -> bool {
        self@.len() <= CAPACITY
    }

    pub fn new() -> (r: HistoryStack)
        ensures
            r@ == Seq::<ImageView>::empty(),
    {
        let r = HistoryStack { items: Vec::new() };
        proof {
            assert(r@ =~= Seq::<ImageView>::empty());
        }
        r
    }

    pub fn len(&self) -> (n: usize)
        ensures
            n == self@.len(),
    {
        self.items.len()
    }

    pub fn get(&self, i: usize) -> (r: &Image)
        requires
            i < self@.len(),
        ensures
            r@ == self@[i as int],
    {
        &self.items[i]
    }

    /// Appends a snapshot, evicting the oldest entry first when the stack
    /// is at capacity.
    pub fn push(&mut self, img: Image)
        requires
            old(self).wf(),
        ensures
            final(self)@ == spec_bounded_push(old(self)@, img@),
            final(self).wf(),
    {
        let ghost pre = self@;
        if self.items.len() >= CAPACITY {
            self.items.remove(0);
        }
        self.items.push(img);
        proof {
            assert(self@ =~= spec_bounded_push(pre, img@));
        }
    }

    /// Removes and returns the most recently pushed snapshot, if any.
    pub fn pop(&mut self) -> (r: Option<Image>)
        ensures
            match r {
                Some(img) => {
                    &&& old(self)@.len() > 0
                    &&& img@ == old(self)@.last()
                    &&& final(self)@ == old(self)@.drop_last()
                },
                None => {
                    &&& old(self)@.len() == 0
                    &&& final(self)@ == old(self)@
                },
            },
    {
        let ghost pre = self@;
        let r = self.items.pop();
        proof {
            if pre.len() > 0 {
                assert(self@ =~= pre.drop_last());
            } else {
                assert(self@ =~= pre);
            }
        }
        r
    }

    /// Discards every snapshot.
    pub fn clear(&mut self)
        ensures
            final(self)@ == Seq::<ImageView>::empty(),
    {
        self.items.clear();
        proof {
            assert(self@ =~= Seq::<ImageView>::empty());
        }
    }
}

} // verus!
