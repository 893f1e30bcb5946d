use vstd::prelude::*;

verus! {

/// One requested edit or history-navigation action. Fractional parameters
/// (the blur sigma and the contrast factor) are carried as the bit pattern
/// of a 32-bit IEEE 754 value, so the descriptor itself is plain data.
#[derive(Clone, Copy, Debug, PartialEq, Eq, Structural)]
pub enum Operation {
    Resize { width: u32, height: u32 },
    HueRotate { degrees: i32 },
    Blur { sigma_bits: u32 },
    FlipHorizontal,
    FlipVertical,
    Grayscale,
    Brightness { delta: i32 },
    Contrast { factor_bits: u32 },
    Undo,
    Redo,
}

impl Operation {
    /// A meta operation navigates the history instead of editing the image.
    pub open spec fn is_meta(self) -> bool {
        self is Undo || self is Redo
    }
}

/// A single-slot holder for the next operation to apply. A new submission
/// overwrites whatever was waiting: there is no queue.
pub struct PendingSlot {
    op: Option<Operation>,
}

impl View for PendingSlot {
    type V = Option<Operation>;

    closed spec fn view(&self) -> Option<Operation> {
        self.op
    }
}

impl PendingSlot {
    pub fn empty() -> (r: PendingSlot)
        ensures
            r@ is None,
    {
        PendingSlot { op: None }
    }

    /// Overwrites any previously unconsumed operation with the new request.
    pub fn submit(&mut self, op: Operation)
        ensures
            final(self)@ == Some(op),
    {
        self.op = Some(op);
    }

    /// Removes and returns the held operation, leaving the slot empty.
    pub fn take(&mut self) -> (r: Option<Operation>)
        ensures
            r == old(self)@,
            final(self)@ is None,
    {
        self.op.take()
    }

    pub fn peek(&self) -> (r: Option<Operation>)
        ensures
            r == self@,
    {
        self.op
    }
}

} // verus!
