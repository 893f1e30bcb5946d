use vstd::prelude::*;

verus! {

/// Failure to open bytes as an image.
#[derive(Clone, Copy, Debug, PartialEq, Eq, Structural)]
pub enum LoadError {
    /// The bytes are not a decodable image.
    Undecodable,
}

/// Failure to export the current image.
#[derive(Clone, Copy, Debug, PartialEq, Eq, Structural)]
pub enum SaveError {
    /// The image cannot be encoded (it has no pixels to write).
    Unencodable,
}

/// A requested edit that the transform library cannot perform. The document
/// and both history stacks are left exactly as they were.
#[derive(Clone, Copy, Debug, PartialEq, Eq, Structural)]
pub enum TransformError {
    /// A target or source dimension is zero, or the result would not fit in
    /// memory.
    InvalidDimensions,
    /// A fractional parameter is outside the range the transform accepts.
    InvalidParameter,
}

} // verus!
