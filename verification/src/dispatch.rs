//! The command dispatcher's decision logic: which operation was selected,
//! whether it needs an input image, and the usage check that must pass
//! before any I/O is attempted.

use vstd::prelude::*;

verus! {

/// A fixed rotation angle, in degrees clockwise.
#[derive(Clone, Copy, PartialEq, Eq, Structural, Debug)]
pub enum RotateDegrees {
    R90,
    R180,
    R270,
}

/// One operation per invocation. `Blur`'s strength is a floating-point
/// radius that only the image codec consumes, so it travels beside the
/// operation rather than inside it; every argument the dispatcher or the
/// pixel logic reads is here.
#[derive(Clone, Copy, PartialEq, Eq, Structural, Debug)]
pub enum Operation {
    Blur,
    Brighten { val: i32 },
    Crop { x: u32, y: u32, width: u32, height: u32 },
    Rotate { degrees: RotateDegrees },
    Generate { r: u8, g: u8, b: u8 },
    Invert,
    Grayscale,
    Fractal,
}

/// The usage errors the dispatcher can detect before any I/O.
#[derive(Clone, Copy, PartialEq, Eq, Structural, Debug)]
pub enum UsageError {
    MissingInputFile,
}

/// Whether an operation transforms an existing image, and so needs an input
/// path. `Generate` and `Fractal` synthesize an image from nothing.
pub open spec fn requires_input(op: Operation) -> bool {
    !(op is Generate || op is Fractal)
}

/// Executable mirror of [`requires_input`].
pub fn input_required(op: &Operation) -> (b: bool)
    ensures
        b == requires_input(*op),
{
    match op {
        Operation::Generate { .. } => false,
        Operation::Fractal => false,
        _ => true,
    }
}

/// The dispatcher's precondition check: an operation that transforms an
/// existing image is rejected when no input path was supplied, before any
/// I/O happens; the generative operations never need one.
pub fn validate_invocation(op: &Operation, has_infile: bool) -> (r: Result<(), UsageError>)
    ensures
        r == (if has_infile || !requires_input(*op) {
            Ok::<(), UsageError>(())
        } else {
            Err(UsageError::MissingInputFile)
        }),
{
    if has_infile || !input_required(op) {
        Ok(())
    } else {
        Err(UsageError::MissingInputFile)
    }
}

} // verus!
