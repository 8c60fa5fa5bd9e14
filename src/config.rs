//! The checks on a rendering's size, made once before any pixel is
//! computed.
use vstd::prelude::*;

verus! {

/// Why a picture size is refused.
#[derive(Clone, Copy, Debug, PartialEq, Eq, Structural)]
pub enum SizeError {
    /// The width or the height is zero.
    Empty,
    /// The iteration cap is zero.
    NoIterations,
    /// A side does not fit in 32 bits, or the channel bytes do not fit in
    /// memory.
    TooLarge,
}

/// A picture size and iteration cap that rendering accepts.
pub open spec fn size_ok(width: usize, height: usize, max_iterations: usize) -> bool {
    &&& width > 0
    &&& height > 0
    &&& max_iterations > 0
    &&& width <= u32::MAX
    &&& height <= u32::MAX
    &&& 4 * width * height <= usize::MAX
}

/// Checks a picture size and iteration cap, and gives the sides as 32-bit
/// numbers. An empty picture is refused first, then a zero cap, then a
/// size too large to hold.
pub fn check_size(width: usize, height: usize, max_iterations: usize) -> (r: Result<(u32, u32), SizeError>)
    ensures
        r is Ok <==> size_ok(width, height, max_iterations),
        r matches Ok(sides) ==> sides.0 == width && sides.1 == height,
        r == Err::<(u32, u32), SizeError>(SizeError::Empty) <==> (width == 0 || height == 0),
        r == Err::<(u32, u32), SizeError>(SizeError::NoIterations) <==> (width > 0 && height > 0 && max_iterations == 0),
        r == Err::<(u32, u32), SizeError>(SizeError::TooLarge) <==> (width > 0 && height > 0 && max_iterations > 0
            && !size_ok(width, height, max_iterations)),
{
    if width == 0 || height == 0 {
        return Err(SizeError::Empty);
    }
    if max_iterations == 0 {
        return Err(SizeError::NoIterations);
    }
    if width > u32::MAX as usize || height > u32::MAX as usize {
        return Err(SizeError::TooLarge);
    }
    let quarter = usize::MAX / 4;
    if width > quarter / height {
        proof {
            assert(4 * width * height > usize::MAX) by (nonlinear_arith)
                requires
                    width > quarter / height,
                    height > 0,
                    quarter == usize::MAX / 4,
            ;
        }
        return Err(SizeError::TooLarge);
    }
    proof {
        assert(4 * width * height <= usize::MAX) by (nonlinear_arith)
            requires
                width <= quarter / height,
                height > 0,
                quarter == usize::MAX / 4,
        ;
    }
    Ok((width as u32, height as u32))
}

} // verus!
