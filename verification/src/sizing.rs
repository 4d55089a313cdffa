//! The resize policy: how large an image becomes when it is fitted into a
//! bounding box.
//!
//! The policy scales every image, small or large, to the largest size of the
//! same shape that the box can hold. Images smaller than the box are
//! therefore enlarged.

use vstd::prelude::*;

verus! {

/// Widest image the pipeline produces, in pixels.
pub const MAX_WIDTH: u32 = 400;

/// Tallest image the pipeline produces, in pixels.
pub const MAX_HEIGHT: u32 = 400;

/// `n`, or 1 where `n` is smaller.
pub open spec fn at_least_one(n: int) -> int {
    if n < 1 {
        1
    } else {
        n
    }
}

/// Whether the width of the box is the tighter bound for the shape
/// `width` by `height`.
pub open spec fn width_bound(width: int, height: int, max_width: int, max_height: int) -> bool {
    max_width * height <= width * max_height
}

/// The largest size of the shape `width` by `height` that fits into
/// `max_width` by `max_height`: the tighter bound is met exactly, the other
/// side is scaled in proportion, rounded down, and never below one pixel.
pub open spec fn fitted_size(width: int, height: int, max_width: int, max_height: int) -> (
    int,
    int,
) {
    if width_bound(width, height, max_width, max_height) {
        (max_width, at_least_one(height * max_width / width))
    } else {
        (at_least_one(width * max_height / height), max_height)
    }
}

/// A fitted size lies inside the box, has at least one pixel each way, and
/// touches the box on one side.
pub proof fn lemma_fitted_size_in_box(width: int, height: int, max_width: int, max_height: int)
    requires
        width >= 1,
        height >= 1,
        max_width >= 1,
        max_height >= 1,
    ensures
        1 <= fitted_size(width, height, max_width, max_height).0 <= max_width,
        1 <= fitted_size(width, height, max_width, max_height).1 <= max_height,
        fitted_size(width, height, max_width, max_height).0 == max_width || fitted_size(
            width,
            height,
            max_width,
            max_height,
        ).1 == max_height,
{
    if width_bound(width, height, max_width, max_height) {
        assert(height * max_width / width <= max_height) by (nonlinear_arith)
            requires
                width >= 1,
                max_width * height <= width * max_height,
        ;
    } else {
        assert(width * max_height / height <= max_width) by (nonlinear_arith)
            requires
                height >= 1,
                max_width * height > width * max_height,
        ;
    }
}

/// A fitted size keeps the shape up to rounding: the scaled side is within
/// one pixel of the exact proportion. Stated without division, the cross
/// products of the fitted and the given size differ by less than the given
/// width where the width of the box binds, and by less than the given
/// height otherwise.
pub proof fn lemma_fitted_size_keeps_shape(
    width: int,
    height: int,
    max_width: int,
    max_height: int,
)
    requires
        width >= 1,
        height >= 1,
        max_width >= 1,
        max_height >= 1,
    ensures
        ({
            let fitted = fitted_size(width, height, max_width, max_height);
            let skew = fitted.0 * height - fitted.1 * width;
            let slack = if width_bound(width, height, max_width, max_height) {
                width
            } else {
                height
            };
            -slack < skew < slack
        }),
{
    let fitted = fitted_size(width, height, max_width, max_height);
    if width_bound(width, height, max_width, max_height) {
        let area = height * max_width;
        let scaled = area / width;
        assert(scaled * width <= area < scaled * width + width && scaled >= 0)
            by (nonlinear_arith)
            requires
                width >= 1,
                area >= 0,
                scaled == area / width,
        ;
        assert(area >= 1 && fitted.0 * height == area) by (nonlinear_arith)
            requires
                height >= 1,
                max_width >= 1,
                area == height * max_width,
                fitted.0 == max_width,
        ;
        if scaled < 1 {
            assert(scaled * width == 0) by (nonlinear_arith)
                requires
                    scaled == 0,
            ;
        }
    } else {
        let area = width * max_height;
        let scaled = area / height;
        assert(scaled * height <= area < scaled * height + height && scaled >= 0)
            by (nonlinear_arith)
            requires
                height >= 1,
                area >= 0,
                scaled == area / height,
        ;
        assert(area >= 1 && fitted.1 * width == area) by (nonlinear_arith)
            requires
                width >= 1,
                max_height >= 1,
                area == width * max_height,
                fitted.1 == max_height,
        ;
        if scaled < 1 {
            assert(scaled * height == 0) by (nonlinear_arith)
                requires
                    scaled == 0,
            ;
        } else {
            assert(fitted.0 * height == scaled * height);
        }
    }
}

} // verus!
