//! The layout of a shared-memory pool that holds two frames of 32-bit
//! pixels, rounded up to whole large pages.
use vstd::prelude::*;

verus! {

/// Bytes in one pixel.
pub const PIXELSIZE: i32 = 4;

/// Frames in one pool.
pub const BUFFER_COUNT: i32 = 2;

/// Bytes in one large page.
pub const LARGE_PAGE: i32 = 2_097_152;

/// Where the two frames of a pool lie and how much memory the pool takes.
#[derive(Debug, Clone, Copy, PartialEq, Eq, Structural)]
pub struct PoolLayout {
    /// Width of a frame in pixels.
    pub width: i32,
    /// Height of a frame in pixels.
    pub height: i32,
    /// Bytes in one row of a frame.
    pub stride: i32,
    /// Offset of the first frame.
    pub buffer1_offset: i32,
    /// Offset of the second frame.
    pub buffer2_offset: i32,
    /// Size of the pool in bytes: both frames, rounded up to whole large
    /// pages.
    pub size: i32,
}

/// `x / y` rounded up, for a dividend that is not negative and a positive
/// divisor.
pub open spec fn spec_div_ceil(x: int, y: int) -> int {
    (x + y - 1) / y
}

/// The quotient of `a` by `b` rounded towards zero.
pub open spec fn spec_quotient(a: int, b: int) -> int {
    if a >= 0 {
        if b > 0 {
            a / b
        } else {
            -(a / (-b))
        }
    } else {
        if b > 0 {
            -((-a) / b)
        } else {
            (-a) / (-b)
        }
    }
}

/// `(x + y - 1) / y` with the quotient rounded towards zero; for a dividend
/// that is not negative and a positive divisor that is `x / y` rounded up.
/// The divisor must not be 0, and the sum and the quotient have to be
/// numbers an `i32` holds.
pub fn div_ceil(x: i32, y: i32) -> (q: i32)
    requires
        y != 0,
        i32::MIN <= x + y - 1 <= i32::MAX,
        !(x + y - 1 == i32::MIN && y == -1),
    ensures
        q == spec_quotient(x + y - 1, y as int),
        0 <= x && 0 < y ==> q == spec_div_ceil(x as int, y as int) && q * y >= x && (q - 1) * y < x,
{
    proof {
        if 0 <= x && 0 < y {
            lemma_div_ceil(x as int, y as int);
        }
    }
    let a: i64 = x as i64 + y as i64 - 1;
    let b: i64 = y as i64;
    let q: i64 = if a >= 0 {
        if b > 0 {
            a / b
        } else {
            -(a / (-b))
        }
    } else {
        if b > 0 {
            -((-a) / b)
        } else {
            (-a) / (-b)
        }
    };
    proof {
        lemma_quotient_bound(a as int, b as int);
    }
    q as i32
}

/// The quotient is no larger in size than the dividend.
proof fn lemma_quotient_bound(a: int, b: int)
    requires
        b != 0,
    ensures
        a >= 0 ==> -a <= spec_quotient(a, b) <= a,
        a < 0 ==> a <= spec_quotient(a, b) <= -a,
        a < 0 && b != -1 ==> spec_quotient(a, b) < -a,
{
    let n = if a >= 0 { a } else { -a };
    let d = if b > 0 { b } else { -b };
    vstd::arithmetic::div_mod::lemma_fundamental_div_mod(n, d);
    vstd::arithmetic::div_mod::lemma_mod_bound(n, d);
    vstd::arithmetic::div_mod::lemma_div_pos_is_pos(n, d);
    let q = n / d;
    assert(d * q <= n);
    if q > n {
        assert(d * q >= q) by (nonlinear_arith)
            requires
                d >= 1,
                q >= 0,
        ;
    }
    if d >= 2 && n > 0 && q >= n {
        assert(d * q >= 2 * q) by (nonlinear_arith)
            requires
                d >= 2,
                q >= 0,
        ;
    }
}

/// The quotient rounded up is the least whose multiple reaches the
/// dividend.
pub proof fn lemma_div_ceil(x: int, y: int)
    requires
        0 <= x,
        0 < y,
    ensures
        spec_div_ceil(x, y) >= 0,
        spec_div_ceil(x, y) * y >= x,
        (spec_div_ceil(x, y) - 1) * y < x,
{
    let q = spec_div_ceil(x, y);
    vstd::arithmetic::div_mod::lemma_fundamental_div_mod(x + y - 1, y);
    vstd::arithmetic::div_mod::lemma_mod_bound(x + y - 1, y);
    assert(q * y == y * q && (q - 1) * y == y * q - y) by (nonlinear_arith);
    if q < 0 {
    }
}

impl PoolLayout {
    /// The layout for frames of `width` by `height` pixels, if there is
    /// one: neither may be negative, and the length of a row and the size
    /// of the pool have to be numbers an `i32` holds.
    pub open spec fn spec_new(width: i32, height: i32) -> Option<PoolLayout> {
        let stride = width * PIXELSIZE;
        let len = height * stride * BUFFER_COUNT;
        let size = LARGE_PAGE * spec_div_ceil(len, LARGE_PAGE as int);
        if width < 0 || height < 0 || stride > i32::MAX || size > i32::MAX {
            None
        } else {
            Some(
                PoolLayout {
                    width,
                    height,
                    stride: stride as i32,
                    buffer1_offset: 0,
                    buffer2_offset: (height * stride) as i32,
                    size: size as i32,
                },
            )
        }
    }

    /// Computes the layout of a pool for frames of `width` by `height`
    /// pixels.
    pub fn new(width: i32, height: i32) -> (r: Option<PoolLayout>)
        ensures
            r == Self::spec_new(width, height),
    {
        if width < 0 || height < 0 || width > i32::MAX / 4 {
            return None;
        }
        // Widened to 64 bits, the products below cannot overflow.
        let stride: i64 = width as i64 * 4;
        assert(0 <= height * stride <= 0x4000_0000_0000_0000) by (nonlinear_arith)
            requires
                0 <= height <= 0x7fff_ffff,
                0 <= stride <= 0x7fff_ffff,
        ;
        let frame: i64 = height as i64 * stride;
        proof {
            lemma_div_ceil(frame * 2, LARGE_PAGE as int);
        }
        if frame > 0x4000_0000 {
            return None;
        }
        let len: i64 = frame * 2;
        let pages: i64 = (len + 2_097_151) / 2_097_152;
        if pages > 1023 {
            return None;
        }
        let size: i64 = 2_097_152 * pages;
        Some(
            PoolLayout {
                width,
                height,
                stride: stride as i32,
                buffer1_offset: 0,
                buffer2_offset: frame as i32,
                size: size as i32,
            },
        )
    }
}

} // verus!
