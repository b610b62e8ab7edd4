//! Aspect-preserving fit of a source image into a target box, and the plan
//! of engine calls that produces the scaled image.

use vstd::prelude::*;
use vstd::arithmetic::div_mod::{lemma_div_is_ordered, lemma_fundamental_div_mod_converse};
use crate::dimension::{fits_c_int, to_c_int};
use crate::error::{engine_result, reply_result, ImageError, ImageErrorKind};
use crate::image::Image;

verus! {

/// The distance between two naturals.
pub open spec fn gap(a: nat, b: nat) -> nat {
    if a >= b {
        (a - b) as nat
    } else {
        (b - a) as nat
    }
}

/// The horizontal ratio `scale_width / width` and the vertical ratio
/// `scale_height / height` differ by less than one hundredth. Stated with
/// the denominators cleared, so it is exact.
pub open spec fn ratios_agree(width: nat, height: nat, scale_width: nat, scale_height: nat) -> bool {
    100 * gap(scale_width * height, scale_height * width) < width * height
}

/// `n / d` rounded to the nearest integer, a half rounding upward.
pub open spec fn rounded_quotient(n: nat, d: nat) -> nat {
    ((2 * n + d) / (2 * d)) as nat
}

/// The size of the scaled content: the whole box when the two ratios
/// agree, otherwise the box shrunk along the axis that is not binding.
pub open spec fn fitted_size(width: nat, height: nat, scale_width: nat, scale_height: nat) -> (
    nat,
    nat,
) {
    if ratios_agree(width, height, scale_width, scale_height) {
        (scale_width, scale_height)
    } else if scale_width * height <= scale_height * width {
        (scale_width, rounded_quotient(height * scale_width, width))
    } else {
        (rounded_quotient(width * scale_height, height), scale_height)
    }
}

/// Rounding a quotient, from the quotient and remainder of the division.
pub proof fn lemma_rounded_quotient_parts(n: nat, d: nat, q: nat, r: nat)
    requires
        n == q * d + r,
        r < d,
    ensures
        rounded_quotient(n, d) == if 2 * r >= d {
            q + 1
        } else {
            q
        },
{
    if 2 * r >= d {
        assert(2 * n + d == (q + 1) * (2 * d) + (2 * r - d)) by (nonlinear_arith)
            requires
                n == q * d + r,
        ;
        lemma_fundamental_div_mod_converse(
            (2 * n + d) as int,
            (2 * d) as int,
            (q + 1) as int,
            (2 * r - d) as int,
        );
    } else {
        assert(2 * n + d == q * (2 * d) + (2 * r + d)) by (nonlinear_arith)
            requires
                n == q * d + r,
        ;
        lemma_fundamental_div_mod_converse(
            (2 * n + d) as int,
            (2 * d) as int,
            q as int,
            (2 * r + d) as int,
        );
    }
}

/// A rounded quotient is the integer nearest to the exact one: it is off
/// by at most a half.
pub proof fn lemma_rounded_quotient_nearest(n: nat, d: nat)
    requires
        d > 0,
    ensures
        2 * gap(rounded_quotient(n, d) * d, n) <= d,
{
    let q: nat = n / d;
    let r: nat = n % d;
    assert(n == q * d + r && r < d) by (nonlinear_arith)
        requires
            d > 0,
            q == n / d,
            r == n % d,
    ;
    lemma_rounded_quotient_parts(n, d, q, r);
    assert((q + 1) * d == q * d + d) by (nonlinear_arith);
}

/// A quotient that does not exceed an integer does not round above it.
pub proof fn lemma_rounded_quotient_bounded(n: nat, d: nat, bound: nat)
    requires
        d > 0,
        n <= bound * d,
    ensures
        rounded_quotient(n, d) <= bound,
{
    assert(2 * (bound * d) + d == bound * (2 * d) + d) by (nonlinear_arith);
    lemma_fundamental_div_mod_converse(
        (2 * (bound * d) + d) as int,
        (2 * d) as int,
        bound as int,
        d as int,
    );
    lemma_div_is_ordered((2 * n + d) as int, (2 * (bound * d) + d) as int, (2 * d) as int);
}

/// The fitted content lies inside the target box.
pub proof fn lemma_fit_inside(width: nat, height: nat, scale_width: nat, scale_height: nat)
    requires
        width > 0,
        height > 0,
    ensures
        fitted_size(width, height, scale_width, scale_height).0 <= scale_width,
        fitted_size(width, height, scale_width, scale_height).1 <= scale_height,
{
    assert(height * scale_width == scale_width * height) by (nonlinear_arith);
    assert(width * scale_height == scale_height * width) by (nonlinear_arith);
    if ratios_agree(width, height, scale_width, scale_height) {
    } else if scale_width * height <= scale_height * width {
        lemma_rounded_quotient_bounded(height * scale_width, width, scale_height);
    } else {
        lemma_rounded_quotient_bounded(width * scale_height, height, scale_width);
    }
}

/// The fitted content keeps the aspect ratio of the source: either the
/// two ratios agree within the tolerance and the content fills the box,
/// or one side fills the box and the other is within half a pixel of its
/// exactly proportional length.
pub proof fn lemma_fit_keeps_aspect(width: nat, height: nat, scale_width: nat, scale_height: nat)
    requires
        width > 0,
        height > 0,
    ensures
        ({
            let target = fitted_size(width, height, scale_width, scale_height);
            if ratios_agree(width, height, scale_width, scale_height) {
                target == (scale_width, scale_height)
            } else if scale_width * height <= scale_height * width {
                target.0 == scale_width && 2 * gap(target.1 * width, height * scale_width) <= width
            } else {
                target.1 == scale_height && 2 * gap(target.0 * height, width * scale_height)
                    <= height
            }
        }),
{
    lemma_rounded_quotient_nearest(height * scale_width, width);
    lemma_rounded_quotient_nearest(width * scale_height, height);
}

/// The product of two sizes, without overflow.
fn wide_product(a: usize, b: usize) -> (p: u128)
    ensures
        p == a * b,
{
    assert(a * b <= 0xffff_ffff_ffff_ffff * 0xffff_ffff_ffff_ffff) by (nonlinear_arith)
        requires
            a <= 0xffff_ffff_ffff_ffff,
            b <= 0xffff_ffff_ffff_ffff,
    ;
    (a as u128) * (b as u128)
}

/// Divides and rounds to nearest.
fn round_div(n: u128, d: usize) -> (r: u128)
    requires
        d > 0,
    ensures
        r == rounded_quotient(n as nat, d as nat),
{
    let wide: u128 = d as u128;
    let q: u128 = n / wide;
    let rest: u128 = n % wide;
    proof {
        assert(n == q * wide + rest && rest < wide) by (nonlinear_arith)
            requires
                wide > 0,
                q == n / wide,
                rest == n % wide,
        ;
        lemma_rounded_quotient_parts(n as nat, d as nat, q as nat, rest as nat);
    }
    if 2 * rest >= wide {
        assert(q < n) by (nonlinear_arith)
            requires
                n == q * wide + rest,
                2 * rest >= wide,
                wide > 0,
        ;
        q + 1
    } else {
        q
    }
}

/// Computes the fitted size for a non-empty source.
pub fn fit(width: usize, height: usize, scale_width: usize, scale_height: usize) -> (t: (
    usize,
    usize,
))
    requires
        width > 0,
        height > 0,
    ensures
        t.0 == fitted_size(width as nat, height as nat, scale_width as nat, scale_height as nat).0,
        t.1 == fitted_size(width as nat, height as nat, scale_width as nat, scale_height as nat).1,
        t.0 <= scale_width,
        t.1 <= scale_height,
{
    proof {
        lemma_fit_inside(width as nat, height as nat, scale_width as nat, scale_height as nat);
        assert(height * scale_width == scale_width * height) by (nonlinear_arith);
        assert(width * scale_height == scale_height * width) by (nonlinear_arith);
        assert(width * height >= 1) by (nonlinear_arith)
            requires
                width > 0,
                height > 0,
        ;
    }
    let across: u128 = wide_product(scale_width, height);
    let down: u128 = wide_product(scale_height, width);
    let area: u128 = wide_product(width, height);
    let apart: u128 = if across >= down {
        across - down
    } else {
        down - across
    };
    if apart <= (area - 1) / 100 {
        (scale_width, scale_height)
    } else if across <= down {
        let fitted: u128 = round_div(across, width);
        (scale_width, fitted as usize)
    } else {
        let fitted: u128 = round_div(down, height);
        (fitted as usize, scale_height)
    }
}

/// Four corner points of a destination rectangle, clockwise from the top
/// left.
#[derive(Debug, Clone, Copy, PartialEq, Eq)]
pub struct Quad {
    pub x1: i32,
    pub y1: i32,
    pub x2: i32,
    pub y2: i32,
    pub x3: i32,
    pub y3: i32,
    pub x4: i32,
    pub y4: i32,
}

impl Quad {
    /// The axis-aligned rectangle from `(0, 0)` to `(right, bottom)`.
    pub open spec fn spanning(right: i32, bottom: i32) -> Quad {
        Quad { x1: 0, y1: 0, x2: right, y2: 0, x3: right, y3: bottom, x4: 0, y4: bottom }
    }
}

/// A rectangle cut out of, or padded around, an image. Negative offsets
/// place the image inside a larger canvas.
#[derive(Debug, Clone, Copy, PartialEq, Eq)]
pub struct Region {
    pub x_offset: i32,
    pub y_offset: i32,
    pub width: i32,
    pub height: i32,
}

/// The filter the engine resamples with.
#[derive(Debug, Clone, Copy, PartialEq, Eq)]
pub enum Interpolation {
    Nearest,
    Bilinear,
}

/// Everything the engine needs to know to produce a scaled image, with
/// all sizes already converted for it.
#[derive(Debug, Clone, Copy, PartialEq, Eq)]
pub struct ScalePlan {
    pub source_width: i32,
    pub source_height: i32,
    /// Size of the fitted content.
    pub target_width: usize,
    pub target_height: usize,
    /// Where the source grid is resampled to.
    pub quad: Quad,
    pub interpolation: Interpolation,
    /// The canvas to centre the fitted content in, when one is wanted and
    /// the content does not already fill the box.
    pub expansion: Option<Region>,
}

/// Why a scaled construction is refused, if it is. The checks come in
/// this order; `count` is the number of pixel entries supplied.
pub open spec fn scaling_error(
    width: nat,
    height: nat,
    count: nat,
    scale_width: nat,
    scale_height: nat,
    expand: bool,
) -> Option<ImageErrorKind> {
    let target = fitted_size(width, height, scale_width, scale_height);
    if width == 0 || height == 0 {
        Some(ImageErrorKind::EmptyImage)
    } else if scale_width == 0 || scale_height == 0 {
        Some(ImageErrorKind::EmptyTarget)
    } else if count < width * height {
        Some(ImageErrorKind::InsufficientPixelData)
    } else if !fits_c_int(target.0 - 1) || !fits_c_int(target.1 - 1) || !fits_c_int(width as int)
        || !fits_c_int(height as int) {
        Some(ImageErrorKind::DimensionOverflow)
    } else if expand && target != (scale_width, scale_height) && (!fits_c_int(scale_width as int)
        || !fits_c_int(scale_height as int)) {
        Some(ImageErrorKind::DimensionOverflow)
    } else {
        None
    }
}

/// The message that accompanies each refusal of a scaled construction.
pub open spec fn scaling_text(kind: ImageErrorKind) -> Seq<char> {
    match kind {
        ImageErrorKind::EmptyImage => "Empty source image"@,
        ImageErrorKind::EmptyTarget => "Empty target image"@,
        ImageErrorKind::InsufficientPixelData => "Not enough pixels"@,
        _ => "out of range integral type conversion attempted"@,
    }
}

/// The plan for an accepted scaled construction.
pub open spec fn scaling_plan(
    width: nat,
    height: nat,
    scale_width: nat,
    scale_height: nat,
    expand: bool,
) -> ScalePlan {
    let target = fitted_size(width, height, scale_width, scale_height);
    ScalePlan {
        source_width: width as i32,
        source_height: height as i32,
        target_width: target.0 as usize,
        target_height: target.1 as usize,
        quad: Quad::spanning((target.0 - 1) as i32, (target.1 - 1) as i32),
        interpolation: Interpolation::Bilinear,
        expansion: if expand && target != (scale_width, scale_height) {
            Some(
                Region {
                    x_offset: (-((scale_width - target.0) / 2)) as i32,
                    y_offset: (-((scale_height - target.1) / 2)) as i32,
                    width: scale_width as i32,
                    height: scale_height as i32,
                },
            )
        } else {
            None
        },
    }
}

/// Progress of a scaled construction. In every state but the last the
/// caller performs the named engine call and passes the reply to `step`:
/// the produced image, or the diagnostic of a null result.
pub enum Scaling {
    /// Resample the source pixel grid into `plan.quad`.
    Fitting { plan: ScalePlan },
    /// Embed `fitted` into the canvas `region`.
    Expanding { fitted: Image, region: Region },
    /// Nothing is left to do.
    Finished { outcome: Result<Image, ImageError> },
}

impl Scaling {
    /// The state that follows a reply.
    pub open spec fn after(self, reply: Result<Image, String>) -> Scaling {
        match self {
            Scaling::Fitting { plan } => match (reply, plan.expansion) {
                (Ok(fitted), Some(region)) => Scaling::Expanding { fitted, region },
                _ => Scaling::Finished { outcome: reply_result(reply) },
            },
            Scaling::Expanding { .. } => Scaling::Finished { outcome: reply_result(reply) },
            Scaling::Finished { outcome } => Scaling::Finished { outcome },
        }
    }

    /// Takes the engine's reply to the call that the current state names.
    /// A failure ends the construction with `EngineFailure`; a finished
    /// construction ignores further replies.
    pub fn step(self, reply: Result<Image, String>) -> (next: Scaling)
        ensures
            next == self.after(reply),
    {
        match self {
            Scaling::Fitting { plan } => match reply {
                Ok(fitted) => match plan.expansion {
                    Some(region) => Scaling::Expanding { fitted, region },
                    None => Scaling::Finished { outcome: Ok(fitted) },
                },
                Err(message) => Scaling::Finished {
                    outcome: Err(ImageError::from_dp_error(message)),
                },
            },
            Scaling::Expanding { fitted: _, region: _ } => Scaling::Finished {
                outcome: engine_result(reply),
            },
            Scaling::Finished { outcome } => Scaling::Finished { outcome },
        }
    }
}

/// What an accepted plan asks of the engine, without casts: the content
/// is not empty and lies inside the box, the quad spans exactly the
/// content, and a canvas, where there is one, is exactly the box with the
/// content centred in it.
pub proof fn lemma_plan_geometry(
    width: nat,
    height: nat,
    count: nat,
    scale_width: nat,
    scale_height: nat,
    expand: bool,
)
    requires
        scaling_error(width, height, count, scale_width, scale_height, expand) is None,
    ensures
        ({
            let plan = scaling_plan(width, height, scale_width, scale_height, expand);
            let target = fitted_size(width, height, scale_width, scale_height);
            &&& 0 < target.0 <= scale_width
            &&& 0 < target.1 <= scale_height
            &&& plan.source_width == width
            &&& plan.source_height == height
            &&& plan.target_width == target.0
            &&& plan.target_height == target.1
            &&& plan.quad.x1 == 0 && plan.quad.y1 == 0
            &&& plan.quad.x2 == target.0 - 1 && plan.quad.y2 == 0
            &&& plan.quad.x3 == target.0 - 1 && plan.quad.y3 == target.1 - 1
            &&& plan.quad.x4 == 0 && plan.quad.y4 == target.1 - 1
            &&& match plan.expansion {
                Some(region) => {
                    &&& expand
                    &&& target != (scale_width, scale_height)
                    &&& region.width == scale_width
                    &&& region.height == scale_height
                    &&& region.x_offset == -((scale_width - target.0) / 2)
                    &&& region.y_offset == -((scale_height - target.1) / 2)
                },
                None => !expand || target == (scale_width, scale_height),
            }
        }),
{
    lemma_fit_inside(width, height, scale_width, scale_height);
}

/// A scaled construction takes one engine call, or two when a canvas is
/// planned, and ends with the last image produced; the first failure ends
/// it with that diagnostic.
pub proof fn lemma_scaling_protocol(
    plan: ScalePlan,
    first: Result<Image, String>,
    second: Result<Image, String>,
)
    ensures
        ({
            let start = Scaling::Fitting { plan };
            let next = start.after(first);
            &&& first is Err ==> next == (Scaling::Finished { outcome: reply_result(first) })
            &&& plan.expansion is None ==> (first matches Ok(fitted) ==> next
                == (Scaling::Finished { outcome: Ok(fitted) }))
            &&& (first, plan.expansion) matches (Ok(fitted), Some(region)) ==> {
                &&& next == (Scaling::Expanding { fitted, region })
                &&& next.after(second) == (Scaling::Finished { outcome: reply_result(second) })
            }
            &&& next.after(second).after(first) is Finished
        }),
{
}

/// When the engine delivers images of the sizes it is asked for, the
/// construction ends with an image of exactly the fitted size, and with
/// `expand` of exactly the box.
pub proof fn lemma_scaled_dimensions(
    width: nat,
    height: nat,
    count: nat,
    scale_width: nat,
    scale_height: nat,
    expand: bool,
    fitted: Image,
    canvas: Image,
)
    requires
        scaling_error(width, height, count, scale_width, scale_height, expand) is None,
        (fitted@.width, fitted@.height) == fitted_size(width, height, scale_width, scale_height),
        (canvas@.width, canvas@.height) == (scale_width, scale_height),
    ensures
        ({
            let plan = scaling_plan(width, height, scale_width, scale_height, expand);
            let end = (Scaling::Fitting { plan }).after(Ok(fitted)).after(Ok(canvas));
            &&& end matches Scaling::Finished { outcome: Ok(image) }
            &&& expand ==> (image@.width, image@.height) == (scale_width, scale_height)
            &&& !expand ==> (image@.width, image@.height) == fitted_size(
                width,
                height,
                scale_width,
                scale_height,
            )
        }),
{
}

impl Image {
    /// Validates a scaled construction from raw pixels and plans it: the
    /// source is fitted into the box `scale_width` by `scale_height` with
    /// its aspect ratio kept, and with `expand` the result is centred on a
    /// canvas of exactly the box. Every size is converted for the engine
    /// here, so a refusal comes before any engine call.
    pub fn new_from_pixels_scaled(
        width: usize,
        height: usize,
        pixels: &[u32],
        scale_width: usize,
        scale_height: usize,
        expand: bool,
    ) -> (r: Result<Scaling, ImageError>)
        ensures
            match r {
                Ok(state) => {
                    &&& scaling_error(
                        width as nat,
                        height as nat,
                        pixels@.len(),
                        scale_width as nat,
                        scale_height as nat,
                        expand,
                    ) is None
                    &&& state == (Scaling::Fitting {
                        plan: scaling_plan(
                            width as nat,
                            height as nat,
                            scale_width as nat,
                            scale_height as nat,
                            expand,
                        ),
                    })
                },
                Err(e) => {
                    &&& scaling_error(
                        width as nat,
                        height as nat,
                        pixels@.len(),
                        scale_width as nat,
                        scale_height as nat,
                        expand,
                    ) == Some(e.kind)
                    &&& e.message@ == scaling_text(e.kind)
                },
            },
    {
        if width == 0 || height == 0 {
            return Err(ImageError::new(ImageErrorKind::EmptyImage, "Empty source image"));
        }
        if scale_width == 0 || scale_height == 0 {
            return Err(ImageError::new(ImageErrorKind::EmptyTarget, "Empty target image"));
        }
        let supplied: usize = pixels.len();
        match width.checked_mul(height) {
            Some(count) if count <= supplied => {},
            _ => {
                return Err(
                    ImageError::new(ImageErrorKind::InsufficientPixelData, "Not enough pixels"),
                );
            },
        }
        let (target_width, target_height) = fit(width, height, scale_width, scale_height);
        if target_width == 0 || target_height == 0 {
            return Err(
                ImageError::new(
                    ImageErrorKind::DimensionOverflow,
                    "out of range integral type conversion attempted",
                ),
            );
        }
        let right: i32 = to_c_int(target_width - 1)?;
        let bottom: i32 = to_c_int(target_height - 1)?;
        let source_width: i32 = to_c_int(width)?;
        let source_height: i32 = to_c_int(height)?;
        let quad = Quad {
            x1: 0,
            y1: 0,
            x2: right,
            y2: 0,
            x3: right,
            y3: bottom,
            x4: 0,
            y4: bottom,
        };
        let expansion: Option<Region> = if expand && (target_width != scale_width || target_height
            != scale_height) {
            let left: i32 = to_c_int((scale_width - target_width) / 2)?;
            let top: i32 = to_c_int((scale_height - target_height) / 2)?;
            let canvas_width: i32 = to_c_int(scale_width)?;
            let canvas_height: i32 = to_c_int(scale_height)?;
            Some(
                Region {
                    x_offset: -left,
                    y_offset: -top,
                    width: canvas_width,
                    height: canvas_height,
                },
            )
        } else {
            None
        };
        Ok(
            Scaling::Fitting {
                plan: ScalePlan {
                    source_width,
                    source_height,
                    target_width,
                    target_height,
                    quad,
                    interpolation: Interpolation::Bilinear,
                    expansion,
                },
            },
        )
    }
}

} // verus!
