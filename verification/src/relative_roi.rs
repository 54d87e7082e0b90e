//! Resolution-independent layout: rectangular regions described as
//! fractions of the frame, resolved to pixel rectangles at render time.
//!
//! Fractions are fixed-point values in units of one millionth: `UNIT`
//! stands for the whole frame.

use vstd::arithmetic::div_mod::{
    lemma_div_is_ordered, lemma_div_multiples_vanish, lemma_div_pos_is_pos,
    lemma_fundamental_div_mod, lemma_fundamental_div_mod_converse, lemma_mod_bound,
    lemma_multiply_divide_lt,
};
use vstd::arithmetic::mul::{
    lemma_mul_inequality, lemma_mul_is_commutative, lemma_mul_is_distributive_add_other_way,
    lemma_mul_nonnegative, lemma_mul_upper_bound,
};
use vstd::prelude::*;
use vstd::string::StringExecFns;

verus! {

/// The fixed-point scale: this value stands for the fraction 1.0, the
/// whole frame.
pub const UNIT: u32 = 1_000_000;

/// A region construction failure, carrying a message that names the
/// violated constraint.
#[derive(Debug)]
pub struct RelativeRoiError(pub String);

/// A concrete rectangle in pixels.
#[derive(Clone, Copy, Debug, PartialEq, Eq, Structural)]
pub struct PixelRect {
    pub x: u32,
    pub y: u32,
    pub width: u32,
    pub height: u32,
}

impl PixelRect {
    /// The rectangle lies fully inside a frame of the given size.
    pub open spec fn within_frame(self, frame_width: u32, frame_height: u32) -> bool {
        self.x + self.width <= frame_width && self.y + self.height <= frame_height
    }
}

/// Euclidean half of `outer - inner`: the offset that centers a length of
/// `inner` inside a length of `outer`.
pub fn center_offset(inner: i32, outer: i32) -> (r: i32)
    requires
        i32::MIN <= outer - inner <= i32::MAX,
    ensures
        r == (outer - inner) / 2,
{
    if outer >= inner {
        let d: u64 = (outer as i64 - inner as i64) as u64;
        (d / 2) as i32
    } else {
        let d: u64 = (inner as i64 - outer as i64) as u64;
        let half: u64 = (d + 1) / 2;
        proof {
            lemma_fundamental_div_mod((d + 1) as int, 2);
            lemma_mod_bound((d + 1) as int, 2);
            lemma_fundamental_div_mod_converse(
                (outer - inner) as int,
                2,
                -(half as int),
                2 * (half as int) - d,
            );
        }
        -((half) as i32)
    }
}

/// The pixel extent of a fraction of a frame dimension.
pub open spec fn frac_px(frac: u32, size: u32) -> int {
    (frac * size) / (UNIT as int)
}

/// A fraction's pixel extent is non-negative, bounded by the frame
/// dimension, and monotone in the fraction.
pub proof fn lemma_frac_px_bounds(frac: u32, size: u32)
    ensures
        0 <= frac_px(frac, size),
        frac <= UNIT ==> frac_px(frac, size) <= size,
{
    lemma_mul_nonnegative(frac as int, size as int);
    lemma_div_pos_is_pos(frac * size, UNIT as int);
    if frac <= UNIT {
        lemma_mul_inequality(frac as int, UNIT as int, size as int);
        lemma_div_is_ordered(frac * size, UNIT * size, UNIT as int);
        lemma_div_multiples_vanish(size as int, UNIT as int);
    }
}

/// Pixel extents are monotone in the fraction.
pub proof fn lemma_frac_px_monotone(a: u32, b: u32, size: u32)
    requires
        a <= b,
    ensures
        frac_px(a, size) <= frac_px(b, size),
{
    lemma_mul_inequality(a as int, b as int, size as int);
    lemma_div_is_ordered(a * size, b * size, UNIT as int);
}

/// Floor division distributes sub-additively: the sum of two floors is at
/// most the floor of the sum.
proof fn lemma_div_add_le(a: int, b: int, d: int)
    requires
        a >= 0,
        b >= 0,
        d > 0,
    ensures
        a / d + b / d <= (a + b) / d,
{
    lemma_fundamental_div_mod(a, d);
    lemma_fundamental_div_mod(b, d);
    lemma_mod_bound(a, d);
    lemma_mod_bound(b, d);
    let q = a / d + b / d;
    assert(d * q == d * (a / d) + d * (b / d)) by {
        vstd::arithmetic::mul::lemma_mul_is_distributive_add(d, a / d, b / d);
    }
    assert(d * q <= a + b);
    lemma_div_is_ordered(d * q, a + b, d);
    lemma_div_multiples_vanish(q, d);
}

/// Splitting a fraction splits its pixel extent sub-additively.
pub proof fn lemma_frac_px_split(a: u32, b: u32, size: u32)
    requires
        a + b <= u32::MAX,
    ensures
        frac_px(a, size) + frac_px(b, size) <= frac_px((a + b) as u32, size),
{
    lemma_mul_nonnegative(a as int, size as int);
    lemma_mul_nonnegative(b as int, size as int);
    lemma_div_add_le(a * size, b * size, UNIT as int);
    assert((a + b) * size == a * size + b * size) by {
        lemma_mul_is_distributive_add_other_way(size as int, a as int, b as int);
    }
}

/// Which side of a shared vertical seam a region occupies; the outer edge
/// keeps its full buffer while the seam edge takes only half, so two
/// adjacent regions do not double their gap.
#[derive(Clone, Copy, Debug, PartialEq, Eq, Structural)]
pub enum HorizontalPartition {
    Left,
    Center,
    Right,
}

impl HorizontalPartition {
    /// The (left, right) buffer pair for a region on this side of a seam.
    fn split_horizontal_buffer(&self, buffer: u32) -> (r: (u32, u32))
        ensures
            *self is Left ==> r == (buffer, (buffer / 2) as u32),
            *self is Right ==> r == ((buffer / 2) as u32, buffer),
            *self is Center ==> r == (buffer, buffer),
    {
        match self {
            HorizontalPartition::Left => (buffer, buffer / 2),
            HorizontalPartition::Right => (buffer / 2, buffer),
            HorizontalPartition::Center => (buffer, buffer),
        }
    }
}

/// Which side of a shared horizontal seam a region occupies.
#[derive(Clone, Copy, Debug, PartialEq, Eq, Structural)]
pub enum VerticalPartition {
    Top,
    Center,
    Bottom,
}

impl VerticalPartition {
    /// The (top, bottom) buffer pair for a region on this side of a seam.
    fn split_vertical_buffer(&self, buffer: u32) -> (r: (u32, u32))
        ensures
            *self is Top ==> r == (buffer, (buffer / 2) as u32),
            *self is Bottom ==> r == ((buffer / 2) as u32, buffer),
            *self is Center ==> r == (buffer, buffer),
    {
        match self {
            VerticalPartition::Top => (buffer, buffer / 2),
            VerticalPartition::Center => (buffer, buffer),
            VerticalPartition::Bottom => (buffer / 2, buffer),
        }
    }
}

/// The region-construction constraints: every fraction is a valid
/// percentage, the box stays inside the frame, and the buffers leave room
/// inside the box.
pub open spec fn valid_inputs(
    x: u32,
    y: u32,
    width: u32,
    height: u32,
    left_buf: u32,
    right_buf: u32,
    top_buf: u32,
    bottom_buf: u32,
) -> bool {
    &&& x <= UNIT
    &&& y <= UNIT
    &&& width <= UNIT
    &&& height <= UNIT
    &&& x + width <= UNIT
    &&& y + height <= UNIT
    &&& left_buf + right_buf < width
    &&& top_buf + bottom_buf < height
}

/// The message for the first violated construction constraint, in the
/// order the constraints are checked.
pub open spec fn validation_message(
    x: u32,
    y: u32,
    width: u32,
    height: u32,
    left_buf: u32,
    right_buf: u32,
    top_buf: u32,
    bottom_buf: u32,
) -> Seq<char> {
    if x > UNIT {
        "`x` value cannot be less than 0 or greater than 1."@
    } else if y > UNIT {
        "`y` value cannot be less than 0 or greater than 1."@
    } else if width > UNIT {
        "`width` value cannot be less than 0 or greater than 1."@
    } else if height > UNIT {
        "`height` value cannot be less than 0 or greater than 1."@
    } else if x + width > UNIT {
        "`x` and `width` cannot add up to more than 1."@
    } else if y + height > UNIT {
        "`y` and `height` cannot add up to more than 1."@
    } else if left_buf + right_buf >= width {
        "`horizontal_buffer` must be less than half of  `width`."@
    } else {
        "`vertical_buffer` must be less than half of `height`."@
    }
}

/// A rectangular region as fractions of the frame, with independently
/// configurable edge buffers.  Immutable once built; every constructor
/// validates the constraints of `valid_inputs`.
#[derive(Clone, Copy, Debug, PartialEq, Eq, Structural)]
pub struct RelativeRoi {
    pub x: u32,
    pub y: u32,
    pub width: u32,
    pub height: u32,
    pub left_horizontal_buffer: u32,
    pub right_horizontal_buffer: u32,
    pub top_vertical_buffer: u32,
    pub bottom_vertical_buffer: u32,
}

impl RelativeRoi {
    /// The constraints every built region satisfies.
    pub open spec fn wf(self) -> bool {
        valid_inputs(
            self.x,
            self.y,
            self.width,
            self.height,
            self.left_horizontal_buffer,
            self.right_horizontal_buffer,
            self.top_vertical_buffer,
            self.bottom_vertical_buffer,
        )
    }

    /// The region's fractional height.
    pub fn get_height(&self) -> (r: u32)
        ensures
            r == self.height,
    {
        self.height
    }

    /// The region's fractional width.
    pub fn get_width(&self) -> (r: u32)
        ensures
            r == self.width,
    {
        self.width
    }

    /// Checks the construction constraints, reporting the first violated
    /// one by name.
    fn validate_inputs(
        x: u32,
        y: u32,
        width: u32,
        height: u32,
        left_buf: u32,
        right_buf: u32,
        top_buf: u32,
        bottom_buf: u32,
    ) -> (r: Result<(), RelativeRoiError>)
        ensures
            r is Ok <==> valid_inputs(x, y, width, height, left_buf, right_buf, top_buf, bottom_buf),
            r is Err ==> r->Err_0.0@ == validation_message(
                x,
                y,
                width,
                height,
                left_buf,
                right_buf,
                top_buf,
                bottom_buf,
            ),
    {
        if x > UNIT {
            return Err(
                RelativeRoiError("`x` value cannot be less than 0 or greater than 1.".to_owned()),
            );
        }
        if y > UNIT {
            return Err(
                RelativeRoiError("`y` value cannot be less than 0 or greater than 1.".to_owned()),
            );
        }
        if width > UNIT {
            return Err(
                RelativeRoiError(
                    "`width` value cannot be less than 0 or greater than 1.".to_owned(),
                ),
            );
        }
        if height > UNIT {
            return Err(
                RelativeRoiError(
                    "`height` value cannot be less than 0 or greater than 1.".to_owned(),
                ),
            );
        }
        if x + width > UNIT {
            return Err(RelativeRoiError("`x` and `width` cannot add up to more than 1.".to_owned()));
        }
        if y + height > UNIT {
            return Err(
                RelativeRoiError("`y` and `height` cannot add up to more than 1.".to_owned()),
            );
        }
        if left_buf > UNIT || right_buf > UNIT || left_buf + right_buf >= width {
            return Err(
                RelativeRoiError(
                    "`horizontal_buffer` must be less than half of  `width`.".to_owned(),
                ),
            );
        }
        if top_buf > UNIT || bottom_buf > UNIT || top_buf + bottom_buf >= height {
            return Err(
                RelativeRoiError(
                    "`vertical_buffer` must be less than half of `height`.".to_owned(),
                ),
            );
        }
        Ok(())
    }

    /// Builds a region with explicit per-edge buffers; the only validation
    /// boundary in the system, so a failure here is a startup-time
    /// configuration error.
    pub fn build(
        x: u32,
        y: u32,
        width: u32,
        height: u32,
        left_horizontal_buffer: u32,
        right_horizontal_buffer: u32,
        top_vertical_buffer: u32,
        bottom_vertical_buffer: u32,
    ) -> (r: Result<RelativeRoi, RelativeRoiError>)
        ensures
            r is Ok <==> valid_inputs(
                x,
                y,
                width,
                height,
                left_horizontal_buffer,
                right_horizontal_buffer,
                top_vertical_buffer,
                bottom_vertical_buffer,
            ),
            r is Ok ==> r->Ok_0 == (RelativeRoi {
                x,
                y,
                width,
                height,
                left_horizontal_buffer,
                right_horizontal_buffer,
                top_vertical_buffer,
                bottom_vertical_buffer,
            }) && r->Ok_0.wf(),
            r is Err ==> r->Err_0.0@ == validation_message(
                x,
                y,
                width,
                height,
                left_horizontal_buffer,
                right_horizontal_buffer,
                top_vertical_buffer,
                bottom_vertical_buffer,
            ),
    {
        match Self::validate_inputs(
            x,
            y,
            width,
            height,
            left_horizontal_buffer,
            right_horizontal_buffer,
            top_vertical_buffer,
            bottom_vertical_buffer,
        ) {
            Ok(()) => Ok(
                RelativeRoi {
                    x,
                    y,
                    width,
                    height,
                    left_horizontal_buffer,
                    right_horizontal_buffer,
                    top_vertical_buffer,
                    bottom_vertical_buffer,
                },
            ),
            Err(e) => Err(e),
        }
    }

    /// Builds a region whose left/right and top/bottom buffers are each one
    /// optional shared value.
    pub fn build_def(
        x: u32,
        y: u32,
        width: u32,
        height: u32,
        horizontal_buffer: Option<u32>,
        vertical_buffer: Option<u32>,
    ) -> (r: Result<RelativeRoi, RelativeRoiError>)
        ensures
            ({
                let hb = if horizontal_buffer is Some {
                    horizontal_buffer->0
                } else {
                    0u32
                };
                let vb = if vertical_buffer is Some {
                    vertical_buffer->0
                } else {
                    0u32
                };
                &&& (r is Ok <==> valid_inputs(x, y, width, height, hb, hb, vb, vb))
                &&& (r is Ok ==> r->Ok_0 == (RelativeRoi {
                    x,
                    y,
                    width,
                    height,
                    left_horizontal_buffer: hb,
                    right_horizontal_buffer: hb,
                    top_vertical_buffer: vb,
                    bottom_vertical_buffer: vb,
                }) && r->Ok_0.wf())
                &&& (r is Err ==> r->Err_0.0@ == validation_message(
                    x,
                    y,
                    width,
                    height,
                    hb,
                    hb,
                    vb,
                    vb,
                ))
            }),
    {
        let hb: u32 = match horizontal_buffer {
            Some(b) => b,
            None => 0,
        };
        let vb: u32 = match vertical_buffer {
            Some(b) => b,
            None => 0,
        };
        Self::build(x, y, width, height, hb, hb, vb, vb)
    }

    /// Builds a region tagged with partition sides: the buffer on a shared
    /// seam is halved so adjacent regions meet without doubling the gap.
    pub fn build_as_partition(
        x: u32,
        y: u32,
        width: u32,
        height: u32,
        horizontal_buffer: Option<u32>,
        vertical_buffer: Option<u32>,
        horizontal_partition: Option<HorizontalPartition>,
        vertical_partition: Option<VerticalPartition>,
    ) -> (r: Result<RelativeRoi, RelativeRoiError>)
        ensures
            ({
                let hb = if horizontal_buffer is Some {
                    horizontal_buffer->0
                } else {
                    0u32
                };
                let vb = if vertical_buffer is Some {
                    vertical_buffer->0
                } else {
                    0u32
                };
                let (lb, rb) = match horizontal_partition {
                    Some(HorizontalPartition::Left) => (hb, (hb / 2) as u32),
                    Some(HorizontalPartition::Right) => ((hb / 2) as u32, hb),
                    _ => (hb, hb),
                };
                let (tb, bb) = match vertical_partition {
                    Some(VerticalPartition::Top) => (vb, (vb / 2) as u32),
                    Some(VerticalPartition::Bottom) => ((vb / 2) as u32, vb),
                    _ => (vb, vb),
                };
                &&& (r is Ok <==> valid_inputs(x, y, width, height, lb, rb, tb, bb))
                &&& (r is Ok ==> r->Ok_0 == (RelativeRoi {
                    x,
                    y,
                    width,
                    height,
                    left_horizontal_buffer: lb,
                    right_horizontal_buffer: rb,
                    top_vertical_buffer: tb,
                    bottom_vertical_buffer: bb,
                }) && r->Ok_0.wf())
                &&& (r is Err ==> r->Err_0.0@ == validation_message(
                    x,
                    y,
                    width,
                    height,
                    lb,
                    rb,
                    tb,
                    bb,
                ))
            }),
    {
        let hb: u32 = match horizontal_buffer {
            Some(b) => b,
            None => 0,
        };
        let vb: u32 = match vertical_buffer {
            Some(b) => b,
            None => 0,
        };
        let (lb, rb) = match horizontal_partition {
            Some(part) => part.split_horizontal_buffer(hb),
            None => (hb, hb),
        };
        let (tb, bb) = match vertical_partition {
            Some(part) => part.split_vertical_buffer(vb),
            None => (vb, vb),
        };
        Self::build(x, y, width, height, lb, rb, tb, bb)
    }

    /// The buffered box's left pixel edge: the box offset plus the left
    /// buffer, summed as fractions and scaled to pixels in one step.
    pub open spec fn raw_x(self, frame_width: u32) -> int {
        frac_px((self.x + self.left_horizontal_buffer) as u32, frame_width)
    }

    /// The buffered box's top pixel edge.
    pub open spec fn raw_y(self, frame_height: u32) -> int {
        frac_px((self.y + self.top_vertical_buffer) as u32, frame_height)
    }

    /// The buffered box's pixel width: the box width less both buffers,
    /// summed as fractions and scaled to pixels in one step.
    pub open spec fn raw_w(self, frame_width: u32) -> int {
        frac_px(
            (self.width - self.left_horizontal_buffer - self.right_horizontal_buffer) as u32,
            frame_width,
        )
    }

    /// The buffered box's pixel height.
    pub open spec fn raw_h(self, frame_height: u32) -> int {
        frac_px(
            (self.height - self.top_vertical_buffer - self.bottom_vertical_buffer) as u32,
            frame_height,
        )
    }

    /// The buffered box of this region never leaves the frame.
    pub proof fn lemma_raw_within(self, frame_width: u32, frame_height: u32)
        requires
            self.wf(),
        ensures
            0 <= self.raw_x(frame_width),
            0 <= self.raw_y(frame_height),
            0 <= self.raw_w(frame_width),
            0 <= self.raw_h(frame_height),
            self.raw_x(frame_width) + self.raw_w(frame_width) <= frame_width,
            self.raw_y(frame_height) + self.raw_h(frame_height) <= frame_height,
    {
        let bx = (self.x + self.left_horizontal_buffer) as u32;
        let bw = (self.width - self.left_horizontal_buffer - self.right_horizontal_buffer) as u32;
        let by = (self.y + self.top_vertical_buffer) as u32;
        let bh = (self.height - self.top_vertical_buffer - self.bottom_vertical_buffer) as u32;
        lemma_frac_px_bounds(bx, frame_width);
        lemma_frac_px_bounds(bw, frame_width);
        lemma_frac_px_bounds(by, frame_height);
        lemma_frac_px_bounds(bh, frame_height);
        // the buffered box's two extents together stay within the frame
        lemma_frac_px_split(bx, bw, frame_width);
        lemma_frac_px_monotone((bx + bw) as u32, UNIT, frame_width);
        assert(frac_px(UNIT, frame_width) == frame_width) by {
            lemma_mul_is_commutative(UNIT as int, frame_width as int);
            lemma_div_multiples_vanish(frame_width as int, UNIT as int);
        }
        lemma_frac_px_split(by, bh, frame_height);
        lemma_frac_px_monotone((by + bh) as u32, UNIT, frame_height);
        assert(frac_px(UNIT, frame_height) == frame_height) by {
            lemma_mul_is_commutative(UNIT as int, frame_height as int);
            lemma_div_multiples_vanish(frame_height as int, UNIT as int);
        }
    }

    /// Resolves the region to raw pixels: the box offset grown by its
    /// leading buffer and the box extent shrunk by both buffers, each summed
    /// as fractions first and truncated to pixels once.  The result always
    /// lies inside the frame.
    pub fn generate_roi_raw(&self, frame_width: u32, frame_height: u32) -> (r: PixelRect)
        requires
            self.wf(),
        ensures
            r.x == self.raw_x(frame_width),
            r.y == self.raw_y(frame_height),
            r.width == self.raw_w(frame_width),
            r.height == self.raw_h(frame_height),
            r.within_frame(frame_width, frame_height),
    {
        proof {
            self.lemma_raw_within(frame_width, frame_height);
        }
        let x_px = scale_frac(self.x + self.left_horizontal_buffer, frame_width);
        let y_px = scale_frac(self.y + self.top_vertical_buffer, frame_height);
        let w_px = scale_frac(
            self.width - self.left_horizontal_buffer - self.right_horizontal_buffer,
            frame_width,
        );
        let h_px = scale_frac(
            self.height - self.top_vertical_buffer - self.bottom_vertical_buffer,
            frame_height,
        );
        PixelRect { x: x_px, y: y_px, width: w_px, height: h_px }
    }
}

impl RelativeRoi {
    /// The fitted pixel width and height: the buffered box shrunk to the
    /// content's aspect ratio (`content_width : content_height`).
    pub open spec fn fitted_size(self, fw: u32, fh: u32, cw: u32, ch: u32) -> (int, int) {
        let ow = self.raw_w(fw);
        let oh = self.raw_h(fh);
        let pw = oh * cw / (ch as int);
        if pw > ow {
            (ow, ow * ch / (cw as int))
        } else {
            (pw, oh)
        }
    }

    /// A box fitted to the content's aspect ratio still fits the buffered
    /// box.
    pub proof fn lemma_fitted_size_within(self, fw: u32, fh: u32, cw: u32, ch: u32)
        requires
            self.wf(),
            cw >= 1,
            ch >= 1,
        ensures
            0 <= self.fitted_size(fw, fh, cw, ch).0 <= self.raw_w(fw),
            0 <= self.fitted_size(fw, fh, cw, ch).1 <= self.raw_h(fh),
    {
        let ow = self.raw_w(fw);
        let oh = self.raw_h(fh);
        self.lemma_raw_within(fw, fh);
        let pw = oh * cw / (ch as int);
        lemma_mul_nonnegative(oh, cw as int);
        lemma_div_pos_is_pos(oh * cw, ch as int);
        if pw > ow {
            lemma_mul_nonnegative(ow, ch as int);
            lemma_div_pos_is_pos(ow * ch, cw as int);
            // floor(oh*cw/ch) > ow forces oh*cw >= (ow+1)*ch
            lemma_fundamental_div_mod(oh * cw, ch as int);
            lemma_mod_bound(oh * cw, ch as int);
            lemma_mul_inequality(ow + 1, pw, ch as int);
            lemma_mul_is_commutative(ch as int, pw);
            assert((ow + 1) * ch <= oh * cw);
            assert(ow * ch < oh * cw) by {
                lemma_mul_is_distributive_add_other_way(ch as int, ow, 1);
            }
            lemma_div_is_ordered(ow * ch, oh * cw, cw as int);
            lemma_div_multiples_vanish(oh, cw as int);
            lemma_mul_is_commutative(cw as int, oh);
        }
    }

    /// Resolves the region to pixels and shrinks the box to preserve the
    /// content's aspect ratio, centering the result inside the buffered
    /// box.  The result always lies inside the frame.
    pub fn generate_roi(
        &self,
        frame_width: u32,
        frame_height: u32,
        content_width: u32,
        content_height: u32,
    ) -> (r: PixelRect)
        requires
            self.wf(),
            content_width >= 1,
            content_height >= 1,
        ensures
            r.width == self.fitted_size(frame_width, frame_height, content_width, content_height).0,
            r.height == self.fitted_size(
                frame_width,
                frame_height,
                content_width,
                content_height,
            ).1,
            r.x == self.raw_x(frame_width) + (self.raw_w(frame_width) - r.width) / 2,
            r.y == self.raw_y(frame_height) + (self.raw_h(frame_height) - r.height) / 2,
            r.within_frame(frame_width, frame_height),
    {
        proof {
            self.lemma_raw_within(frame_width, frame_height);
            self.lemma_fitted_size_within(
                frame_width,
                frame_height,
                content_width,
                content_height,
            );
            lemma_mul_upper_bound(
                self.raw_h(frame_height),
                u32::MAX as int,
                content_width as int,
                u32::MAX as int,
            );
            lemma_mul_upper_bound(
                self.raw_w(frame_width),
                u32::MAX as int,
                content_height as int,
                u32::MAX as int,
            );
        }
        let outer = self.generate_roi_raw(frame_width, frame_height);
        let pw: u64 = (outer.height as u64 * content_width as u64) / (content_height as u64);
        let (w, h): (u32, u32) = if pw > outer.width as u64 {
            let fitted_h: u64 = (outer.width as u64 * content_height as u64) / (content_width
                as u64);
            (outer.width, fitted_h as u32)
        } else {
            (pw as u32, outer.height)
        };
        proof {
            lemma_center_within(outer.width as int, w as int);
            lemma_center_within(outer.height as int, h as int);
        }
        let x: u32 = outer.x + (outer.width - w) / 2;
        let y: u32 = outer.y + (outer.height - h) / 2;
        PixelRect { x, y, width: w, height: h }
    }

    /// The pixel width of the region scaled by `factor` (fixed-point, with
    /// `UNIT` standing for 1.0).
    pub open spec fn scaled_width(self, factor: u64) -> int {
        self.width * factor / (UNIT as int)
    }

    /// The fractional height of the region scaled by `factor`.
    pub open spec fn scaled_height(self, factor: u64) -> int {
        self.height * factor / (UNIT as int)
    }

    /// The left edge of the scaled region: moved half the width change so
    /// the region keeps its center.
    pub open spec fn scaled_x(self, factor: u64) -> int {
        self.x - (self.scaled_width(factor) - self.width) / 2
    }

    /// The top edge of the scaled region.
    pub open spec fn scaled_y(self, factor: u64) -> int {
        self.y - (self.scaled_height(factor) - self.height) / 2
    }

    /// Whether the region scaled about its center by `factor` still
    /// satisfies every construction constraint.
    pub open spec fn scale_valid(self, factor: u64) -> bool {
        &&& 0 <= self.scaled_x(factor)
        &&& 0 <= self.scaled_y(factor)
        &&& self.scaled_x(factor) + self.scaled_width(factor) <= UNIT
        &&& self.scaled_y(factor) + self.scaled_height(factor) <= UNIT
        &&& self.left_horizontal_buffer + self.right_horizontal_buffer < self.scaled_width(factor)
        &&& self.top_vertical_buffer + self.bottom_vertical_buffer < self.scaled_height(factor)
    }

    /// The region scaled about its center by `factor`, keeping its buffers.
    pub open spec fn scaled(self, factor: u64) -> RelativeRoi {
        RelativeRoi {
            x: self.scaled_x(factor) as u32,
            y: self.scaled_y(factor) as u32,
            width: self.scaled_width(factor) as u32,
            height: self.scaled_height(factor) as u32,
            left_horizontal_buffer: self.left_horizontal_buffer,
            right_horizontal_buffer: self.right_horizontal_buffer,
            top_vertical_buffer: self.top_vertical_buffer,
            bottom_vertical_buffer: self.bottom_vertical_buffer,
        }
    }

    /// The largest growth factor that keeps the region's left margin inside
    /// the frame.
    pub open spec fn growth_bound_left(self) -> int {
        (self.width + 2 * self.x) * UNIT / (self.width as int)
    }

    /// The largest growth factor for the right margin.
    pub open spec fn growth_bound_right(self) -> int {
        (self.width + 2 * (UNIT - self.x - self.width)) * UNIT / (self.width as int)
    }

    /// The largest growth factor for the top margin.
    pub open spec fn growth_bound_top(self) -> int {
        (self.height + 2 * self.y) * UNIT / (self.height as int)
    }

    /// The largest growth factor for the bottom margin.
    pub open spec fn growth_bound_bottom(self) -> int {
        (self.height + 2 * (UNIT - self.y - self.height)) * UNIT / (self.height as int)
    }

    /// The growth factor actually applied for a grow request: the request
    /// clamped to the smallest of the four per-side bounds, and held under
    /// the machine limit.
    pub open spec fn capped_growth(self, scale: u32) -> int {
        let a = self.growth_bound_left();
        let b = self.growth_bound_right();
        let c = self.growth_bound_top();
        let d = self.growth_bound_bottom();
        let m = if a <= b {
            a
        } else {
            b
        };
        let m = if c <= m {
            c
        } else {
            m
        };
        let m = if d <= m {
            d
        } else {
            m
        };
        let m = if scale <= m {
            scale as int
        } else {
            m
        };
        if m <= GROWTH_LIMIT {
            m
        } else {
            GROWTH_LIMIT as int
        }
    }
}

/// Largest scale factor the fixed-point scaling arithmetic admits.
pub const GROWTH_LIMIT: u64 = 4_000_000_000;

impl RelativeRoi {
    /// Scales the region about its center, validating the result like any
    /// other construction.
    fn scale_rel(&self, factor: u64) -> (r: Result<RelativeRoi, RelativeRoiError>)
        requires
            self.wf(),
            1 <= factor <= GROWTH_LIMIT,
        ensures
            r is Ok <==> self.scale_valid(factor),
            r is Ok ==> r->Ok_0 == self.scaled(factor) && r->Ok_0.wf(),
    {
        proof {
            lemma_mul_nonnegative(self.width as int, factor as int);
            lemma_mul_nonnegative(self.height as int, factor as int);
            lemma_div_pos_is_pos(self.width * factor, UNIT as int);
            lemma_div_pos_is_pos(self.height * factor, UNIT as int);
            lemma_mul_upper_bound(
                self.width as int,
                UNIT as int,
                factor as int,
                GROWTH_LIMIT as int,
            );
            lemma_mul_upper_bound(
                self.height as int,
                UNIT as int,
                factor as int,
                GROWTH_LIMIT as int,
            );
            lemma_div_is_ordered(
                self.width * factor,
                UNIT * GROWTH_LIMIT,
                UNIT as int,
            );
            lemma_div_is_ordered(
                self.height * factor,
                UNIT * GROWTH_LIMIT,
                UNIT as int,
            );
            lemma_div_multiples_vanish(GROWTH_LIMIT as int, UNIT as int);
        }
        let nw: u64 = (self.width as u64 * factor) / (UNIT as u64);
        let nh: u64 = (self.height as u64 * factor) / (UNIT as u64);
        let w64: u64 = self.width as u64;
        let h64: u64 = self.height as u64;
        let nx: u64 = if nw >= w64 {
            let half: u64 = (nw - w64) / 2;
            if half > self.x as u64 {
                return Err(
                    RelativeRoiError(
                        "`x` value cannot be less than 0 or greater than 1.".to_owned(),
                    ),
                );
            }
            self.x as u64 - half
        } else {
            proof {
                lemma_neg_half((w64 - nw) as int);
            }
            self.x as u64 + (w64 - nw + 1) / 2
        };
        let ny: u64 = if nh >= h64 {
            let half: u64 = (nh - h64) / 2;
            if half > self.y as u64 {
                return Err(
                    RelativeRoiError(
                        "`y` value cannot be less than 0 or greater than 1.".to_owned(),
                    ),
                );
            }
            self.y as u64 - half
        } else {
            proof {
                lemma_neg_half((h64 - nh) as int);
            }
            self.y as u64 + (h64 - nh + 1) / 2
        };
        proof {
            assert(nx == self.scaled_x(factor));
            assert(ny == self.scaled_y(factor));
        }
        Self::build(
            nx as u32,
            ny as u32,
            nw as u32,
            nh as u32,
            self.left_horizontal_buffer,
            self.right_horizontal_buffer,
            self.top_vertical_buffer,
            self.bottom_vertical_buffer,
        )
    }

    /// Scales the region about its own center.  A zero factor is rejected;
    /// a shrink is applied directly (and can fail only if the buffers no
    /// longer fit); a growth request is clamped to the largest factor that
    /// keeps the region inside the frame on all four sides — the smallest
    /// of the four per-margin caps — so growth never exceeds the request
    /// and the result never leaves the frame.
    pub fn scale_rel_safe(&self, scale: u32) -> (r: Result<RelativeRoi, RelativeRoiError>)
        requires
            self.wf(),
        ensures
            scale == 0 ==> r is Err,
            1 <= scale <= UNIT ==> ((r is Ok <==> self.scale_valid(scale as u64)) && (r is Ok
                ==> r->Ok_0 == self.scaled(scale as u64))),
            scale > UNIT ==> r is Ok && r->Ok_0 == self.scaled(self.capped_growth(scale) as u64),
            r is Ok ==> r->Ok_0.wf(),
    {
        if scale == 0 {
            let mut message = "Cannot scale a RelativeRoi by a non-positive number: ".to_owned();
            message.append("0");
            return Err(RelativeRoiError(message));
        }
        if scale <= UNIT {
            return self.scale_rel(scale as u64);
        }
        proof {
            self.lemma_growth_bounds_at_least_unit();
            lemma_mul_upper_bound(
                self.width + 2 * self.x,
                3 * UNIT as int,
                UNIT as int,
                UNIT as int,
            );
            lemma_mul_upper_bound(
                self.width + 2 * (UNIT - self.x - self.width),
                3 * UNIT as int,
                UNIT as int,
                UNIT as int,
            );
            lemma_mul_upper_bound(
                self.height + 2 * self.y,
                3 * UNIT as int,
                UNIT as int,
                UNIT as int,
            );
            lemma_mul_upper_bound(
                self.height + 2 * (UNIT - self.y - self.height),
                3 * UNIT as int,
                UNIT as int,
                UNIT as int,
            );
        }
        let w64: u64 = self.width as u64;
        let h64: u64 = self.height as u64;
        let unit64: u64 = UNIT as u64;
        let left_bound: u64 = ((w64 + 2 * self.x as u64) * unit64) / w64;
        let right_bound: u64 = ((w64 + 2 * (unit64 - self.x as u64 - w64)) * unit64) / w64;
        let top_bound: u64 = ((h64 + 2 * self.y as u64) * unit64) / h64;
        let bottom_bound: u64 = ((h64 + 2 * (unit64 - self.y as u64 - h64)) * unit64) / h64;
        let mut capped: u64 = left_bound;
        if right_bound < capped {
            capped = right_bound;
        }
        if top_bound < capped {
            capped = top_bound;
        }
        if bottom_bound < capped {
            capped = bottom_bound;
        }
        if scale as u64 <= capped {
            capped = scale as u64;
        }
        if capped > GROWTH_LIMIT {
            capped = GROWTH_LIMIT;
        }
        proof {
            assert(capped == self.capped_growth(scale));
            self.lemma_growth_safe(capped);
        }
        self.scale_rel(capped)
    }

    /// Each per-side growth bound admits at least the identity factor, so
    /// any request above it is clamped to a factor between the two.
    proof fn lemma_growth_bounds_at_least_unit(self)
        requires
            self.wf(),
        ensures
            UNIT <= self.growth_bound_left(),
            UNIT <= self.growth_bound_right(),
            UNIT <= self.growth_bound_top(),
            UNIT <= self.growth_bound_bottom(),
            forall|scale: u32|
                scale >= UNIT ==> UNIT <= #[trigger] self.capped_growth(scale) <= GROWTH_LIMIT,
    {
        lemma_one_side_bound_ge_unit(self.width as int, self.x as int);
        lemma_one_side_bound_ge_unit(self.width as int, UNIT - self.x - self.width);
        lemma_one_side_bound_ge_unit(self.height as int, self.y as int);
        lemma_one_side_bound_ge_unit(self.height as int, UNIT - self.y - self.height);
    }

    /// A growth factor under every per-side bound scales the region to one
    /// that still satisfies every construction constraint.
    proof fn lemma_growth_safe(self, factor: u64)
        requires
            self.wf(),
            UNIT <= factor <= GROWTH_LIMIT,
            factor <= self.growth_bound_left(),
            factor <= self.growth_bound_right(),
            factor <= self.growth_bound_top(),
            factor <= self.growth_bound_bottom(),
        ensures
            self.scale_valid(factor),
    {
        lemma_one_side_growth(
            self.width as int,
            self.x as int,
            UNIT - self.x - self.width,
            factor as int,
        );
        lemma_one_side_growth(
            self.height as int,
            self.y as int,
            UNIT - self.y - self.height,
            factor as int,
        );
    }
}

/// With a margin `m` beside a side of length `w`, the per-side growth bound
/// `(w + 2m) * UNIT / w` admits at least the identity factor.
proof fn lemma_one_side_bound_ge_unit(w: int, m: int)
    requires
        1 <= w,
        0 <= m,
    ensures
        UNIT <= (w + 2 * m) * UNIT / w,
{
    lemma_mul_inequality(w, w + 2 * m, UNIT as int);
    lemma_mul_is_commutative(w, UNIT as int);
    lemma_div_is_ordered(UNIT * w, (w + 2 * m) * UNIT, w);
    lemma_div_multiples_vanish(UNIT as int, w);
    lemma_mul_is_commutative(w + 2 * m, UNIT as int);
}

/// Growing one dimension by a factor within both of its margins' bounds
/// keeps the centered result inside `[0, UNIT]`: the new length stays
/// within both margins, the centered start is non-negative and the end does
/// not pass the frame edge.
proof fn lemma_one_side_growth(w: int, lo: int, hi: int, factor: int)
    requires
        1 <= w,
        0 <= lo,
        0 <= hi,
        w + lo + hi == UNIT,
        UNIT <= factor,
        factor <= (w + 2 * lo) * UNIT / w,
        factor <= (w + 2 * hi) * UNIT / w,
    ensures
        w <= w * factor / (UNIT as int),
        0 <= lo - (w * factor / (UNIT as int) - w) / 2,
        lo - (w * factor / (UNIT as int) - w) / 2 + w * factor / (UNIT as int) <= UNIT,
{
    let nw = w * factor / (UNIT as int);
    // the scaled length grows
    assert(w <= nw) by {
        lemma_mul_inequality(UNIT as int, factor, w);
        lemma_mul_is_commutative(UNIT as int, w);
        lemma_mul_is_commutative(w, factor);
        lemma_div_is_ordered(UNIT * w, w * factor, UNIT as int);
        lemma_div_multiples_vanish(w, UNIT as int);
    }
    // the scaled length stays within each margin: nw <= w + 2*m
    assert(nw <= w + 2 * lo) by {
        lemma_one_side_length_bound(w, lo, factor);
    }
    assert(nw <= w + 2 * hi) by {
        lemma_one_side_length_bound(w, hi, factor);
    }
    let t = nw - w;
    // centering eats at most the margin on each side
    lemma_fundamental_div_mod(t, 2);
    lemma_mod_bound(t, 2);
    assert(t / 2 <= lo) by {
        lemma_div_is_ordered(t, 2 * lo, 2);
        lemma_div_multiples_vanish(lo, 2);
    }
    assert(t - t / 2 <= hi) by {
        lemma_div_is_ordered(t, 2 * hi, 2);
        lemma_div_multiples_vanish(hi, 2);
        if t % 2 == 1 {
            assert(t <= 2 * hi - 1);
            lemma_fundamental_div_mod_converse(2 * hi - 1, 2, hi - 1, 1);
            lemma_div_is_ordered(t, 2 * hi - 1, 2);
        }
    }
}

/// A factor within one margin's bound keeps the scaled length within that
/// margin: `w * factor / UNIT <= w + 2 * m`.
proof fn lemma_one_side_length_bound(w: int, m: int, factor: int)
    requires
        1 <= w,
        0 <= m,
        0 <= factor,
        factor <= (w + 2 * m) * UNIT / w,
    ensures
        w * factor / (UNIT as int) <= w + 2 * m,
{
    let cap = (w + 2 * m) * UNIT;
    let bound = cap / w;
    // w * factor <= w * bound <= cap
    lemma_mul_inequality(factor, bound, w);
    lemma_mul_is_commutative(factor, w);
    lemma_mul_is_commutative(bound, w);
    lemma_fundamental_div_mod(cap, w);
    lemma_mod_bound(cap, w);
    assert(w * factor <= cap);
    lemma_div_is_ordered(w * factor, cap, UNIT as int);
    lemma_mul_is_commutative(w + 2 * m, UNIT as int);
    lemma_div_multiples_vanish(w + 2 * m, UNIT as int);
}

/// The applied growth factor never exceeds the request, and on a region
/// already filling most of the frame (each dimension over two thirds of it)
/// it is capped strictly below a doubling request; either way the scaled
/// region still satisfies every construction constraint, staying inside the
/// frame.
pub proof fn lemma_growth_capped_below_request(region: RelativeRoi, scale: u32)
    requires
        region.wf(),
        3 * region.width > 2 * UNIT,
        3 * region.height > 2 * UNIT,
        scale >= 2 * UNIT,
    ensures
        region.capped_growth(scale) < scale,
        region.scale_valid(region.capped_growth(scale) as u64),
{
    let w = region.width as int;
    let x = region.x as int;
    // the left margin alone caps the factor below 2.0
    assert(region.growth_bound_left() < 2 * UNIT) by {
        assert(w + 2 * x < 2 * w);
        vstd::arithmetic::mul::lemma_mul_strict_inequality(w + 2 * x, 2 * w, UNIT as int);
        assert((2 * w) * UNIT == 2 * (w * UNIT)) by {
            vstd::arithmetic::mul::lemma_mul_is_associative(2, w, UNIT as int);
        }
        assert(w * (2 * UNIT) == 2 * (w * UNIT)) by {
            vstd::arithmetic::mul::lemma_mul_is_associative(w, 2, UNIT as int);
            lemma_mul_is_commutative(w, 2);
            vstd::arithmetic::mul::lemma_mul_is_associative(2, w, UNIT as int);
        }
        lemma_multiply_divide_lt((w + 2 * x) * UNIT, w, 2 * UNIT as int);
    }
    region.lemma_growth_bounds_at_least_unit();
    region.lemma_growth_safe(region.capped_growth(scale) as u64);
}

/// Euclidean division by two of a negated non-negative number, phrased over
/// the non-negative magnitude.
proof fn lemma_neg_half(t: int)
    requires
        t >= 0,
    ensures
        (-t) / 2 == -((t + 1) / 2),
{
    lemma_fundamental_div_mod(t + 1, 2);
    lemma_mod_bound(t + 1, 2);
    lemma_fundamental_div_mod_converse(-t, 2, -((t + 1) / 2), 2 * ((t + 1) / 2) - t);
}

/// Centering a length of `w` in a length of `o` keeps it inside.
proof fn lemma_center_within(o: int, w: int)
    requires
        0 <= w <= o,
    ensures
        0 <= (o - w) / 2,
        (o - w) / 2 + w <= o,
{
    let t = o - w;
    lemma_div_pos_is_pos(t, 2);
    lemma_fundamental_div_mod(t, 2);
    lemma_mod_bound(t, 2);
}

/// Scales one fraction to a frame dimension in pixels.
fn scale_frac(frac: u32, size: u32) -> (r: u32)
    requires
        frac <= UNIT,
    ensures
        r == frac_px(frac, size),
        r <= size,
{
    proof {
        lemma_frac_px_bounds(frac, size);
        lemma_mul_upper_bound(frac as int, u32::MAX as int, size as int, u32::MAX as int);
    }
    ((frac as u64 * size as u64) / (UNIT as u64)) as u32
}

} // verus!
