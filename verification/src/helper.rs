//! Geometry shared by every renderer backend.
//!
//! Coordinates are exact integers. The caller picks the unit (whole pixels,
//! or a fixed-point fraction of a pixel); a framebuffer scale is an integer
//! factor from logical units to framebuffer units. Nothing is rounded here,
//! so products are widened instead: `i32` inputs give `i64` rectangles.
//!
//! Take care of the coordinate system: the display [`Rect`] has its y axis
//! going up, a clip rectangle has its y axis going down.

use vstd::prelude::*;

verus! {

/// What can go wrong while a frame is rendered.
#[derive(Debug, Clone, Copy, PartialEq, Eq, Structural)]
pub enum ImGuiRendererError {
    /// A draw command names a texture id that is neither the font atlas
    /// nor registered. It fails that draw call only.
    BadTexture(usize),
    /// A draw command asks for something that is not supported. The
    /// command is skipped and the frame goes on.
    UnsupportedDrawFeature,
    /// The geometry does not fit in a buffer the backend can allocate.
    /// The frame cannot go on.
    BackendAllocationFailure,
}

impl ImGuiRendererError {
    /// Short description of the error.
    pub fn message(&self) -> (text: &'static str)
        ensures
            text@ == (match *self {
                ImGuiRendererError::BadTexture(_) => "bad texture id"@,
                ImGuiRendererError::UnsupportedDrawFeature => "unsupported draw feature"@,
                ImGuiRendererError::BackendAllocationFailure => "backend allocation failure"@,
            }),
    {
        match self {
            ImGuiRendererError::BadTexture(_) => "bad texture id",
            ImGuiRendererError::UnsupportedDrawFeature => "unsupported draw feature",
            ImGuiRendererError::BackendAllocationFailure => "backend allocation failure",
        }
    }

    /// Whether rendering a frame ends with this error. A bad texture id
    /// and an allocation failure end the frame; an unsupported draw feature
    /// is only reported.
    pub open spec fn spec_ends_frame(&self) -> bool {
        !(*self is UnsupportedDrawFeature)
    }

    /// Tells whether rendering a frame ends with this error.
    pub fn ends_frame(&self) -> (ends: bool)
        ensures
            ends == self.spec_ends_frame(),
    {
        match self {
            ImGuiRendererError::UnsupportedDrawFeature => false,
            _ => true,
        }
    }
}

/// Rectangle given by its four edges.
///
/// For a display rectangle the y axis goes up, so `top` is the larger y:
///
/// ```md
///    (up)
///     y
///     ^
///     |
/// ----+---> x (right)
///     |
///     |
/// ```
///
/// For a clip or scissor rectangle the y axis goes down and `top` is the
/// smaller y. `width` and `height` are the same under both conventions.
#[derive(Debug, Clone, Copy, PartialEq, Eq, Structural)]
pub struct Rect {
    pub left: i64,
    pub top: i64,
    pub right: i64,
    pub bottom: i64,
}

/// Distance between two coordinates.
pub open spec fn spec_span(a: i64, b: i64) -> int {
    if a >= b {
        a - b
    } else {
        b - a
    }
}

fn span(a: i64, b: i64) -> (d: u64)
    ensures
        d == spec_span(a, b),
{
    if a >= b {
        (a as i128 - b as i128) as u64
    } else {
        (b as i128 - a as i128) as u64
    }
}

impl Rect {
    /// Horizontal extent.
    pub open spec fn spec_width(&self) -> int {
        spec_span(self.right, self.left)
    }

    /// Vertical extent.
    pub open spec fn spec_height(&self) -> int {
        spec_span(self.top, self.bottom)
    }

    /// The left edge.
    pub fn left(&self) -> (v: i64)
        ensures
            v == self.left,
    {
        self.left
    }

    /// With the y axis going up this is the larger y.
    pub fn top(&self) -> (v: i64)
        ensures
            v == self.top,
    {
        self.top
    }

    /// The right edge.
    pub fn right(&self) -> (v: i64)
        ensures
            v == self.right,
    {
        self.right
    }

    /// With the y axis going up this is the smaller y.
    pub fn bottom(&self) -> (v: i64)
        ensures
            v == self.bottom,
    {
        self.bottom
    }

    /// Horizontal extent, never negative whichever edge is larger.
    pub fn width(&self) -> (w: u64)
        ensures
            w == self.spec_width(),
    {
        span(self.right, self.left)
    }

    /// Vertical extent, never negative under either axis convention.
    pub fn height(&self) -> (h: u64)
        ensures
            h == self.spec_height(),
    {
        span(self.top, self.bottom)
    }
}

/// One coordinate moved by the display offset and scaled: `(raw - offset) * scale`.
pub open spec fn spec_scaled(raw: i32, offset: i32, scale: i32) -> int {
    (raw - offset) * scale
}

/// The product of a difference of two `i32` and an `i32` fits in an `i64`.
pub proof fn lemma_scaled_fits(raw: i32, offset: i32, scale: i32)
    ensures
        i64::MIN < spec_scaled(raw, offset, scale) < i64::MAX,
        spec_scaled(raw, offset, scale) as i64 == spec_scaled(raw, offset, scale),
{
    let d: int = raw - offset;
    let s: int = scale as int;
    assert(-0x8000_0000_0000_0000 < d * s < 0x7fff_ffff_ffff_ffff) by (nonlinear_arith)
        requires
            -0x1_0000_0000 < d < 0x1_0000_0000,
            -0x8000_0000 <= s < 0x8000_0000,
    ;
}

fn scaled(raw: i32, offset: i32, scale: i32) -> (v: i64)
    ensures
        v == spec_scaled(raw, offset, scale),
{
    proof {
        lemma_scaled_fits(raw, offset, scale);
    }
    (raw as i64 - offset as i64) * (scale as i64)
}

/// A clip rectangle `[left, up, right, down]` in framebuffer space: each
/// component moved by the display offset and scaled along its own axis.
pub open spec fn spec_transform_clip_rect(raw: [i32; 4], offset: [i32; 2], scale: [i32; 2]) -> Rect {
    Rect {
        left: spec_scaled(raw[0], offset[0], scale[0]) as i64,
        top: spec_scaled(raw[1], offset[1], scale[1]) as i64,
        right: spec_scaled(raw[2], offset[0], scale[0]) as i64,
        bottom: spec_scaled(raw[3], offset[1], scale[1]) as i64,
    }
}

/// Converts a clip rectangle from logical space into framebuffer space.
///
/// The result keeps the clip rectangle's convention: y goes down, `top` is
/// the upper edge.
pub fn transform_clip_rect(raw: [i32; 4], offset: [i32; 2], scale: [i32; 2]) -> (out: Rect)
    ensures
        out == spec_transform_clip_rect(raw, offset, scale),
        out.left == (raw[0] - offset[0]) * scale[0],
        out.top == (raw[1] - offset[1]) * scale[1],
        out.right == (raw[2] - offset[0]) * scale[0],
        out.bottom == (raw[3] - offset[1]) * scale[1],
{
    Rect {
        left: scaled(raw[0], offset[0], scale[0]),
        top: scaled(raw[1], offset[1], scale[1]),
        right: scaled(raw[2], offset[0], scale[0]),
        bottom: scaled(raw[3], offset[1], scale[1]),
    }
}

/// With no display offset and a scale of one on both axes the transform
/// gives back the clip rectangle it was handed.
pub proof fn lemma_transform_identity(raw: [i32; 4], offset: [i32; 2], scale: [i32; 2])
    requires
        offset[0] == 0 && offset[1] == 0,
        scale[0] == 1 && scale[1] == 1,
    ensures
        spec_transform_clip_rect(raw, offset, scale) == (Rect {
            left: raw[0] as i64,
            top: raw[1] as i64,
            right: raw[2] as i64,
            bottom: raw[3] as i64,
        }),
{
}

/// Size of the framebuffer: the display size scaled per axis.
pub open spec fn spec_framebuffer_size(display_size: [i32; 2], scale: [i32; 2]) -> (int, int) {
    (display_size[0] * scale[0], display_size[1] * scale[1])
}

/// Computes the size of the framebuffer.
pub fn framebuffer_size(display_size: [i32; 2], scale: [i32; 2]) -> (fb: (i64, i64))
    ensures
        fb.0 == spec_framebuffer_size(display_size, scale).0,
        fb.1 == spec_framebuffer_size(display_size, scale).1,
{
    (scaled(display_size[0], 0, scale[0]), scaled(display_size[1], 0, scale[1]))
}

/// A frame is degenerate when its framebuffer has no area, as with a
/// minimized window.
pub open spec fn spec_is_degenerate(fb_width: int, fb_height: int) -> bool {
    fb_width <= 0 || fb_height <= 0
}

/// A transformed clip rectangle lies wholly outside the framebuffer when it
/// starts at or beyond the right or lower edge, or ends before the origin.
pub open spec fn spec_is_culled(clip: Rect, fb_width: int, fb_height: int) -> bool {
    clip.left >= fb_width || clip.top >= fb_height || clip.right < 0 || clip.bottom < 0
}

/// Tells whether a command with this transformed clip rectangle is skipped.
pub fn is_culled(clip: &Rect, fb_width: i64, fb_height: i64) -> (culled: bool)
    ensures
        culled == spec_is_culled(*clip, fb_width as int, fb_height as int),
{
    clip.left >= fb_width || clip.top >= fb_height || clip.right < 0 || clip.bottom < 0
}

/// A clip rectangle entirely to the left of, above, to the right of or
/// below the framebuffer is culled, and one that covers the framebuffer of
/// a frame that is not degenerate is kept.
pub proof fn lemma_outside_is_culled(clip: Rect, fb_width: int, fb_height: int)
    ensures
        clip.right < 0 ==> spec_is_culled(clip, fb_width, fb_height),
        clip.bottom < 0 ==> spec_is_culled(clip, fb_width, fb_height),
        clip.left >= fb_width ==> spec_is_culled(clip, fb_width, fb_height),
        clip.top >= fb_height ==> spec_is_culled(clip, fb_width, fb_height),
        !spec_is_degenerate(fb_width, fb_height) && clip.left <= 0 && clip.top <= 0
            && clip.right >= fb_width && clip.bottom >= fb_height ==> !spec_is_culled(
            clip,
            fb_width,
            fb_height,
        ),
{
}

/// The display rectangle of a frame, y axis going up.
pub open spec fn spec_display_rect(display_pos: [i32; 2], display_size: [i32; 2]) -> Rect {
    Rect {
        left: display_pos[0] as i64,
        right: (display_pos[0] + display_size[0]) as i64,
        top: (display_pos[1] + display_size[1]) as i64,
        bottom: display_pos[1] as i64,
    }
}

/// Computes the display rectangle of a frame.
pub fn display_rect(display_pos: [i32; 2], display_size: [i32; 2]) -> (out: Rect)
    ensures
        out == spec_display_rect(display_pos, display_size),
        out.left == display_pos[0],
        out.right == display_pos[0] + display_size[0],
        out.top == display_pos[1] + display_size[1],
        out.bottom == display_pos[1],
{
    Rect {
        left: display_pos[0] as i64,
        right: display_pos[0] as i64 + display_size[0] as i64,
        top: display_pos[1] as i64 + display_size[1] as i64,
        bottom: display_pos[1] as i64,
    }
}

/// An exact fraction `num / den`. A denominator of zero stands for a
/// division by zero: the fraction then has no value.
#[derive(Debug, Clone, Copy, PartialEq, Eq, Structural)]
pub struct Ratio {
    pub num: i128,
    pub den: i128,
}

/// The whole number `n` as a fraction.
pub open spec fn spec_whole(n: int) -> Ratio {
    Ratio { num: n as i128, den: 1 }
}

/// Entries of the orthographic projection matrix, column by column:
///
/// ```md
/// 2/(r-l)       0             0            0
/// 0             2/(t-b)       0            0
/// 0             0            -2/(f-n)      0
/// -(r+l)/(r-l)  -(t+b)/(t-b)  -(f+n)/(f-n) 1
/// ```
pub open spec fn spec_ortho_mat_gl(
    left: i64,
    right: i64,
    bottom: i64,
    top: i64,
    near: i64,
    far: i64,
) -> [Ratio; 16] {
    [
        Ratio { num: 2, den: (right - left) as i128 },
        spec_whole(0),
        spec_whole(0),
        spec_whole(0),
        spec_whole(0),
        Ratio { num: 2, den: (top - bottom) as i128 },
        spec_whole(0),
        spec_whole(0),
        spec_whole(0),
        spec_whole(0),
        Ratio { num: (-2) as i128, den: (far - near) as i128 },
        spec_whole(0),
        Ratio { num: (-(right + left)) as i128, den: (right - left) as i128 },
        Ratio { num: (-(top + bottom)) as i128, den: (top - bottom) as i128 },
        Ratio { num: (-(far + near)) as i128, den: (far - near) as i128 },
        spec_whole(1),
    ]
}

/// Creates an orthographic projection matrix for OpenGL, as exact
/// fractions in column-major order.
///
/// The arguments are in the OpenGL coordinate system, where the y axis
/// goes up. Swap `bottom` and `top` for a y axis that goes down.
pub fn ortho_mat_gl(left: i64, right: i64, bottom: i64, top: i64, near: i64, far: i64) -> (mat: [Ratio; 16])
    ensures
        mat == spec_ortho_mat_gl(left, right, bottom, top, near, far),
{
    let zero = Ratio { num: 0, den: 1 };
    let one = Ratio { num: 1, den: 1 };
    let dx: i128 = right as i128 - left as i128;
    let dy: i128 = top as i128 - bottom as i128;
    let dz: i128 = far as i128 - near as i128;
    [
        Ratio { num: 2, den: dx },
        zero,
        zero,
        zero,
        zero,
        Ratio { num: 2, den: dy },
        zero,
        zero,
        zero,
        zero,
        Ratio { num: -2, den: dz },
        zero,
        Ratio { num: -(right as i128 + left as i128), den: dx },
        Ratio { num: -(top as i128 + bottom as i128), den: dy },
        Ratio { num: -(far as i128 + near as i128), den: dz },
        one,
    ]
}

/// The projection sends the `left` edge to -1 and the `right` edge to +1,
/// `bottom` to -1 and `top` to +1, and the planes at depth `near` and `far`,
/// which lie at z = -`near` and z = -`far`, to -1 and +1: for each axis
/// `scale * edge + shift` is written over the common denominator.
pub proof fn lemma_ortho_maps_edges(left: i64, right: i64, bottom: i64, top: i64, near: i64, far: i64)
    ensures
        ({
            let m = spec_ortho_mat_gl(left, right, bottom, top, near, far);
            &&& m[0].den == m[12].den && m[5].den == m[13].den && m[10].den == m[14].den
            &&& m[0].num * left + m[12].num == -m[0].den
            &&& m[0].num * right + m[12].num == m[0].den
            &&& m[5].num * bottom + m[13].num == -m[5].den
            &&& m[5].num * top + m[13].num == m[5].den
            &&& m[10].num * (-near) + m[14].num == -m[10].den
            &&& m[10].num * (-far) + m[14].num == m[10].den
        }),
{
    let m = spec_ortho_mat_gl(left, right, bottom, top, near, far);
    assert(m[0].num == 2 && m[0].den == right - left);
    assert(m[12].num == -(right + left) && m[12].den == right - left);
    assert(m[5].num == 2 && m[5].den == top - bottom);
    assert(m[13].num == -(top + bottom) && m[13].den == top - bottom);
    assert(m[10].num == -2 && m[10].den == far - near);
    assert(m[14].num == -(far + near) && m[14].den == far - near);
}

/// Which way the y axis of the projected space goes.
#[derive(Debug, Clone, Copy, PartialEq, Eq, Structural)]
pub enum YAxis {
    /// As in the display [`Rect`]: larger y is further up.
    Up,
    /// As on a screen, and in the vertices of a draw list: larger y is
    /// further down.
    Down,
}

/// The six planes of an orthographic projection.
#[derive(Debug, Clone, Copy, PartialEq, Eq, Structural)]
pub struct ProjectionBounds {
    pub left: i64,
    pub right: i64,
    pub bottom: i64,
    pub top: i64,
    pub near: i64,
    pub far: i64,
}

/// The planes of the projection of a display rectangle, from 0 to 1 in
/// depth. The display rectangle has its y axis going up. Where the space
/// to project has its y axis going down, top and bottom change places.
pub open spec fn spec_projection_bounds(display: Rect, y_axis: YAxis) -> ProjectionBounds {
    ProjectionBounds {
        left: display.left,
        right: display.right,
        bottom: match y_axis {
            YAxis::Up => display.bottom,
            YAxis::Down => display.top,
        },
        top: match y_axis {
            YAxis::Up => display.top,
            YAxis::Down => display.bottom,
        },
        near: 0,
        far: 1,
    }
}

/// Planes of the projection of a display rectangle for a space whose y
/// axis goes the given way.
pub fn projection_bounds(display: &Rect, y_axis: YAxis) -> (bounds: ProjectionBounds)
    ensures
        bounds == spec_projection_bounds(*display, y_axis),
{
    let (bottom, top) = match y_axis {
        YAxis::Up => (display.bottom(), display.top()),
        // Since we want to flip the y axis so that it goes down, we'll swap top and bottom
        YAxis::Down => (display.top(), display.bottom()),
    };
    ProjectionBounds {
        left: display.left(),
        right: display.right(),
        bottom,
        top,
        near: 0,
        far: 1,
    }
}

/// The projection matrix of a display rectangle for a space whose y axis
/// goes the given way.
pub open spec fn spec_projection(display: Rect, y_axis: YAxis) -> [Ratio; 16] {
    let bounds = spec_projection_bounds(display, y_axis);
    spec_ortho_mat_gl(
        bounds.left,
        bounds.right,
        bounds.bottom,
        bounds.top,
        bounds.near,
        bounds.far,
    )
}

/// Creates the projection matrix of a display rectangle.
pub fn projection(display: &Rect, y_axis: YAxis) -> (mat: [Ratio; 16])
    ensures
        mat == spec_projection(*display, y_axis),
{
    let bounds = projection_bounds(display, y_axis);
    ortho_mat_gl(bounds.left, bounds.right, bounds.bottom, bounds.top, bounds.near, bounds.far)
}

/// The projection matrix of a display rectangle for coordinates of which
/// one is as long as `unit` units of the display rectangle: the scales
/// along x and y are `unit` times those of [`spec_projection`], everything
/// else is the same.
pub open spec fn spec_projection_in_units(display: Rect, y_axis: YAxis, unit: u32) -> [Ratio; 16] {
    let bounds = spec_projection_bounds(display, y_axis);
    [
        Ratio { num: (2 * unit) as i128, den: (bounds.right - bounds.left) as i128 },
        spec_whole(0),
        spec_whole(0),
        spec_whole(0),
        spec_whole(0),
        Ratio { num: (2 * unit) as i128, den: (bounds.top - bounds.bottom) as i128 },
        spec_whole(0),
        spec_whole(0),
        spec_whole(0),
        spec_whole(0),
        Ratio { num: (-2) as i128, den: (bounds.far - bounds.near) as i128 },
        spec_whole(0),
        Ratio {
            num: (-(bounds.right + bounds.left)) as i128,
            den: (bounds.right - bounds.left) as i128,
        },
        Ratio {
            num: (-(bounds.top + bounds.bottom)) as i128,
            den: (bounds.top - bounds.bottom) as i128,
        },
        Ratio {
            num: (-(bounds.far + bounds.near)) as i128,
            den: (bounds.far - bounds.near) as i128,
        },
        spec_whole(1),
    ]
}

/// Creates the projection matrix of a display rectangle for coordinates
/// that are `unit` times as coarse as the rectangle's own, such as vertex
/// positions in pixels under a display rectangle in fractions of a pixel.
pub fn projection_in_units(display: &Rect, y_axis: YAxis, unit: u32) -> (mat: [Ratio; 16])
    ensures
        mat == spec_projection_in_units(*display, y_axis, unit),
{
    let mat = projection(display, y_axis);
    let scale: i128 = 2 * (unit as i128);
    [
        Ratio { num: scale, den: mat[0].den },
        mat[1],
        mat[2],
        mat[3],
        mat[4],
        Ratio { num: scale, den: mat[5].den },
        mat[6],
        mat[7],
        mat[8],
        mat[9],
        mat[10],
        mat[11],
        mat[12],
        mat[13],
        mat[14],
        mat[15],
    ]
}

/// With a unit of one the projection is that of the display rectangle's
/// own coordinates. With any unit, a coordinate that lies on the `left`
/// edge of the display goes to -1 and one on the `right` edge to +1, and
/// likewise along y: a coordinate `c` lies at `c * unit` of the display's
/// units, and `scale * c + shift` is written over the common denominator.
pub proof fn lemma_projection_in_units(display: Rect, y_axis: YAxis, unit: u32)
    ensures
        spec_projection_in_units(display, y_axis, 1) == spec_projection(display, y_axis),
        ({
            let m = spec_projection_in_units(display, y_axis, unit);
            let bounds = spec_projection_bounds(display, y_axis);
            &&& m[0].den == m[12].den && m[5].den == m[13].den
            &&& m[0].num * bounds.left + m[12].num * unit == -m[0].den * unit
            &&& m[0].num * bounds.right + m[12].num * unit == m[0].den * unit
            &&& m[5].num * bounds.bottom + m[13].num * unit == -m[5].den * unit
            &&& m[5].num * bounds.top + m[13].num * unit == m[5].den * unit
        }),
{
    let m = spec_projection_in_units(display, y_axis, unit);
    let bounds = spec_projection_bounds(display, y_axis);
    assert(m[0].num == 2 * unit && m[0].den == bounds.right - bounds.left);
    assert(m[12].num == -(bounds.right + bounds.left) && m[12].den == bounds.right - bounds.left);
    assert(m[5].num == 2 * unit && m[5].den == bounds.top - bounds.bottom);
    assert(m[13].num == -(bounds.top + bounds.bottom) && m[13].den == bounds.top - bounds.bottom);
    assert(2 * unit * bounds.left + (-(bounds.right + bounds.left)) * unit == -(bounds.right
        - bounds.left) * unit) by (nonlinear_arith);
    assert(2 * unit * bounds.right + (-(bounds.right + bounds.left)) * unit == (bounds.right
        - bounds.left) * unit) by (nonlinear_arith);
    assert(2 * unit * bounds.bottom + (-(bounds.top + bounds.bottom)) * unit == -(bounds.top
        - bounds.bottom) * unit) by (nonlinear_arith);
    assert(2 * unit * bounds.top + (-(bounds.top + bounds.bottom)) * unit == (bounds.top
        - bounds.bottom) * unit) by (nonlinear_arith);
    assert(spec_projection_in_units(display, y_axis, 1) =~= spec_projection(display, y_axis));
}

/// The two axis conventions differ in the sign of the y scale and of the y
/// shift and in nothing else: with the y axis going down the edge of the
/// display rectangle called `bottom`, the upper one on the screen, goes to
/// +1, and the edge called `top` goes to -1.
pub proof fn lemma_projection_flips_y(display: Rect)
    ensures
        ({
            let up = spec_projection(display, YAxis::Up);
            let down = spec_projection(display, YAxis::Down);
            &&& forall|i: int| 0 <= i < 16 && i != 5 && i != 13 ==> up[i] == down[i]
            &&& down[5].num == up[5].num && down[5].den == -up[5].den
            &&& down[13].num == up[13].num && down[13].den == -up[13].den
            &&& down[5].num * display.bottom + down[13].num == down[5].den
            &&& down[5].num * display.top + down[13].num == -down[5].den
        }),
{
    let up = spec_projection(display, YAxis::Up);
    let down = spec_projection(display, YAxis::Down);
    lemma_ortho_maps_edges(display.left, display.right, display.top, display.bottom, 0, 1);
    assert(up[5].den == display.top - display.bottom);
    assert(down[5].den == display.bottom - display.top);
    assert(up[13].den == display.top - display.bottom);
    assert(down[13].den == display.bottom - display.top);
}

/// Where a backend puts the origin of its scissor rectangles.
#[derive(Debug, Clone, Copy, PartialEq, Eq, Structural)]
pub enum ScissorOrigin {
    /// Upper-left corner of the framebuffer, y going down.
    TopLeft,
    /// Lower-left corner of the framebuffer, y going up.
    BottomLeft,
}

/// A scissor rectangle as a backend takes it: a corner and an extent.
#[derive(Debug, Clone, Copy, PartialEq, Eq, Structural)]
pub struct ScissorBox {
    pub x: i128,
    pub y: i128,
    pub width: i128,
    pub height: i128,
}

/// The scissor box of a clip rectangle in framebuffer space. With the
/// origin at the upper left the corner is the rectangle's own; with the
/// origin at the lower left its lower edge is measured up from the bottom
/// of the framebuffer.
pub open spec fn spec_scissor_box(clip: Rect, fb_height: i64, origin: ScissorOrigin) -> ScissorBox {
    ScissorBox {
        x: clip.left as i128,
        y: match origin {
            ScissorOrigin::TopLeft => clip.top as i128,
            ScissorOrigin::BottomLeft => (fb_height - clip.bottom) as i128,
        },
        width: clip.spec_width() as i128,
        height: clip.spec_height() as i128,
    }
}

/// Turns a transformed clip rectangle into the scissor box of a backend
/// with the given origin.
pub fn scissor_box(clip: &Rect, fb_height: i64, origin: ScissorOrigin) -> (out: ScissorBox)
    ensures
        out == spec_scissor_box(*clip, fb_height, origin),
        out.width >= 0 && out.height >= 0,
{
    ScissorBox {
        x: clip.left as i128,
        y: match origin {
            ScissorOrigin::TopLeft => clip.top as i128,
            ScissorOrigin::BottomLeft => fb_height as i128 - clip.bottom as i128,
        },
        width: clip.width() as i128,
        height: clip.height() as i128,
    }
}

/// A coordinate moved up to zero where it lies below.
pub open spec fn spec_at_least_zero(v: int) -> int {
    if v < 0 {
        0
    } else {
        v
    }
}

/// The part of the scissor box of a clip rectangle that lies at or beyond
/// the origin along both axes, for a backend that takes no negative
/// corner: the corner moves up to the origin and the extent shrinks by as
/// much, down to nothing.
pub open spec fn spec_scissor_box_from_origin(clip: Rect, fb_height: i64, origin: ScissorOrigin) -> ScissorBox {
    let whole = spec_scissor_box(clip, fb_height, origin);
    ScissorBox {
        x: spec_at_least_zero(whole.x as int) as i128,
        y: spec_at_least_zero(whole.y as int) as i128,
        width: (spec_at_least_zero(whole.x + whole.width) - spec_at_least_zero(
            whole.x as int,
        )) as i128,
        height: (spec_at_least_zero(whole.y + whole.height) - spec_at_least_zero(
            whole.y as int,
        )) as i128,
    }
}

fn at_least_zero(v: i128) -> (out: i128)
    ensures
        out == spec_at_least_zero(v as int),
{
    if v < 0 {
        0
    } else {
        v
    }
}

/// Turns a transformed clip rectangle into the scissor box of a backend
/// with the given origin that takes no negative corner.
pub fn scissor_box_from_origin(clip: &Rect, fb_height: i64, origin: ScissorOrigin) -> (out: ScissorBox)
    ensures
        out == spec_scissor_box_from_origin(*clip, fb_height, origin),
        out.x >= 0 && out.y >= 0 && out.width >= 0 && out.height >= 0,
{
    let whole = scissor_box(clip, fb_height, origin);
    let x: i128 = at_least_zero(whole.x);
    let y: i128 = at_least_zero(whole.y);
    ScissorBox {
        x,
        y,
        width: at_least_zero(whole.x + whole.width) - x,
        height: at_least_zero(whole.y + whole.height) - y,
    }
}

/// Parameters of a draw command that draws triangles.
#[derive(Debug, Clone, Copy, PartialEq, Eq)]
pub struct DrawCmdParams {
    /// left, up, right, down; y goes down
    pub clip_rect: [i32; 4],
    pub texture_id: usize,
    pub vtx_offset: usize,
    pub idx_offset: usize,
}

/// One instruction of a draw list.
#[derive(Debug, Clone, Copy, PartialEq, Eq)]
pub enum DrawCmd {
    /// Draw `count` indices' worth of triangles.
    Elements { count: usize, cmd_params: DrawCmdParams },
    /// Asks the renderer to reset its render state. Not supported.
    ResetRenderState,
    /// A callback of the user's, to be invoked in place of a draw.
    RawCallback,
}

/// Geometry and commands of one drawing surface. The vertices and indices
/// stay with the GUI library; only their numbers are needed here.
#[derive(Debug, Clone, PartialEq, Eq)]
pub struct DrawList {
    pub vtx_count: usize,
    pub idx_count: usize,
    pub commands: Vec<DrawCmd>,
}

/// All draw data of one frame.
#[derive(Debug, Clone, PartialEq, Eq)]
pub struct DrawData {
    /// Upper-left position of the viewport to render.
    pub display_pos: [i32; 2],
    /// Size of the viewport to render.
    pub display_size: [i32; 2],
    /// Framebuffer units per unit of `display_size`, per axis.
    pub framebuffer_scale: [i32; 2],
    /// How many units of `display_pos`, `display_size` and the clip
    /// rectangles make one unit of the vertices' positions: 1 where they
    /// are in the same unit, 256 where they count 256ths of it.
    pub unit: u32,
    pub draw_lists: Vec<DrawList>,
}

/// A vertex or index buffer of the frame: the draw list that owns it and
/// the number of its elements.
#[derive(Debug, Clone, Copy, PartialEq, Eq, Structural)]
pub struct BufferRef {
    pub list: usize,
    pub len: usize,
}

/// Context and parameters for making a draw call.
#[derive(Debug, Clone, Copy, PartialEq, Eq, Structural)]
pub struct DrawParams {
    /// Display [`Rect`]. Can be used for calculating orthographic
    /// projection matrix.
    pub display: Rect,
    /// Vertex buffer for multiple draw calls.
    pub vtx_buffer: BufferRef,
    /// Vertex offset for this draw call.
    pub vtx_offset: usize,
    /// Index buffer for multiple draw calls.
    pub idx_buffer: BufferRef,
    /// Index offset for this draw call.
    pub idx_offset: usize,
    /// Number of indices for this draw call.
    pub n_elems: usize,
    /// Texture ID.
    pub tex_id: usize,
    /// Scissor rectangle: the clip rectangle in framebuffer space, y going
    /// down.
    pub scissor: Rect,
    /// Width of the framebuffer.
    pub fb_width: i64,
    /// Height of the framebuffer, for backends whose scissor y goes up.
    pub fb_height: i64,
    /// How many units of the display rectangle make one unit of the
    /// vertices' positions.
    pub unit: u32,
}

/// What one step through the commands of a frame comes upon.
#[derive(Debug, Clone, Copy, PartialEq, Eq, Structural)]
pub enum DrawEvent {
    /// A visible draw command, ready to be drawn.
    Draw(DrawParams),
    /// A command that is not supported and was skipped: to be reported.
    Unsupported { list: usize, cmd: usize },
    /// A callback command: to be invoked now, before the walk goes on.
    Callback { list: usize, cmd: usize },
}

impl DrawEvent {
    /// What there is to report of this event: an unsupported draw feature
    /// for a command that was skipped because it is not supported, nothing
    /// for a draw or a callback.
    pub fn diagnostic(&self) -> (report: Option<ImGuiRendererError>)
        ensures
            report == (if *self is Unsupported {
                Some(ImGuiRendererError::UnsupportedDrawFeature)
            } else {
                None
            }),
    {
        match self {
            DrawEvent::Unsupported { .. } => Some(ImGuiRendererError::UnsupportedDrawFeature),
            _ => None,
        }
    }
}

impl DrawData {
    /// Framebuffer size of the frame.
    pub open spec fn spec_fb_size(&self) -> (int, int) {
        spec_framebuffer_size(self.display_size, self.framebuffer_scale)
    }

    /// A frame without framebuffer area draws nothing.
    pub open spec fn spec_is_degenerate(&self) -> bool {
        spec_is_degenerate(self.spec_fb_size().0, self.spec_fb_size().1)
    }

    /// What the command `cmd` of draw list `list` gives rise to: a draw if
    /// it draws triangles and is not culled, an event of its own kind if it
    /// is one of the other two commands, nothing if it is culled.
    pub open spec fn spec_command_event(&self, list: int, cmd: int) -> Option<DrawEvent> {
        let draw_list = self.draw_lists[list];
        match draw_list.commands[cmd] {
            DrawCmd::Elements { count, cmd_params } => {
                let clip = spec_transform_clip_rect(
                    cmd_params.clip_rect,
                    self.display_pos,
                    self.framebuffer_scale,
                );
                if spec_is_culled(clip, self.spec_fb_size().0, self.spec_fb_size().1) {
                    None
                } else {
                    Some(
                        DrawEvent::Draw(
                            DrawParams {
                                display: spec_display_rect(self.display_pos, self.display_size),
                                vtx_buffer: BufferRef {
                                    list: list as usize,
                                    len: draw_list.vtx_count,
                                },
                                vtx_offset: cmd_params.vtx_offset,
                                idx_buffer: BufferRef {
                                    list: list as usize,
                                    len: draw_list.idx_count,
                                },
                                idx_offset: cmd_params.idx_offset,
                                n_elems: count,
                                tex_id: cmd_params.texture_id,
                                scissor: clip,
                                fb_width: self.spec_fb_size().0 as i64,
                                fb_height: self.spec_fb_size().1 as i64,
                                unit: self.unit,
                            },
                        ),
                    )
                }
            },
            DrawCmd::ResetRenderState => Some(
                DrawEvent::Unsupported { list: list as usize, cmd: cmd as usize },
            ),
            DrawCmd::RawCallback => Some(
                DrawEvent::Callback { list: list as usize, cmd: cmd as usize },
            ),
        }
    }

    /// The events of the commands from command `cmd` of draw list `list`
    /// on, list by list and command by command.
    pub open spec fn spec_events_from(&self, list: int, cmd: int) -> Seq<DrawEvent>
        decreases self.draw_lists.len() - list, self.draw_lists[list].commands.len() - cmd,
    {
        if list < 0 || cmd < 0 || list >= self.draw_lists.len() {
            Seq::empty()
        } else if cmd >= self.draw_lists[list].commands.len() {
            self.spec_events_from(list + 1, 0)
        } else {
            match self.spec_command_event(list, cmd) {
                Some(event) => seq![event] + self.spec_events_from(list, cmd + 1),
                None => self.spec_events_from(list, cmd + 1),
            }
        }
    }

    /// All events of the frame, in order. A degenerate frame has none.
    pub open spec fn spec_events(&self) -> Seq<DrawEvent> {
        if self.spec_is_degenerate() {
            Seq::empty()
        } else {
            self.spec_events_from(0, 0)
        }
    }

    /// All draw calls of the frame, in order.
    pub open spec fn spec_draws(&self) -> Seq<DrawParams> {
        spec_draws_of(self.spec_events())
    }
}

/// The draws among a sequence of events, in order.
pub open spec fn spec_draws_of(events: Seq<DrawEvent>) -> Seq<DrawParams>
    decreases events.len(),
{
    if events.len() == 0 {
        Seq::empty()
    } else {
        match events[0] {
            DrawEvent::Draw(params) => seq![params] + spec_draws_of(events.skip(1)),
            _ => spec_draws_of(events.skip(1)),
        }
    }
}

/// The draws of an event followed by more events.
pub proof fn lemma_draws_of_push_front(event: DrawEvent, rest: Seq<DrawEvent>)
    ensures
        spec_draws_of(seq![event] + rest) == (match event {
            DrawEvent::Draw(params) => seq![params] + spec_draws_of(rest),
            _ => spec_draws_of(rest),
        }),
{
    let all = seq![event] + rest;
    assert(all.skip(1) =~= rest);
    assert(all[0] == event);
}

/// A degenerate frame has no events and no draw calls, whatever its draw
/// lists hold.
pub proof fn lemma_degenerate_frame_is_empty(data: DrawData)
    requires
        data.spec_is_degenerate(),
    ensures
        data.spec_events().len() == 0,
        data.spec_draws().len() == 0,
{
}

/// A display that is not wider or not higher than zero makes a degenerate
/// frame, which draws nothing. The framebuffer scale must not be negative:
/// a negative scale turns a negative size into a positive one.
pub proof fn lemma_empty_display_draws_nothing(data: DrawData)
    requires
        data.display_size[0] <= 0 || data.display_size[1] <= 0,
        data.framebuffer_scale[0] >= 0,
        data.framebuffer_scale[1] >= 0,
    ensures
        data.spec_is_degenerate(),
        data.spec_events().len() == 0,
        data.spec_draws().len() == 0,
{
    let w: int = data.display_size[0] as int;
    let h: int = data.display_size[1] as int;
    let sx: int = data.framebuffer_scale[0] as int;
    let sy: int = data.framebuffer_scale[1] as int;
    assert(w <= 0 && sx >= 0 ==> w * sx <= 0) by (nonlinear_arith);
    assert(h <= 0 && sy >= 0 ==> h * sy <= 0) by (nonlinear_arith);
}

/// A draw command whose transformed clip rectangle lies outside the
/// framebuffer takes no part in the frame: the events from it on are those
/// from the command after it. One that is not culled comes first among the
/// events from it on, as a draw with its own offsets, count and texture id
/// and with the transformed clip rectangle as its scissor rectangle.
pub proof fn lemma_culled_command_is_skipped(data: DrawData, list: int, cmd: int)
    requires
        0 <= list < data.draw_lists.len(),
        0 <= cmd < data.draw_lists[list].commands.len(),
        data.draw_lists[list].commands[cmd] is Elements,
    ensures
        ({
            let params = data.draw_lists[list].commands[cmd]->cmd_params;
            let clip = spec_transform_clip_rect(
                params.clip_rect,
                data.display_pos,
                data.framebuffer_scale,
            );
            let from_here = data.spec_events_from(list, cmd);
            if spec_is_culled(clip, data.spec_fb_size().0, data.spec_fb_size().1) {
                from_here == data.spec_events_from(list, cmd + 1)
            } else {
                &&& from_here.len() > 0
                &&& from_here[0] matches DrawEvent::Draw(draw)
                &&& draw.scissor == clip
                &&& draw.tex_id == params.texture_id
                &&& draw.vtx_offset == params.vtx_offset
                &&& draw.idx_offset == params.idx_offset
                &&& draw.n_elems == data.draw_lists[list].commands[cmd]->count
                &&& from_here.skip(1) == data.spec_events_from(list, cmd + 1)
            }
        }),
{
    let from_here = data.spec_events_from(list, cmd);
    let rest = data.spec_events_from(list, cmd + 1);
    if data.spec_command_event(list, cmd) is Some {
        assert(from_here.skip(1) =~= rest);
    }
}

impl DrawData {
    /// Number of commands from command `cmd` of draw list `list` on.
    pub open spec fn spec_commands_from(&self, list: int, cmd: int) -> nat
        decreases self.draw_lists.len() - list, self.draw_lists[list].commands.len() - cmd,
    {
        if list < 0 || cmd < 0 || list >= self.draw_lists.len() {
            0
        } else if cmd >= self.draw_lists[list].commands.len() {
            self.spec_commands_from(list + 1, 0)
        } else {
            1 + self.spec_commands_from(list, cmd + 1)
        }
    }
}

/// The walk is finite: there are no more events than commands, and no
/// more draw calls than events.
pub proof fn lemma_events_are_bounded(data: DrawData, list: int, cmd: int)
    ensures
        data.spec_events_from(list, cmd).len() <= data.spec_commands_from(list, cmd),
        spec_draws_of(data.spec_events_from(list, cmd)).len() <= data.spec_events_from(
            list,
            cmd,
        ).len(),
    decreases data.draw_lists.len() - list, data.draw_lists[list].commands.len() - cmd,
{
    lemma_draws_are_bounded(data.spec_events_from(list, cmd));
    if list < 0 || cmd < 0 || list >= data.draw_lists.len() {
    } else if cmd >= data.draw_lists[list].commands.len() {
        lemma_events_are_bounded(data, list + 1, 0);
    } else {
        lemma_events_are_bounded(data, list, cmd + 1);
    }
}

/// There are no more draw calls among events than events.
pub proof fn lemma_draws_are_bounded(events: Seq<DrawEvent>)
    ensures
        spec_draws_of(events).len() <= events.len(),
    decreases events.len(),
{
    if events.len() > 0 {
        lemma_draws_are_bounded(events.skip(1));
    }
}

/// Iterator of [`DrawParams`]: walks the draw lists of a frame once, in
/// order, and skips what is culled.
pub struct DrawParamsIterator<'a> {
    fb_width: i64,
    fb_height: i64,
    display_rect: Rect,
    data: &'a DrawData,
    list: usize,
    cmd: usize,
}

impl<'a> DrawParamsIterator<'a> {
    /// The frame that is walked.
    pub closed spec fn data(&self) -> DrawData {
        *self.data
    }

    /// The events still to come.
    pub closed spec fn remaining_events(&self) -> Seq<DrawEvent> {
        self.data.spec_events_from(self.list as int, self.cmd as int)
    }

    /// The draw calls still to come.
    pub open spec fn remaining(&self) -> Seq<DrawParams> {
        spec_draws_of(self.remaining_events())
    }

    /// The walk stands at a command of the frame or at the end of a draw
    /// list, and knows the frame's framebuffer size and display rectangle.
    pub closed spec fn wf(&self) -> bool {
        &&& self.fb_width == self.data.spec_fb_size().0
        &&& self.fb_height == self.data.spec_fb_size().1
        &&& self.display_rect == spec_display_rect(self.data.display_pos, self.data.display_size)
        &&& self.list <= self.data.draw_lists.len()
        &&& self.list < self.data.draw_lists.len() ==> self.cmd
            <= self.data.draw_lists[self.list as int].commands.len()
    }

    /// Starts the walk at the first command of the first draw list. Over a
    /// degenerate frame the walk is over before it starts.
    pub fn new(data: &'a DrawData) -> (iter: Self)
        ensures
            iter.wf(),
            iter.data() == *data,
            iter.remaining_events() == data.spec_events(),
            iter.remaining() == data.spec_draws(),
    {
        let (fb_width, fb_height) = framebuffer_size(data.display_size, data.framebuffer_scale);
        let display_rect = display_rect(data.display_pos, data.display_size);
        let list: usize = if fb_width <= 0 || fb_height <= 0 {
            data.draw_lists.len()
        } else {
            0
        };
        DrawParamsIterator { fb_width, fb_height, display_rect, data, list, cmd: 0 }
    }

    /// Steps to the next event of the frame: the next command that is not
    /// a culled draw. `None` when the commands are used up, and from then
    /// on.
    pub fn next_event(&mut self) -> (event: Option<DrawEvent>)
        requires
            old(self).wf(),
        ensures
            final(self).wf(),
            final(self).data() == old(self).data(),
            match event {
                Some(e) => old(self).remaining_events() == seq![e] + final(self).remaining_events(),
                None => old(self).remaining_events().len() == 0
                    && final(self).remaining_events().len() == 0,
            },
    {
        let data: &'a DrawData = self.data;
        loop
            invariant
                self.wf(),
                self.data == data,
                data == old(self).data,
                self.remaining_events() == old(self).remaining_events(),
            decreases
                data.draw_lists.len() - self.list,
                if self.list < data.draw_lists.len() {
                    data.draw_lists[self.list as int].commands.len() - self.cmd
                } else {
                    0
                },
        {
            if self.list >= data.draw_lists.len() {
                return None;
            }
            let draw_list: &DrawList = &data.draw_lists[self.list];
            if self.cmd >= draw_list.commands.len() {
                self.list = self.list + 1;
                self.cmd = 0;
                continue ;
            }
            let list: usize = self.list;
            let cmd: usize = self.cmd;
            self.cmd = cmd + 1;
            match draw_list.commands[cmd] {
                DrawCmd::Elements { count, cmd_params } => {
                    let clip = transform_clip_rect(
                        cmd_params.clip_rect,
                        data.display_pos,
                        data.framebuffer_scale,
                    );
                    if !is_culled(&clip, self.fb_width, self.fb_height) {
                        return Some(
                            DrawEvent::Draw(
                                DrawParams {
                                    display: self.display_rect,
                                    vtx_buffer: BufferRef { list, len: draw_list.vtx_count },
                                    vtx_offset: cmd_params.vtx_offset,
                                    idx_buffer: BufferRef { list, len: draw_list.idx_count },
                                    idx_offset: cmd_params.idx_offset,
                                    n_elems: count,
                                    tex_id: cmd_params.texture_id,
                                    scissor: clip,
                                    fb_width: self.fb_width,
                                    fb_height: self.fb_height,
                                    unit: data.unit,
                                },
                            ),
                        );
                    }
                },
                DrawCmd::ResetRenderState => {
                    return Some(DrawEvent::Unsupported { list, cmd });
                },
                DrawCmd::RawCallback => {
                    return Some(DrawEvent::Callback { list, cmd });
                },
            }
        }
    }

    /// The next draw call of the frame, or `None` when there is no more.
    /// Commands that are culled, not supported or callbacks are passed
    /// over.
    pub fn next(&mut self) -> (params: Option<DrawParams>)
        requires
            old(self).wf(),
        ensures
            final(self).wf(),
            final(self).data() == old(self).data(),
            match params {
                Some(p) => old(self).remaining() == seq![p] + final(self).remaining(),
                None => old(self).remaining().len() == 0 && final(self).remaining().len() == 0,
            },
    {
        loop
            invariant
                self.wf(),
                self.data() == old(self).data(),
                self.remaining() == old(self).remaining(),
            decreases self.remaining_events().len(),
        {
            match self.next_event() {
                Some(event) => {
                    proof {
                        lemma_draws_of_push_front(event, self.remaining_events());
                    }
                    if let DrawEvent::Draw(params) = event {
                        return Some(params);
                    }
                },
                None => {
                    return None;
                },
            }
        }
    }
}

impl DrawData {
    /// All events of the frame, in order.
    pub fn events(&self) -> (events: Vec<DrawEvent>)
        ensures
            events@ == self.spec_events(),
    {
        let mut events: Vec<DrawEvent> = Vec::new();
        let mut iter = DrawParamsIterator::new(self);
        loop
            invariant
                iter.wf(),
                self.spec_events() == events@ + iter.remaining_events(),
            decreases iter.remaining_events().len(),
        {
            let ghost done = events@;
            match iter.next_event() {
                Some(event) => {
                    events.push(event);
                    assert(events@ + iter.remaining_events() =~= done + (seq![event]
                        + iter.remaining_events()));
                },
                None => {
                    assert(events@ + iter.remaining_events() =~= events@);
                    return events;
                },
            }
        }
    }

    /// All draw calls of the frame, in order.
    pub fn draws(&self) -> (draws: Vec<DrawParams>)
        ensures
            draws@ == self.spec_draws(),
    {
        let mut draws: Vec<DrawParams> = Vec::new();
        let mut iter = DrawParamsIterator::new(self);
        loop
            invariant
                iter.wf(),
                self.spec_draws() == draws@ + iter.remaining(),
            decreases iter.remaining().len(),
        {
            let ghost done = draws@;
            match iter.next() {
                Some(params) => {
                    draws.push(params);
                    assert(draws@ + iter.remaining() =~= done + (seq![params] + iter.remaining()));
                },
                None => {
                    assert(draws@ + iter.remaining() =~= draws@);
                    return draws;
                },
            }
        }
    }
}

} // verus!
