//! Sizes: the window, the texture that holds a frame, and where the frame is drawn.
use vstd::prelude::*;

verus! {

/// A width and a height in pixels.
#[derive(Clone, Copy, Debug, PartialEq, Eq, Structural)]
pub struct Size {
    pub width: u32,
    pub height: u32,
}

/// What the window looks like when it opens.
#[derive(Debug)]
pub struct WindowAttributes {
    pub inner_size: Size,
    pub title: String,
}

/// How the player wants frames to be drawn.
#[derive(Clone, Copy, Debug, PartialEq, Eq, Structural)]
pub struct RenderOptions {
    pub linear_interpolation: bool,
}

/// How a frame is enlarged.
#[derive(Clone, Copy, Debug, PartialEq, Eq, Structural)]
pub enum MagnifySamplerFilter {
    Nearest,
    Linear,
}

/// A rectangle of a texture. `left` and `bottom` give the corner where the coordinates begin.
#[derive(Clone, Copy, Debug, PartialEq, Eq, Structural)]
pub struct Rect {
    pub left: u32,
    pub bottom: u32,
    pub width: u32,
    pub height: u32,
}

/// The part of the window that a texture is drawn on. A negative height turns it upside down.
#[derive(Clone, Copy, Debug, PartialEq, Eq, Structural)]
pub struct BlitTarget {
    pub left: u32,
    pub bottom: u32,
    pub width: i32,
    pub height: i32,
}

impl Default for RenderOptions {
    /// Sharp pixels.
    fn default() -> (res: RenderOptions)
        ensures
            !res.linear_interpolation,
    {
        RenderOptions { linear_interpolation: false }
    }
}

impl Size {
    /// Every pixel becomes a square of `scale` by `scale` pixels.
    pub open spec fn is_scaled(self, original: Size, scale: u32) -> bool {
        &&& self.width == original.width * scale
        &&& self.height == original.height * scale
    }

    /// The size times `scale` is still a size.
    pub open spec fn can_scale(self, scale: u32) -> bool {
        self.width * scale <= u32::MAX && self.height * scale <= u32::MAX
    }

    /// Tells whether the size times `scale` is still a size.
    pub fn scales_by(&self, scale: u32) -> (res: bool)
        ensures
            res == self.can_scale(scale),
            res <==> self.width * scale <= 0xffff_ffff && self.height * scale <= 0xffff_ffff,
    {
        self.width.checked_mul(scale).is_some() && self.height.checked_mul(scale).is_some()
    }
}

impl BlitTarget {
    /// The target is a whole window, seen from its upper left corner downwards: it starts at the
    /// top edge, which is as far up as the window is high, and ends at the bottom edge.
    pub open spec fn covers(self, window: Size) -> bool {
        &&& self.left == 0
        &&& self.left + self.width == window.width
        &&& self.bottom == window.height
        &&& self.bottom + self.height == 0
    }
}

/// The title of the window of a game.
pub open spec fn window_title(romname: Seq<char>) -> Seq<char> {
    "RBoy - "@ + romname
}

/// The title is seven characters followed by the name of the game in full, so that no two games share
/// a title.
pub proof fn title_names_the_game(romname: Seq<char>, other: Seq<char>)
    ensures
        window_title(romname).take(7) == "RBoy - "@,
        window_title(romname).skip(7) == romname,
        window_title(romname) == window_title(other) ==> romname == other,
{
    reveal_strlit("RBoy - ");
    assert(window_title(romname).take(7) =~= "RBoy - "@);
    assert(window_title(romname).skip(7) =~= romname);
    assert(window_title(other).skip(7) =~= other);
}

/// What the window of a game looks like when it opens: as large as the screen of the machine,
/// and titled with the name of the game.
pub fn create_window_builder(romname: &str, screen: Size) -> (res: WindowAttributes)
    ensures
        res.inner_size == screen,
        res.title@ == "RBoy - "@ + romname@,
        res.title@ == window_title(romname@),
{
    WindowAttributes { inner_size: screen, title: "RBoy - ".to_owned().concat(romname) }
}

/// The size in physical pixels of a window that shows the screen at a scale.
pub fn physical_size(screen: Size, scale: u32) -> (res: Size)
    requires
        screen.can_scale(scale),
    ensures
        res.is_scaled(screen, scale),
        res.width == screen.width * scale,
        res.height == screen.height * scale,
{
    Size { width: screen.width * scale, height: screen.height * scale }
}

/// The part of the texture that a frame is written to: all of it.
pub fn texture_rect(screen: Size) -> (res: Rect)
    ensures
        res == (Rect { left: 0, bottom: 0, width: screen.width, height: screen.height }),
{
    Rect { left: 0, bottom: 0, width: screen.width, height: screen.height }
}

/// How a frame is enlarged under the given options.
pub fn interpolation_type(renderoptions: &RenderOptions) -> (res: MagnifySamplerFilter)
    ensures
        res is Linear <==> renderoptions.linear_interpolation,
{
    if renderoptions.linear_interpolation {
        MagnifySamplerFilter::Linear
    } else {
        MagnifySamplerFilter::Nearest
    }
}

/// A 32 bit number read as a signed one.
pub open spec fn as_signed(n: u32) -> int {
    if n < 0x8000_0000 {
        n as int
    } else {
        n - 0x1_0000_0000
    }
}

/// Where a frame is drawn in a window: on all of it. OpenGL counts rows from the bottom and the
/// frame counts them from the top, so the target starts at the top edge and its height is
/// negative.
pub fn blit_target(target_w: u32, target_h: u32) -> (res: BlitTarget)
    requires
        target_h != 0x8000_0000,
    ensures
        res.left == 0,
        res.bottom == target_h,
        res.width == as_signed(target_w),
        res.height == -as_signed(target_h),
        target_w <= i32::MAX && target_h <= i32::MAX ==> res.covers(
            (Size { width: target_w, height: target_h }),
        ),
        res.width == target_w || res.width == target_w - 0x1_0000_0000,
        -res.height == target_h || -res.height == target_h - 0x1_0000_0000,
{
    let width = to_signed(target_w);
    let height = to_signed(target_h);
    BlitTarget { left: 0, bottom: target_h, width, height: -height }
}

/// A window at a scale shows the screen that many times over in both directions. It has a size
/// exactly where both products fit in 32 bits.
pub proof fn scaling_is_multiplication(screen: Size, scale: u32, window: Size)
    ensures
        window.is_scaled(screen, scale) <==> window.width == screen.width * scale && window.height
            == screen.height * scale,
        screen.can_scale(scale) <==> screen.width * scale <= 0xffff_ffff && screen.height * scale
            <= 0xffff_ffff,
{
}

/// Each scale adds one screen in both directions to the one before it, and the first is the screen
/// itself. A screen that can be shown at a scale can be shown at every smaller one.
pub proof fn each_scale_adds_a_screen(screen: Size, scale: u32, smaller: Size, larger: Size)
    requires
        scale < u32::MAX,
        smaller.is_scaled(screen, scale),
        larger.is_scaled(screen, (scale + 1) as u32),
    ensures
        larger.width == smaller.width + screen.width,
        larger.height == smaller.height + screen.height,
        screen.is_scaled(screen, 1),
        screen.can_scale((scale + 1) as u32),
        screen.can_scale(scale),
{
    assert(screen.width * (scale + 1) == screen.width * scale + screen.width) by (nonlinear_arith);
    assert(screen.height * (scale + 1) == screen.height * scale + screen.height)
        by (nonlinear_arith);
}

/// Reading a number as a signed one keeps it where it can be kept, and else takes off the one
/// multiple of two to the power of 32 that makes it fit.
pub proof fn signed_reading_is_exact(n: u32)
    ensures
        -0x8000_0000 <= as_signed(n) < 0x8000_0000,
        as_signed(n) == n || as_signed(n) == n - 0x1_0000_0000,
{
}

/// A target covers a window exactly when it reaches from its left to its right edge, and from its
/// top edge down to its bottom edge.
pub proof fn covering_is_edge_to_edge(target: BlitTarget, window: Size)
    ensures
        target.covers(window) <==> target.left == 0 && target.width == window.width && target.bottom
            == window.height && target.height == -window.height,
{
}

/// Reads a 32 bit number as a signed one.
fn to_signed(n: u32) -> (res: i32)
    ensures
        res == as_signed(n),
{
    let res = n as i32;
    assert(n < 0x8000_0000 ==> n as i32 == n) by (bit_vector);
    assert(n >= 0x8000_0000 ==> n as i32 == n - 0x1_0000_0000) by (bit_vector);
    res
}

} // verus!
