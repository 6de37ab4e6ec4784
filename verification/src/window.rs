//! The coordinate resolver.
//!
//! A window reports its metrics in device-independent pixels together with a
//! scale factor (the pixel density of the display). Composition works in
//! device pixels. This module computes the device-pixel rectangles — window,
//! screen, framebuffer, viewport and the layout size the scene is authored in
//! — from those raw metrics, and the flipped viewport used when the graphics
//! API's origin convention is bottom-left.
//!
//! The scale factor is a positive rational `num / den`; every conversion to
//! device pixels multiplies by it and truncates toward zero, and the layout
//! size divides by it and truncates the same way, so the viewport and the
//! framebuffer can never disagree by a rounding direction.

use vstd::arithmetic::div_mod::{lemma_div_of0, lemma_div_pos_is_pos};
use vstd::arithmetic::mul::{lemma_mul_nonnegative, lemma_mul_upper_bound};
use vstd::prelude::*;

verus! {

/// A scale from device-independent pixels to device pixels, held exactly as a
/// positive rational `num / den` (a factor of 1.5 is `Scale { num: 3, den: 2 }`).
#[derive(Clone, Copy, PartialEq, Eq, Structural, Debug)]
pub struct Scale {
    pub num: u32,
    pub den: u32,
}

impl Scale {
    /// Both parts positive: the factor is a well-defined positive rational.
    pub open spec fn wf(&self) -> bool {
        self.num > 0 && self.den > 0
    }
}

/// `x` device-independent pixels in device pixels under `s`: scaled by
/// `num / den` and truncated (all pixel quantities are non-negative, so
/// truncation toward zero and flooring agree).
pub open spec fn scale_to_device(x: int, s: Scale) -> int {
    (x * (s.num as int)) / (s.den as int)
}

/// `x` device pixels in device-independent (layout) pixels under `s`:
/// divided by `num / den` and truncated the same way.
pub open spec fn scale_to_layout(x: int, s: Scale) -> int {
    (x * (s.den as int)) / (s.num as int)
}

/// A size in whole device pixels.
#[derive(Clone, Copy, PartialEq, Eq, Structural, Debug)]
pub struct DeviceIntSize {
    pub width: i32,
    pub height: i32,
}

/// A position in whole device pixels.
#[derive(Clone, Copy, PartialEq, Eq, Structural, Debug)]
pub struct DeviceIntPoint {
    pub x: i32,
    pub y: i32,
}

/// An axis-aligned rectangle in whole device pixels.
#[derive(Clone, Copy, PartialEq, Eq, Structural, Debug)]
pub struct DeviceIntRect {
    pub origin: DeviceIntPoint,
    pub size: DeviceIntSize,
}

/// A size in layout (device-independent) pixels, the space the scene strategy
/// authors content in.
#[derive(Clone, Copy, PartialEq, Eq, Structural, Debug)]
pub struct LayoutSize {
    pub width: i32,
    pub height: i32,
}

/// `r` lies within the rectangle spanned by `size` at the origin: composition
/// may clear `r` without touching pixels outside a framebuffer of that size.
pub open spec fn rect_contained_in(r: DeviceIntRect, size: DeviceIntSize) -> bool {
    &&& 0 <= r.origin.x
    &&& 0 <= r.origin.y
    &&& r.origin.x + r.size.width <= size.width
    &&& r.origin.y + r.size.height <= size.height
}

/// The y origin of a rectangle after flipping it to a bottom-left origin
/// convention within a framebuffer `fb_height` device pixels tall.
pub open spec fn flip_origin_y(fb_height: int, y: int, h: int) -> int {
    fb_height - y - h
}

/// Flipping a y origin twice with the same framebuffer height returns the
/// original y origin: the flip is an involution.
pub proof fn lemma_flip_involutive(fb_height: int, y: int, h: int)
    ensures
        flip_origin_y(fb_height, flip_origin_y(fb_height, y, h), h) == y,
{
}

/// `rect` with its y origin flipped to a bottom-left origin convention within
/// a framebuffer `fb_height` device pixels tall. Recomputed from the current
/// height each time it is needed; never cached.
pub fn flip_rect(rect: &DeviceIntRect, fb_height: i32) -> (r: DeviceIntRect)
    requires
        i32::MIN <= flip_origin_y(fb_height as int, rect.origin.y as int, rect.size.height as int)
            <= i32::MAX,
    ensures
        r.origin.x == rect.origin.x,
        r.origin.y as int == flip_origin_y(
            fb_height as int,
            rect.origin.y as int,
            rect.size.height as int,
        ),
        r.size == rect.size,
{
    let flipped_y: i64 = fb_height as i64 - rect.origin.y as i64 - rect.size.height as i64;
    DeviceIntRect {
        origin: DeviceIntPoint { x: rect.origin.x, y: flipped_y as i32 },
        size: rect.size,
    }
}

/// The device-pixel coordinates an embedder works with, recomputed from the
/// current window metrics on every iteration that could have resized the
/// window, and never persisted.
#[derive(Clone, Copy, PartialEq, Eq, Debug)]
pub struct EmbedderCoordinates {
    /// The pixel density of the display.
    pub hidpi_factor: Scale,
    /// Size of the screen, in device pixels.
    pub screen: DeviceIntSize,
    /// Size and position of the native window, in device pixels.
    pub window: (DeviceIntSize, DeviceIntPoint),
    /// Size of the GL buffer in the window, in device pixels.
    pub framebuffer: DeviceIntSize,
    /// Coordinates of the document within the framebuffer: origin at zero,
    /// size equal to the framebuffer.
    pub viewport: DeviceIntRect,
    /// The framebuffer size divided by the scale factor: the space the scene
    /// is laid out in.
    pub layout: LayoutSize,
}

impl EmbedderCoordinates {
    /// The invariants resolution establishes: the viewport sits at the origin
    /// and fills the framebuffer, and the layout size is the framebuffer size
    /// divided by the scale factor.
    pub open spec fn wf(&self) -> bool {
        &&& self.hidpi_factor.wf()
        &&& self.framebuffer.width >= 0
        &&& self.framebuffer.height >= 0
        &&& self.viewport.origin.x == 0
        &&& self.viewport.origin.y == 0
        &&& self.viewport.size == self.framebuffer
        &&& self.layout.width as int == scale_to_layout(
            self.framebuffer.width as int,
            self.hidpi_factor,
        )
        &&& self.layout.height as int == scale_to_layout(
            self.framebuffer.height as int,
            self.hidpi_factor,
        )
    }

    /// The viewport flipped to a bottom-left origin convention, recomputed
    /// from the current framebuffer height. The result never exceeds the
    /// framebuffer, so a clear scissored to it touches no pixel outside a
    /// framebuffer-sized surface — in particular it is a valid no-op when the
    /// framebuffer has zero area.
    pub fn get_flipped_viewport(&self) -> (r: DeviceIntRect)
        requires
            self.wf(),
        ensures
            r.origin.x == self.viewport.origin.x,
            r.origin.y as int == flip_origin_y(
                self.framebuffer.height as int,
                self.viewport.origin.y as int,
                self.viewport.size.height as int,
            ),
            r.size == self.viewport.size,
            rect_contained_in(r, self.framebuffer),
    {
        flip_rect(&self.viewport, self.framebuffer.height)
    }

    /// The layout size, recomputed from the current viewport and scale factor
    /// as composition must. Equal to the resolved `layout` field by the
    /// well-formedness invariant.
    pub fn get_layout_size(&self) -> (l: LayoutSize)
        requires
            self.wf(),
        ensures
            l == self.layout,
    {
        LayoutSize {
            width: layout_px(self.viewport.size.width, &self.hidpi_factor),
            height: layout_px(self.viewport.size.height, &self.hidpi_factor),
        }
    }
}

/// The raw metrics the windowing layer reports for one window, all in
/// device-independent pixels. Non-negative by construction; a zero inner size
/// (a minimized window) is valid and resolves to a zero-area framebuffer.
#[derive(Clone, Copy, PartialEq, Eq, Debug)]
pub struct WindowMetrics {
    /// The pixel density of the display.
    pub hidpi_factor: Scale,
    /// Outer size of the native window.
    pub outer_size: (u32, u32),
    /// Position of the native window.
    pub position: (u32, u32),
    /// Inner (client-area) size of the window.
    pub inner_size: (u32, u32),
    /// Size of the screen.
    pub screen_size: (u32, u32),
}

impl WindowMetrics {
    /// The scale factor is well formed and every scaled quantity fits in a
    /// device-pixel coordinate.
    pub open spec fn wf(&self) -> bool {
        &&& self.hidpi_factor.wf()
        &&& scale_to_device(self.outer_size.0 as int, self.hidpi_factor) <= i32::MAX
        &&& scale_to_device(self.outer_size.1 as int, self.hidpi_factor) <= i32::MAX
        &&& scale_to_device(self.position.0 as int, self.hidpi_factor) <= i32::MAX
        &&& scale_to_device(self.position.1 as int, self.hidpi_factor) <= i32::MAX
        &&& scale_to_device(self.inner_size.0 as int, self.hidpi_factor) <= i32::MAX
        &&& scale_to_device(self.inner_size.1 as int, self.hidpi_factor) <= i32::MAX
        &&& scale_to_device(self.screen_size.0 as int, self.hidpi_factor) <= i32::MAX
        &&& scale_to_device(self.screen_size.1 as int, self.hidpi_factor) <= i32::MAX
        &&& scale_to_layout(
            scale_to_device(self.inner_size.0 as int, self.hidpi_factor),
            self.hidpi_factor,
        ) <= i32::MAX
        &&& scale_to_layout(
            scale_to_device(self.inner_size.1 as int, self.hidpi_factor),
            self.hidpi_factor,
        ) <= i32::MAX
    }
}

/// `x` device-independent pixels in device pixels, truncated.
fn device_px(x: u32, s: &Scale) -> (r: i32)
    requires
        s.wf(),
        scale_to_device(x as int, *s) <= i32::MAX,
    ensures
        r as int == scale_to_device(x as int, *s),
        r >= 0,
{
    proof {
        lemma_mul_nonnegative(x as int, s.num as int);
        lemma_div_pos_is_pos(x as int * s.num as int, s.den as int);
        lemma_mul_upper_bound(x as int, u32::MAX as int, s.num as int, u32::MAX as int);
    }
    let prod: u64 = (x as u64) * (s.num as u64);
    let q: u64 = prod / (s.den as u64);
    q as i32
}

/// `x` device pixels in layout (device-independent) pixels, truncated.
fn layout_px(x: i32, s: &Scale) -> (r: i32)
    requires
        s.wf(),
        x >= 0,
        scale_to_layout(x as int, *s) <= i32::MAX,
    ensures
        r as int == scale_to_layout(x as int, *s),
        r >= 0,
{
    proof {
        lemma_mul_nonnegative(x as int, s.den as int);
        lemma_div_pos_is_pos(x as int * s.den as int, s.num as int);
        lemma_mul_upper_bound(x as int, i32::MAX as int, s.den as int, u32::MAX as int);
    }
    let prod: u64 = (x as u64) * (s.den as u64);
    let q: u64 = prod / (s.num as u64);
    q as i32
}

/// Resolve the device-pixel coordinates from the current window metrics.
///
/// Every device-pixel quantity is the corresponding metric scaled by the
/// factor and truncated; the viewport sits at the origin with the inner size
/// in device pixels; the framebuffer equals the viewport size; and the layout
/// size is the framebuffer size divided by the factor. A zero inner size
/// resolves to a zero-area framebuffer and viewport: a legitimate no-op
/// frame, not an error.
pub fn resolve_coordinates(m: &WindowMetrics) -> (c: EmbedderCoordinates)
    requires
        m.wf(),
    ensures
        c.wf(),
        c.hidpi_factor == m.hidpi_factor,
        c.window.0.width as int == scale_to_device(m.outer_size.0 as int, m.hidpi_factor),
        c.window.0.height as int == scale_to_device(m.outer_size.1 as int, m.hidpi_factor),
        c.window.1.x as int == scale_to_device(m.position.0 as int, m.hidpi_factor),
        c.window.1.y as int == scale_to_device(m.position.1 as int, m.hidpi_factor),
        c.screen.width as int == scale_to_device(m.screen_size.0 as int, m.hidpi_factor),
        c.screen.height as int == scale_to_device(m.screen_size.1 as int, m.hidpi_factor),
        c.framebuffer.width as int == scale_to_device(m.inner_size.0 as int, m.hidpi_factor),
        c.framebuffer.height as int == scale_to_device(m.inner_size.1 as int, m.hidpi_factor),
        c.viewport.origin == (DeviceIntPoint { x: 0, y: 0 }),
        c.viewport.size == c.framebuffer,
        c.layout.width as int == scale_to_layout(c.framebuffer.width as int, m.hidpi_factor),
        c.layout.height as int == scale_to_layout(c.framebuffer.height as int, m.hidpi_factor),
        m.inner_size.0 == 0 ==> c.framebuffer.width == 0,
        m.inner_size.1 == 0 ==> c.framebuffer.height == 0,
{
    let s = m.hidpi_factor;
    let window_size = DeviceIntSize {
        width: device_px(m.outer_size.0, &s),
        height: device_px(m.outer_size.1, &s),
    };
    let window_origin = DeviceIntPoint {
        x: device_px(m.position.0, &s),
        y: device_px(m.position.1, &s),
    };
    let screen = DeviceIntSize {
        width: device_px(m.screen_size.0, &s),
        height: device_px(m.screen_size.1, &s),
    };
    let inner = DeviceIntSize {
        width: device_px(m.inner_size.0, &s),
        height: device_px(m.inner_size.1, &s),
    };
    let viewport = DeviceIntRect { origin: DeviceIntPoint { x: 0, y: 0 }, size: inner };
    let framebuffer = inner;
    let layout = LayoutSize {
        width: layout_px(framebuffer.width, &s),
        height: layout_px(framebuffer.height, &s),
    };
    proof {
        lemma_div_of0(s.den as int);
    }
    EmbedderCoordinates {
        hidpi_factor: s,
        screen,
        window: (window_size, window_origin),
        framebuffer,
        viewport,
        layout,
    }
}

} // verus!
