//! Shared data types of the operator graph.
//!
//! Configuration events, decoded images, placements and render instructions
//! are the values that flow between the engine's operators. Everything here
//! is a plain value: pixel buffers are byte vectors that the engine carries
//! through untouched.

use vstd::prelude::*;

verus! {

/// The slot of the photograph on the display.
pub const PHOTO_SLOT: usize = 1;

/// The slot of the status text strip on the display.
pub const STATUS_TEXT_SLOT: usize = 2;

/// A configuration event pushed by the driver into the graph.
#[derive(Clone, Copy, Debug, PartialEq, Eq, Structural)]
pub enum Configuration {
    /// Update the font size of the status line, in pixels.
    FontSize(u32),
    /// Update the vertical stretch of the text strip relative to the font
    /// size, in percent.
    FontCanvasVStretch(u32),
    /// Update the display dimensions, width by height.
    ScreenDimensions(u32, u32),
    /// Show the next image.
    Tick,
}

/// A decoded raster image: dimensions and a tightly packed buffer of three
/// bytes per pixel.
#[derive(Clone, Debug)]
pub struct ImageData {
    /// Width in pixels.
    pub width: u32,
    /// Height in pixels.
    pub height: u32,
    /// Pixel bytes in row-major order, three bytes per pixel.
    pub pixels: Vec<u8>,
}

impl View for ImageData {
    type V = (u32, u32, Seq<u8>);

    /// An image is its dimensions and its pixel bytes.
    open spec fn view(&self) -> (u32, u32, Seq<u8>) {
        (self.width, self.height, self.pixels@)
    }
}

impl ImageData {
    /// A well-formed image has at least one pixel in each direction and a
    /// buffer whose length matches its dimensions.
    pub open spec fn wf(&self) -> bool {
        &&& self.width >= 1
        &&& self.height >= 1
        &&& self.pixels@.len() == self.width * self.height * 3
    }

    /// A copy of the image that is known to equal the original.
    pub fn duplicate(&self) -> (r: ImageData)
        ensures
            r@ == self@,
    {
        let pixels = self.pixels.clone();
        proof {
            assert forall|i: int| 0 <= i < self.pixels@.len() implies pixels@[i]
                == self.pixels@[i] by {
                assert(vstd::pervasive::cloned::<u8>(self.pixels@[i], pixels@[i]));
            }
            assert(pixels@ =~= self.pixels@);
        }
        ImageData { width: self.width, height: self.height, pixels }
    }
}

/// A placement: a slot, an anchor on the display, and the image to put there.
#[derive(Clone, Debug)]
pub struct Placement {
    /// The slot this placement belongs to.
    pub key: usize,
    /// Horizontal anchor, in pixels from the left edge.
    pub x: i64,
    /// Vertical anchor, in pixels from the top edge.
    pub y: i64,
    /// The image to place.
    pub image: ImageData,
}

/// A committed instruction for the display.
#[derive(Clone, Debug)]
pub enum Render {
    /// Put an image at an anchor.
    Image {
        /// The slot being drawn.
        key: usize,
        /// Horizontal anchor.
        x: i64,
        /// Vertical anchor.
        y: i64,
        /// The image to draw.
        image: ImageData,
    },
    /// Clear a rectangle that an earlier image of the same slot occupied.
    Blank {
        /// The slot being cleared.
        key: usize,
        /// Horizontal anchor of the stale rectangle.
        x: i64,
        /// Vertical anchor of the stale rectangle.
        y: i64,
        /// Width of the stale rectangle.
        width: u32,
        /// Height of the stale rectangle.
        height: u32,
    },
}

/// Height of the text strip in pixels: the font size stretched by the
/// canvas factor, rounded up.
///
/// Rounding up is the deliberate reading of "font size times stretch": the
/// same height serves both as the band reserved from the viewport and as
/// the height of the rasterized strip, so the reserved band always covers
/// the strip exactly — a truncated strip against a rounded-up reservation
/// would leave a sliver of the photograph area behind the text.
pub open spec fn spec_strip_height(font_size: u32, vstretch: u32) -> int {
    (font_size * vstretch + 99) / 100
}

/// Compute the height of the text strip for a font size and a stretch
/// factor in percent, rounded up.
pub fn strip_height(font_size: u32, vstretch: u32) -> (h: u64)
    ensures
        h == spec_strip_height(font_size, vstretch),
{
    proof {
        assert((font_size as u64) * (vstretch as u64) <= 0xffff_ffffu64 * 0xffff_ffffu64)
            by (nonlinear_arith)
            requires
                font_size <= 0xffff_ffffu64,
                vstretch <= 0xffff_ffffu64,
        ;
    }
    ((font_size as u64) * (vstretch as u64) + 99) / 100
}

/// Tracks the latest font configuration and shrinks every viewport update
/// by the height of the text strip, so that the photograph is fitted to the
/// part of the display that the status line does not cover.
#[derive(Clone, Copy, Debug)]
pub struct ConfigAdjuster {
    /// The last font size seen, if any.
    pub font_size: Option<u32>,
    /// The last stretch factor seen, if any.
    pub vstretch: Option<u32>,
}

impl ConfigAdjuster {
    /// The last font size seen, if any.
    pub open spec fn spec_font_size(&self) -> Option<u32> {
        self.font_size
    }

    /// The last stretch factor seen, if any.
    pub open spec fn spec_vstretch(&self) -> Option<u32> {
        self.vstretch
    }

    /// The adjuster state after one configuration event.
    pub open spec fn spec_after(self, c: Configuration) -> ConfigAdjuster {
        match c {
            Configuration::FontSize(s) => ConfigAdjuster { font_size: Some(s), ..self },
            Configuration::FontCanvasVStretch(v) => ConfigAdjuster { vstretch: Some(v), ..self },
            _ => self,
        }
    }

    /// The strip height implied by the current state: zero while no font
    /// size has been seen, a full stretch factor of 100 percent while no
    /// stretch has been seen.
    pub open spec fn spec_strip(&self) -> int {
        spec_strip_height(
            match self.spec_font_size() {
                Some(s) => s,
                None => 0,
            },
            match self.spec_vstretch() {
                Some(v) => v,
                None => 100,
            },
        )
    }

    /// What `adjust` turns a configuration event into, given the state the
    /// adjuster was in when the event arrived.
    pub open spec fn spec_adjusted(&self, c: Configuration) -> Configuration {
        match c {
            Configuration::ScreenDimensions(w, h) => Configuration::ScreenDimensions(
                w,
                if self.spec_strip() >= h { 0u32 } else { (h - self.spec_strip()) as u32 },
            ),
            _ => c,
        }
    }

    /// An adjuster that has seen no font configuration yet.
    pub fn new() -> (a: ConfigAdjuster)
        ensures
            a.spec_font_size() is None,
            a.spec_vstretch() is None,
    {
        ConfigAdjuster { font_size: None, vstretch: None }
    }

    /// Pass one configuration event through: font events are recorded and
    /// forwarded unchanged, viewport events lose the strip height from
    /// their height (never below zero), and everything else is forwarded
    /// unchanged.
    pub fn adjust(&mut self, c: Configuration) -> (r: Configuration)
        ensures
            r == old(self).spec_adjusted(c),
            *final(self) == old(self).spec_after(c),
            final(self).spec_font_size() == (match c {
                Configuration::FontSize(s) => Some(s),
                _ => old(self).spec_font_size(),
            }),
            final(self).spec_vstretch() == (match c {
                Configuration::FontCanvasVStretch(v) => Some(v),
                _ => old(self).spec_vstretch(),
            }),
    {
        match c {
            Configuration::FontSize(s) => {
                self.font_size = Some(s);
                Configuration::FontSize(s)
            }
            Configuration::FontCanvasVStretch(v) => {
                self.vstretch = Some(v);
                Configuration::FontCanvasVStretch(v)
            }
            Configuration::ScreenDimensions(w, h) => {
                let font_size = match self.font_size {
                    Some(s) => s,
                    None => 0,
                };
                let vstretch = match self.vstretch {
                    Some(v) => v,
                    None => 100,
                };
                let strip = strip_height(font_size, vstretch);
                let adjusted_h: u32 = if strip >= h as u64 {
                    0
                } else {
                    h - (strip as u32)
                };
                Configuration::ScreenDimensions(w, adjusted_h)
            }
            Configuration::Tick => Configuration::Tick,
        }
    }
}

} // verus!
