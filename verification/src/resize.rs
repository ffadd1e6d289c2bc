//! The resize join: fits the latest decoded image into the latest viewport.
//!
//! This join does not wait for both inputs to arrive at the same time: it
//! remembers the last known image and the last known (already adjusted)
//! viewport, and recomputes a scaled, centered placement whenever either of
//! them changes. Scaling is fit-within — the aspect ratio is preserved, the
//! image is never upscaled beyond its source size — and the scaled image is
//! centered on both axes, with the offsets rounded down.
//!
//! The pixel resampling itself is done by the `image` crate's triangle
//! filter; the engine computes and verifies the target geometry and carries
//! the resampled bytes through untouched.

use vstd::prelude::*;

use crate::dataflow::{Configuration, ImageData, Placement, PHOTO_SLOT};

verus! {

/// `x`, but at least one.
pub open spec fn at_least_one(x: int) -> int {
    if x >= 1 {
        x
    } else {
        1
    }
}

/// The dimensions that fit a `sw` by `sh` image within a `tw` by `th` box:
/// the source dimensions if they already fit, else the largest
/// aspect-preserving dimensions inside the box, rounded down and clamped to
/// at least one pixel.
pub open spec fn spec_fit_dims(sw: int, sh: int, tw: int, th: int) -> (int, int) {
    if sw <= tw && sh <= th {
        (sw, sh)
    } else if tw * sh <= th * sw {
        (tw, at_least_one(sh * tw / sw))
    } else {
        (at_least_one(sw * th / sh), th)
    }
}

/// Division keeps an upper bound: if `a` is at most `b * c`, then `a / c`
/// is at most `b`.
proof fn lemma_div_le(a: int, b: int, c: int)
    requires
        c >= 1,
        0 <= a,
        a <= b * c,
    ensures
        a / c <= b,
{
    vstd::arithmetic::div_mod::lemma_fundamental_div_mod(a, c);
    vstd::arithmetic::div_mod::lemma_mod_bound(a, c);
    assert(c * (a / c) <= b * c ==> a / c <= b) by (nonlinear_arith)
        requires
            c >= 1,
    ;
}

/// Fit-within really fits: for positive source and box dimensions, the
/// fitted dimensions are positive, within the box, and never exceed the
/// source (no upscaling).
pub proof fn lemma_fit_dims_bounds(sw: int, sh: int, tw: int, th: int)
    requires
        1 <= sw,
        1 <= sh,
        1 <= tw,
        1 <= th,
    ensures
        ({
            let (w, h) = spec_fit_dims(sw, sh, tw, th);
            &&& 1 <= w <= tw
            &&& 1 <= h <= th
            &&& w <= sw
            &&& h <= sh
        }),
{
    if sw <= tw && sh <= th {
    } else if tw * sh <= th * sw {
        assert(tw < sw) by (nonlinear_arith)
            requires
                tw * sh <= th * sw,
                !(sw <= tw && sh <= th),
                1 <= sw && 1 <= sh && 1 <= tw && 1 <= th,
        ;
        assert(sh * tw <= th * sw) by (nonlinear_arith)
            requires
                tw * sh <= th * sw,
        ;
        assert(sh * tw >= 0) by (nonlinear_arith)
            requires
                1 <= sh && 1 <= tw,
        ;
        lemma_div_le(sh * tw, th, sw);
        assert(sh * tw <= sh * sw) by (nonlinear_arith)
            requires
                tw <= sw,
                1 <= sh,
        ;
        lemma_div_le(sh * tw, sh, sw);
    } else {
        assert(th < sh) by (nonlinear_arith)
            requires
                tw * sh > th * sw,
                !(sw <= tw && sh <= th),
                1 <= sw && 1 <= sh && 1 <= tw && 1 <= th,
        ;
        assert(sw * th <= tw * sh) by (nonlinear_arith)
            requires
                th * sw < tw * sh,
        ;
        assert(sw * th >= 0) by (nonlinear_arith)
            requires
                1 <= sw && 1 <= th,
        ;
        lemma_div_le(sw * th, tw, sh);
        assert(sw * th <= sw * sh) by (nonlinear_arith)
            requires
                th <= sh,
                1 <= sw,
        ;
        lemma_div_le(sw * th, sw, sh);
    }
}

/// Fit-within preserves the aspect ratio up to rounding: when the image is
/// scaled down, the scaled pair sits within one pixel row or column of the
/// exact ratio — unless the floor had to be clamped up to one pixel for an
/// extreme ratio. An image that already fits is not scaled at all.
pub proof fn lemma_fit_dims_aspect(sw: int, sh: int, tw: int, th: int)
    requires
        1 <= sw,
        1 <= sh,
        1 <= tw,
        1 <= th,
    ensures
        ({
            let (w, h) = spec_fit_dims(sw, sh, tw, th);
            &&& (sw <= tw && sh <= th ==> (w, h) == (sw, sh))
            &&& (!(sw <= tw && sh <= th) && tw * sh <= th * sw && sh * tw / sw >= 1 ==> h * sw
                <= sh * w && sh * w - h * sw < sw)
            &&& (!(sw <= tw && sh <= th) && tw * sh > th * sw && sw * th / sh >= 1 ==> w * sh
                <= sw * h && sw * h - w * sh < sh)
        }),
{
    if sw <= tw && sh <= th {
    } else if tw * sh <= th * sw {
        let q = sh * tw / sw;
        vstd::arithmetic::div_mod::lemma_fundamental_div_mod(sh * tw, sw);
        vstd::arithmetic::div_mod::lemma_mod_bound(sh * tw, sw);
        assert(q * sw == sw * q) by (nonlinear_arith);
        assert(tw * sh == sh * tw) by (nonlinear_arith);
    } else {
        let q = sw * th / sh;
        vstd::arithmetic::div_mod::lemma_fundamental_div_mod(sw * th, sh);
        vstd::arithmetic::div_mod::lemma_mod_bound(sw * th, sh);
        assert(q * sh == sh * q) by (nonlinear_arith);
        assert(th * sw == sw * th) by (nonlinear_arith);
    }
}

/// Compute the fit-within dimensions for a source image and a target box.
pub fn fit_dims(sw: u32, sh: u32, tw: u32, th: u32) -> (r: (u32, u32))
    requires
        1 <= sw,
        1 <= sh,
        1 <= tw,
        1 <= th,
    ensures
        (r.0 as int, r.1 as int) == spec_fit_dims(sw as int, sh as int, tw as int, th as int),
        1 <= r.0 <= tw && r.0 <= sw,
        1 <= r.1 <= th && r.1 <= sh,
{
    proof {
        lemma_fit_dims_bounds(sw as int, sh as int, tw as int, th as int);
        assert(tw * sh <= 0xffff_ffff * 0xffff_ffff && th * sw <= 0xffff_ffff * 0xffff_ffff
            && sh * tw <= 0xffff_ffff * 0xffff_ffff && sw * th <= 0xffff_ffff * 0xffff_ffff)
            by (nonlinear_arith)
            requires
                sw <= 0xffff_ffff && sh <= 0xffff_ffff && tw <= 0xffff_ffff && th
                    <= 0xffff_ffff,
        ;
    }
    if sw <= tw && sh <= th {
        (sw, sh)
    } else if (tw as u64) * (sh as u64) <= (th as u64) * (sw as u64) {
        let h = ((sh as u64) * (tw as u64)) / (sw as u64);
        let h = if h >= 1 {
            h
        } else {
            1
        };
        (tw, h as u32)
    } else {
        let w = ((sw as u64) * (th as u64)) / (sh as u64);
        let w = if w >= 1 {
            w
        } else {
            1
        };
        (w as u32, th)
    }
}

/// What resampling an image to new dimensions yields, byte for byte. The
/// exact bytes are the resampling filter's business; the engine only names
/// them.
pub uninterp spec fn scaled_content(
    pixels: Seq<u8>,
    source_width: u32,
    source_height: u32,
    width: u32,
    height: u32,
) -> Seq<u8>;

/// Relies on `image::imageops::resize` with the triangle filter: it
/// resamples the supplied buffer to exactly `width` by `height` pixels, as
/// a function of the input pixels and dimensions alone, and
/// `ImageBuffer::into_raw` hands back its tightly packed bytes.
#[verifier::external_body]
fn scale_pixels(image: &ImageData, width: u32, height: u32) -> (r: Vec<u8>)
    requires
        image.wf(),
        1 <= width,
        1 <= height,
        width * height * 3 <= usize::MAX,
    ensures
        r@ == scaled_content(image.pixels@, image.width, image.height, width, height),
        r@.len() == width * height * 3,
{
    let buffer = image::ImageBuffer::<image::Rgb<u8>, Vec<u8>>::from_raw(
        image.width,
        image.height,
        image.pixels.clone(),
    ).unwrap();
    let scaled = image::imageops::resize(
        &buffer,
        width,
        height,
        image::imageops::FilterType::Triangle,
    );
    scaled.into_raw()
}

/// The last viewport dimensions in `configs`, if any arrived, else `prev`.
pub open spec fn spec_screen_after(
    prev: Option<(u32, u32)>,
    configs: Seq<Configuration>,
) -> Option<(u32, u32)>
    decreases configs.len(),
{
    if configs.len() == 0 {
        prev
    } else {
        match configs.last() {
            Configuration::ScreenDimensions(w, h) => Some((w, h)),
            _ => spec_screen_after(prev, configs.drop_last()),
        }
    }
}

/// Whether `configs` contains a viewport update.
pub open spec fn has_screen_update(configs: Seq<Configuration>) -> bool
    decreases configs.len(),
{
    if configs.len() == 0 {
        false
    } else {
        (configs.last() matches Configuration::ScreenDimensions(_w, _h)) || has_screen_update(
            configs.drop_last(),
        )
    }
}

/// The join of the image stream with the adjusted configuration stream.
pub struct ResizeJoin {
    /// The last viewport dimensions seen, already shrunk by the text strip.
    pub screen: Option<(u32, u32)>,
    /// The last decoded image seen.
    pub image: Option<ImageData>,
}

impl ResizeJoin {
    /// Every image the join retains is well-formed.
    pub open spec fn inv(&self) -> bool {
        match self.image {
            Some(img) => img.wf(),
            None => true,
        }
    }

    /// Whether the join is ready to emit: both an image and a usable
    /// viewport are known — at least one pixel in each direction, and small
    /// enough that a buffer covering it is representable at all.
    pub open spec fn ready(&self) -> bool {
        &&& self.image is Some
        &&& match self.screen {
            Some((w, h)) => w >= 1 && h >= 1 && w * h * 3 <= usize::MAX,
            None => false,
        }
    }

    /// `p` is exactly the placement a join in this state emits: the photo
    /// slot, the remembered image fitted within the remembered viewport,
    /// centered with offsets rounded down, its pixels resampled — or
    /// carried through unchanged when the image already fits.
    pub open spec fn spec_placement(&self, p: Placement) -> bool {
        let img = self.image.unwrap();
        let (w, h) = self.screen.unwrap();
        let (fw, fh) = spec_fit_dims(img.width as int, img.height as int, w as int, h as int);
        &&& p.key == PHOTO_SLOT
        &&& p.x == (w - fw) / 2
        &&& p.y == (h - fh) / 2
        &&& p.image.width == fw
        &&& p.image.height == fh
        &&& p.image.wf()
        &&& (if fw == img.width && fh == img.height {
            p.image.pixels@ == img.pixels@
        } else {
            p.image.pixels@ == scaled_content(img.pixels@, img.width, img.height, p.image.width,
                p.image.height)
        })
    }

    /// A join that has seen nothing yet.
    pub fn new() -> (j: ResizeJoin)
        ensures
            j.screen is None,
            j.image is None,
            j.inv(),
    {
        ResizeJoin { screen: None, image: None }
    }

    /// Process one notification: an image, if one arrived at this time, and
    /// the configuration events that arrived at this time.
    ///
    /// A placement is emitted exactly when something relevant arrived —
    /// an image or a viewport update — and both inputs have been seen with
    /// a usable viewport. The emitted placement carries the image fitted
    /// within the viewport and centered, with offsets rounded down.
    pub fn on_notify(&mut self, image: Option<ImageData>, configs: &Vec<Configuration>) -> (r:
        Option<Placement>)
        requires
            old(self).inv(),
            (image matches Some(img) ==> img.wf()),
        ensures
            final(self).inv(),
            final(self).screen == spec_screen_after(old(self).screen, configs@),
            final(self).image == (match image {
                Some(img) => Some(img),
                None => old(self).image,
            }),
            r is Some <==> ((image is Some || has_screen_update(configs@))
                && final(self).ready()),
            r matches Some(p) ==> final(self).spec_placement(p),
    {
        let mut saw_screen = false;
        let mut idx: usize = 0;
        proof {
            assert(configs@.skip(0) =~= configs@);
            assert(configs@.take(0) =~= Seq::<Configuration>::empty());
        }
        while idx < configs.len()
            invariant
                idx <= configs.len(),
                spec_screen_after(old(self).screen, configs@) == spec_screen_after(
                    self.screen,
                    configs@.skip(idx as int),
                ),
                saw_screen == has_screen_update(configs@.take(idx as int)),
                self.image == old(self).image,
                self.inv(),
            decreases configs.len() - idx,
        {
            let c = configs[idx];
            proof {
                lemma_screen_after_step(self.screen, configs@, idx as int);
                assert(configs@.take(idx as int + 1).drop_last() =~= configs@.take(idx as int));
                assert(configs@.take(idx as int + 1).last() == configs@[idx as int]);
            }
            match c {
                Configuration::ScreenDimensions(w, h) => {
                    self.screen = Some((w, h));
                    saw_screen = true;
                }
                _ => {}
            }
            idx = idx + 1;
        }
        proof {
            assert(configs@.skip(configs@.len() as int) =~= Seq::<Configuration>::empty());
            assert(configs@.take(configs@.len() as int) =~= configs@);
        }
        let changed = saw_screen || matches!(image, Some(_));
        if let Some(img) = image {
            self.image = Some(img);
        }
        if !changed {
            return None;
        }
        let (w, h) = match self.screen {
            Some(dims) => dims,
            None => {
                return None;
            }
        };
        if w < 1 || h < 1 {
            return None;
        }
        proof {
            assert(w * h * 3 <= 0xffff_ffff * 0xffff_ffff * 3) by (nonlinear_arith)
                requires
                    w <= 0xffff_ffff && h <= 0xffff_ffff,
            ;
        }
        if (w as u128) * (h as u128) * 3 > usize::MAX as u128 {
            return None;
        }
        let img = match &self.image {
            Some(img) => img,
            None => {
                return None;
            }
        };
        let (fw, fh) = fit_dims(img.width, img.height, w, h);
        proof {
            assert(fw * fh * 3 <= w * h * 3) by (nonlinear_arith)
                requires
                    1 <= fw <= w,
                    1 <= fh <= h,
            ;
        }
        let scaled = if fw == img.width && fh == img.height {
            img.duplicate()
        } else {
            let pixels = scale_pixels(img, fw, fh);
            ImageData { width: fw, height: fh, pixels }
        };
        let x = ((w - fw) / 2) as i64;
        let y = ((h - fh) / 2) as i64;
        Some(Placement { key: PHOTO_SLOT, x, y, image: scaled })
    }
}

/// Folding the screen state one event at a time agrees with folding the
/// whole suffix at once.
proof fn lemma_screen_after_step(prev: Option<(u32, u32)>, configs: Seq<Configuration>, i: int)
    requires
        0 <= i < configs.len(),
    ensures
        spec_screen_after(prev, configs.skip(i)) == spec_screen_after(
            match configs[i] {
                Configuration::ScreenDimensions(w, h) => Some((w, h)),
                _ => prev,
            },
            configs.skip(i + 1),
        ),
    decreases configs.len() - i,
{
    let suffix = configs.skip(i);
    if suffix.len() == 1 {
        assert(suffix.last() == configs[i]);
        assert(configs.skip(i + 1) =~= Seq::<Configuration>::empty());
        assert(suffix.drop_last() =~= Seq::<Configuration>::empty());
    } else {
        lemma_screen_after_step(prev, configs.drop_last(), i);
        assert(configs.drop_last().skip(i) =~= configs.skip(i).drop_last());
        assert(configs.drop_last().skip(i + 1) =~= configs.skip(i + 1).drop_last());
        assert(suffix.last() == configs.last());
        assert(configs.skip(i + 1).last() == configs.last());
    }
}

} // verus!
