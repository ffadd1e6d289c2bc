//! The text layout join: combines the status text with the current font
//! configuration and viewport.
//!
//! This is a barrier join: for each notification it folds in everything
//! that arrived — a status text, font size, stretch factor and viewport
//! updates — and emits a rasterization request only once a text value, the
//! viewport size, the font size and the stretch factor have all been
//! observed at least once, and only for notifications in which one of the
//! four actually arrived. The requested strip spans the full viewport
//! width, is `font size * stretch` high — rounded up, the same height the
//! configuration adjuster reserves from the viewport, so the strip and the
//! reserved band always coincide — and is anchored at the bottom of the
//! viewport.
//!
//! The rasterization itself is the font renderer's business: the join hands
//! out a request with the exact geometry, and the driver wraps the returned
//! pixels into a placement.

use vstd::prelude::*;

use crate::dataflow::{spec_strip_height, Configuration};

verus! {

/// The configuration state a text join tracks: last viewport, last font
/// size, last stretch factor.
pub type TextConfig = (Option<(u32, u32)>, Option<u32>, Option<u32>);

/// One configuration event folded into the tracked state; ticks change
/// nothing here.
pub open spec fn apply_config(s: TextConfig, c: Configuration) -> TextConfig {
    match c {
        Configuration::ScreenDimensions(w, h) => (Some((w, h)), s.1, s.2),
        Configuration::FontSize(f) => (s.0, Some(f), s.2),
        Configuration::FontCanvasVStretch(v) => (s.0, s.1, Some(v)),
        Configuration::Tick => s,
    }
}

/// A whole notification's configuration events folded in, first to last.
pub open spec fn apply_configs(s: TextConfig, configs: Seq<Configuration>) -> TextConfig
    decreases configs.len(),
{
    if configs.len() == 0 {
        s
    } else {
        apply_configs(apply_config(s, configs[0]), configs.drop_first())
    }
}

/// Whether the events carry anything this join cares about — everything
/// but a bare tick.
pub open spec fn has_relevant_update(configs: Seq<Configuration>) -> bool
    decreases configs.len(),
{
    if configs.len() == 0 {
        false
    } else {
        !(configs[0] matches Configuration::Tick) || has_relevant_update(configs.drop_first())
    }
}

/// Whether the events carry a viewport update.
pub open spec fn observed_viewport(configs: Seq<Configuration>) -> bool
    decreases configs.len(),
{
    if configs.len() == 0 {
        false
    } else {
        (configs[0] matches Configuration::ScreenDimensions(_w, _h)) || observed_viewport(
            configs.drop_first(),
        )
    }
}

/// Whether the events carry a font size update.
pub open spec fn observed_font_size(configs: Seq<Configuration>) -> bool
    decreases configs.len(),
{
    if configs.len() == 0 {
        false
    } else {
        (configs[0] matches Configuration::FontSize(_f)) || observed_font_size(
            configs.drop_first(),
        )
    }
}

/// Whether the events carry a stretch factor update.
pub open spec fn observed_vstretch(configs: Seq<Configuration>) -> bool
    decreases configs.len(),
{
    if configs.len() == 0 {
        false
    } else {
        (configs[0] matches Configuration::FontCanvasVStretch(_v)) || observed_vstretch(
            configs.drop_first(),
        )
    }
}

/// Folding events in can only gain knowledge: a component of the tracked
/// state is known afterwards exactly when it was known before or an update
/// for it arrived.
pub proof fn lemma_observation_persistence(s: TextConfig, configs: Seq<Configuration>)
    ensures
        apply_configs(s, configs).0 is Some <==> (s.0 is Some || observed_viewport(configs)),
        apply_configs(s, configs).1 is Some <==> (s.1 is Some || observed_font_size(configs)),
        apply_configs(s, configs).2 is Some <==> (s.2 is Some || observed_vstretch(configs)),
    decreases configs.len(),
{
    if configs.len() > 0 {
        lemma_observation_persistence(apply_config(s, configs[0]), configs.drop_first());
    }
}

/// A request to rasterize status text into a strip of pixels.
pub struct TextRequest {
    /// The lines of text, top to bottom.
    pub lines: Vec<String>,
    /// The font size in pixels.
    pub font_size: u32,
    /// The width of the strip: the full viewport width.
    pub width: u32,
    /// The height of the strip: the stretched font size, rounded up (and
    /// saturated should it exceed the widest possible strip).
    pub height: u32,
    /// Horizontal anchor of the strip: the left viewport edge.
    pub x: i64,
    /// Vertical anchor of the strip: the bottom of the viewport, so that
    /// the strip ends flush with the viewport's lower edge.
    pub y: i64,
}

/// The barrier join of status text and configuration.
pub struct TextJoin {
    /// The last viewport dimensions seen.
    pub screen: Option<(u32, u32)>,
    /// The last font size seen.
    pub font_size: Option<u32>,
    /// The last stretch factor seen.
    pub vstretch: Option<u32>,
    /// The last status text seen.
    pub text: Option<Vec<String>>,
}

impl TextJoin {
    /// Whether every input this join needs has been observed at least once.
    pub open spec fn all_known(&self) -> bool {
        &&& self.screen is Some
        &&& self.font_size is Some
        &&& self.vstretch is Some
        &&& self.text is Some
    }

    /// The tracked configuration state.
    pub open spec fn config_state(&self) -> TextConfig {
        (self.screen, self.font_size, self.vstretch)
    }

    /// `req` is exactly the rasterization request a join in this state
    /// emits: the remembered text at the remembered font size, a strip as
    /// wide as the viewport and one rounded-up stretched font size high,
    /// anchored at the bottom of the viewport.
    pub open spec fn spec_request(&self, req: TextRequest) -> bool {
        let (w, h) = self.screen.unwrap();
        let fs = self.font_size.unwrap();
        let vs = self.vstretch.unwrap();
        let strip = spec_strip_height(fs, vs);
        &&& req.lines@ == self.text.unwrap()@
        &&& req.font_size == fs
        &&& req.width == w
        &&& req.height == (if strip > u32::MAX {
            u32::MAX as int
        } else {
            strip
        })
        &&& req.x == 0
        &&& req.y == h - strip
    }

    /// Whether one notification makes the join emit: something relevant
    /// arrived, and everything is known once it is folded in.
    pub open spec fn spec_emits(self, text: Option<Seq<String>>, configs: Seq<Configuration>)
        -> bool {
        &&& (text is Some || has_relevant_update(configs))
        &&& apply_configs(self.config_state(), configs).0 is Some
        &&& apply_configs(self.config_state(), configs).1 is Some
        &&& apply_configs(self.config_state(), configs).2 is Some
        &&& (self.text is Some || text is Some)
    }

    /// A join that has seen nothing yet.
    pub fn new() -> (j: TextJoin)
        ensures
            j.screen is None,
            j.font_size is None,
            j.vstretch is None,
            j.text is None,
            !j.all_known(),
    {
        TextJoin { screen: None, font_size: None, vstretch: None, text: None }
    }

    /// Process one notification: the status text, if one arrived at this
    /// time, and the configuration events that arrived at this time.
    ///
    /// A rasterization request is emitted exactly when something relevant
    /// arrived and all four inputs have been observed at least once.
    pub fn on_notify(&mut self, text: Option<Vec<String>>, configs: &Vec<Configuration>) -> (r:
        Option<TextRequest>)
        ensures
            final(self).config_state() == apply_configs(old(self).config_state(), configs@),
            final(self).text == (match text {
                Some(lines) => Some(lines),
                None => old(self).text,
            }),
            r is Some <==> old(self).spec_emits(
                (match text {
                    Some(lines) => Some(lines@),
                    None => None,
                }),
                configs@,
            ),
            r matches Some(req) ==> final(self).spec_request(req),
    {
        let ghost orig = self.config_state();
        let mut saw_relevant = false;
        let mut idx: usize = 0;
        proof {
            assert(configs@.skip(0) =~= configs@);
        }
        while idx < configs.len()
            invariant
                idx <= configs.len(),
                apply_configs(orig, configs@) == apply_configs(
                    self.config_state(),
                    configs@.skip(idx as int),
                ),
                has_relevant_update(configs@) == (saw_relevant || has_relevant_update(
                    configs@.skip(idx as int),
                )),
                self.text == old(self).text,
                orig == old(self).config_state(),
            decreases configs.len() - idx,
        {
            proof {
                assert(configs@.skip(idx as int).drop_first() =~= configs@.skip(idx as int + 1));
                assert(configs@.skip(idx as int)[0] == configs@[idx as int]);
            }
            match configs[idx] {
                Configuration::ScreenDimensions(w, h) => {
                    self.screen = Some((w, h));
                    saw_relevant = true;
                }
                Configuration::FontSize(f) => {
                    self.font_size = Some(f);
                    saw_relevant = true;
                }
                Configuration::FontCanvasVStretch(v) => {
                    self.vstretch = Some(v);
                    saw_relevant = true;
                }
                Configuration::Tick => {}
            }
            idx = idx + 1;
        }
        proof {
            assert(configs@.skip(configs@.len() as int) =~= Seq::<Configuration>::empty());
        }
        let changed = saw_relevant || matches!(text, Some(_));
        if let Some(lines) = text {
            self.text = Some(lines);
        }
        if !changed {
            return None;
        }
        let (w, h) = match self.screen {
            Some(dims) => dims,
            None => {
                return None;
            }
        };
        let fs = match self.font_size {
            Some(f) => f,
            None => {
                return None;
            }
        };
        let vs = match self.vstretch {
            Some(v) => v,
            None => {
                return None;
            }
        };
        let lines = match &self.text {
            Some(lines) => clone_lines(lines),
            None => {
                return None;
            }
        };
        let strip = crate::dataflow::strip_height(fs, vs);
        proof {
            assert(fs * vs <= 0xffff_ffff * 0xffff_ffff) by (nonlinear_arith)
                requires
                    fs <= 0xffff_ffff && vs <= 0xffff_ffff,
            ;
            vstd::arithmetic::div_mod::lemma_div_is_ordered(
                fs * vs + 99,
                0xffff_ffffint * 0xffff_ffffint + 99,
                100,
            );
        }
        let height: u32 = if strip > u32::MAX as u64 {
            u32::MAX
        } else {
            strip as u32
        };
        let y: i64 = (h as i64) - (strip as i64);
        Some(TextRequest { lines, font_size: fs, width: w, height, x: 0, y })
    }
}

/// A copy of the lines that is known to equal the original.
fn clone_lines(lines: &Vec<String>) -> (r: Vec<String>)
    ensures
        r@ == lines@,
{
    let r = lines.clone();
    proof {
        assert forall|i: int| 0 <= i < lines@.len() implies r@[i] == lines@[i] by {
            assert(vstd::pervasive::cloned::<String>(lines@[i], r@[i]));
        }
        assert(r@ =~= lines@);
    }
    r
}

/// Join completeness: the join never emits until the viewport size, the
/// font size, the stretch factor and a text value have each been observed
/// at least once, and it emits exactly once per notification in which one
/// of those four arrived while all four are known.
pub proof fn lemma_join_completeness(
    j: TextJoin,
    text: Option<Seq<String>>,
    configs: Seq<Configuration>,
)
    ensures
        j.spec_emits(text, configs) ==> ((j.screen is Some || observed_viewport(configs)) && (
        j.font_size is Some || observed_font_size(configs)) && (j.vstretch is Some
            || observed_vstretch(configs)) && (j.text is Some || text is Some)),
        j.spec_emits(text, configs) <==> ((text is Some || has_relevant_update(configs)) && (
        j.screen is Some || observed_viewport(configs)) && (j.font_size is Some
            || observed_font_size(configs)) && (j.vstretch is Some || observed_vstretch(
            configs,
        )) && (j.text is Some || text is Some)),
{
    lemma_observation_persistence(j.config_state(), configs);
}

} // verus!
