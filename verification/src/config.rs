//! Configuration data for the slideshow.
//!
//! These types mirror the configuration file: which metadata tags make up
//! the status line, how their values are transformed, and the global display
//! settings. The engine itself only consumes the plain numeric settings;
//! the status-line elements are interpreted by the surrounding program.
//!
//! Durations are in milliseconds; the font canvas stretch factor is in
//! percent (140 means the text strip is 1.4 times the font size high).

use vstd::prelude::*;

verus! {

/// An element of the status line.
#[derive(Clone, Debug)]
pub struct Element {
    /// Capitalize the words of the value (optional).
    pub capitalize: Option<bool>,
    /// Metadata tags to look up, ordered by priority (mandatory).
    pub exif_tags: Vec<String>,
    /// Optional replacement patterns applied to the value.
    pub replace: Option<Vec<Replacement>>,
    /// Optional case conversion applied to the value.
    pub case_conversion: Option<CaseConversion>,
}

/// A case conversion instruction.
#[derive(Clone, Debug)]
pub struct CaseConversion {
    /// The case to convert from.
    pub from: String,
    /// The case to convert to.
    pub to: String,
}

/// A replacement pattern and its substitution.
#[derive(Clone, Debug)]
pub struct Replacement {
    /// The pattern to match.
    pub regex: String,
    /// The replacement for each match.
    pub replace: String,
}

/// Root structure of the configuration file.
#[derive(Clone, Debug)]
pub struct Settings {
    /// Transition delay between images, in milliseconds (optional).
    pub delay: Option<u64>,
    /// Font size of the status line in pixels (optional).
    pub font_size: Option<u32>,
    /// Vertical stretch of the text strip relative to the font size, in
    /// percent (optional).
    pub font_canvas_vstretch: Option<u32>,
    /// Module search paths for the postprocessing hook (optional).
    pub py_path: Option<Vec<String>>,
    /// Name of the postprocessing hook module (optional).
    pub py_postprocess: Option<String>,
    /// Separator inserted between status line elements (optional).
    pub separator: Option<String>,
    /// The elements of the status line (mandatory).
    pub status_line: Vec<Element>,
}

impl Default for Settings {
    /// Settings with nothing configured: every option absent and no
    /// status-line elements.
    fn default() -> (s: Settings)
        ensures
            s.delay is None,
            s.font_size is None,
            s.font_canvas_vstretch is None,
            s.py_path is None,
            s.py_postprocess is None,
            s.separator is None,
            s.status_line@.len() == 0,
    {
        Settings {
            delay: None,
            font_size: None,
            font_canvas_vstretch: None,
            py_path: None,
            py_postprocess: None,
            separator: None,
            status_line: Vec::new(),
        }
    }
}

} // verus!
