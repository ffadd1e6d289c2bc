//! A provider backed by the expansion of a glob pattern.
//!
//! The surrounding program expands the pattern against the file system and
//! hands the matched paths over; the provider yields them in order.

use vstd::prelude::*;

use crate::errors::RahmenResult;
use crate::provider::Provider;

verus! {

/// Provider yielding the paths a glob pattern expanded to.
#[derive(Debug)]
pub struct GlobProvider {
    paths: Vec<String>,
}

impl GlobProvider {
    /// Create a new `GlobProvider` yielding exactly `paths`, in order.
    pub fn new(paths: Vec<String>) -> (p: GlobProvider)
        ensures
            p.remaining() == paths@,
    {
        GlobProvider { paths }
    }
}

impl Provider<String> for GlobProvider {
    /// The paths not yet yielded.
    closed spec fn remaining(&self) -> Seq<String> {
        self.paths@
    }

    fn next_image(&mut self) -> (r: RahmenResult<Option<String>>) {
        if self.paths.len() == 0 {
            Ok(None)
        } else {
            let path = self.paths.remove(0);
            Ok(Some(path))
        }
    }
}

} // verus!
