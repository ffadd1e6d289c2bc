//! A provider backed by a fixed collection of paths.

use vstd::prelude::*;

use crate::errors::RahmenResult;
use crate::provider::Provider;

verus! {

/// Provider yielding a fixed collection of paths.
#[derive(Debug)]
pub struct DirectoryProvider {
    paths: Vec<String>,
}

impl DirectoryProvider {
    /// Create a new `DirectoryProvider` yielding exactly `paths`, in order.
    pub fn new(paths: Vec<String>) -> (p: DirectoryProvider)
        ensures
            p.remaining() == paths@,
    {
        DirectoryProvider { paths }
    }
}

impl Provider<String> for DirectoryProvider {
    /// The paths not yet yielded.
    closed spec fn remaining(&self) -> Seq<String> {
        self.paths@
    }

    fn next_image(&mut self) -> (r: RahmenResult<Option<String>>) {
        if self.paths.len() == 0 {
            Ok(None)
        } else {
            let path = self.paths.remove(0);
            Ok(Some(path))
        }
    }
}

} // verus!
