//! A provider backed by a list of lines.
//!
//! The surrounding program reads the lines — from a file, from standard
//! input — trims them, and hands them over; the provider yields them in
//! order.

use vstd::prelude::*;

use crate::errors::RahmenResult;
use crate::provider::Provider;

verus! {

/// Provider yielding a list of paths, line by line.
#[derive(Debug)]
pub struct ListProvider {
    lines: Vec<String>,
}

impl ListProvider {
    /// Create a new `ListProvider` yielding exactly `lines`, in order.
    pub fn new(lines: Vec<String>) -> (p: ListProvider)
        ensures
            p.remaining() == lines@,
    {
        ListProvider { lines }
    }
}

impl Provider<String> for ListProvider {
    /// The lines not yet yielded.
    closed spec fn remaining(&self) -> Seq<String> {
        self.lines@
    }

    fn next_image(&mut self) -> (r: RahmenResult<Option<String>>) {
        if self.lines.len() == 0 {
            Ok(None)
        } else {
            let line = self.lines.remove(0);
            Ok(Some(line))
        }
    }
}

} // verus!
