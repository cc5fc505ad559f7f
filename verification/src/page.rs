//! The pages of the application.

use vstd::prelude::*;

verus! {

/// A page of the application.
#[derive(Clone, Copy, Debug)]
pub enum Page {
    Editor,
    Sequencer,
}

} // verus!
