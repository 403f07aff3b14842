use vstd::prelude::*;

verus! {

/// Title of the main window.
pub const APP_TITLE: &'static str = "OpenMixture";

/// Number of empty clip slots the input bank starts with.
pub const INITIAL_CLIP_SLOT_COUNT: usize = 8;

/// Shortest transition, in milliseconds.
pub const MIN_TRANSITION_MS: u32 = 100;

/// Longest transition, in milliseconds.
pub const MAX_TRANSITION_MS: u32 = 2000;

/// Transition length the studio starts with, in milliseconds.
pub const DEFAULT_TRANSITION_MS: u32 = 350;

/// Scale of transition progress: a finished transition has this much progress.
pub const PROGRESS_SCALE: u32 = 1000;

} // verus!
