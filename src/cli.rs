use vstd::prelude::*;

verus! {

/// The host's command-line settings.
pub struct Cli {
    /// Path of the program file.
    pub program: String,
    /// Initial window scaling; at least 1.
    pub scaling: u32,
    /// Show the cursor on the window.
    pub cursor: bool,
    /// Start in fullscreen mode.
    pub fullscreen: bool,
    /// Print performance metrics each frame.
    pub verbose: bool,
    /// Most instructions executed in one frame.
    pub max_ipf: usize,
}

} // verus!
