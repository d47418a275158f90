//! Run configuration: source path, target dimensions and the two mode flags.

use vstd::prelude::*;

verus! {

/// Immutable configuration for one run, created once and read-only afterwards.
///
/// `width` and `height` are the target dimensions; a zero in either is a
/// configuration error, so every accepted configuration satisfies [`Config::valid`].
pub struct Config {
    /// File or directory the run starts from.
    pub src: String,
    /// Stretch to exactly `width x height` instead of fitting inside them.
    pub ignore_aspect: bool,
    /// Target width in pixels.
    pub width: u32,
    /// Target height in pixels.
    pub height: u32,
    /// Descend into subdirectories during discovery.
    pub recursive: bool,
}

impl Config {
    /// Both target dimensions are positive; zero dimensions are rejected
    /// before a run starts.
    pub open spec fn valid(&self) -> bool {
        self.width > 0 && self.height > 0
    }

    /// Builds a configuration, rejecting zero target dimensions.
    pub fn new(src: String, width: u32, height: u32, ignore_aspect: bool, recursive: bool) -> (r:
        Result<Config, crate::conferror::ConfigErr>)
        ensures
            r is Ok <==> width > 0 && height > 0,
            r matches Ok(c) ==> {
                &&& c.src@ == src@
                &&& c.width == width
                &&& c.height == height
                &&& c.ignore_aspect == ignore_aspect
                &&& c.recursive == recursive
                &&& c.valid()
            },
            r matches Err(e) ==> e is EmptyVal,
    {
        if width == 0 || height == 0 {
            Err(crate::conferror::ConfigErr::EmptyVal)
        } else {
            Ok(Config { src, ignore_aspect, width, height, recursive })
        }
    }
}

} // verus!
