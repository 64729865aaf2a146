//! The build-profile detector.
//!
//! The build profile arrives as the value of a single environment variable,
//! read by the caller and handed in as a plain value.  Exactly `release`
//! means a release build and exactly `debug` a debug build; any other value,
//! and a missing variable, yield `Unknown`, which every consumer treats as
//! a debug build (with a warning, emitted by the orchestrator).

use vstd::prelude::*;

verus! {

/// The normalized build profile.
#[derive(Clone, Copy, Debug, PartialEq, Eq, Structural)]
pub enum BuildProfile {
    Release,
    Debug,
    Unknown,
}

/// The profile that a given value of the profile variable denotes.
pub open spec fn spec_detect(p: Option<String>) -> BuildProfile {
    match p {
        Option::None => BuildProfile::Unknown,
        Option::Some(s) => if s@ == "release"@ {
            BuildProfile::Release
        } else if s@ == "debug"@ {
            BuildProfile::Debug
        } else {
            BuildProfile::Unknown
        },
    }
}

/// Normalizes the value of the profile variable (`None` when the variable
/// is not set) to a `BuildProfile`.
pub fn detect(p: &Option<String>) -> (r: BuildProfile)
    ensures
        r == spec_detect(*p),
{
    match p {
        Option::None => BuildProfile::Unknown,
        Option::Some(s) => {
            let release = "release".to_owned();
            let debug = "debug".to_owned();
            if *s == release {
                BuildProfile::Release
            } else if *s == debug {
                BuildProfile::Debug
            } else {
                BuildProfile::Unknown
            }
        },
    }
}

} // verus!
