//! The closed index spaces of the sampler: banks, physical buttons, and the
//! per-stack playback settings.

use vstd::prelude::*;

verus! {

/// How a sample button treats presses while its sample plays.
#[derive(Debug, Clone, Copy, PartialEq, Eq, Structural)]
pub enum PlaybackMode {
    PlayNext,
    PlayStop,
    PlayFade,
    StopOnRelease,
    FadeOnRelease,
    Loop,
}

/// The order in which the samples of one stack are picked.
#[derive(Debug, Clone, Copy, PartialEq, Eq, Structural)]
pub enum PlayOrder {
    Sequential,
    Random,
}

/// One of the three sample-slot groups on the appliance.
#[derive(Debug, Clone, Copy, PartialEq, Eq, Hash, Structural)]
pub enum SampleBank {
    A,
    B,
    C,
}

/// The physical sample controls identifying a slot within a bank.
#[derive(Debug, Clone, Copy, PartialEq, Eq, Hash, Structural)]
pub enum SampleButtons {
    TopLeft,
    TopRight,
    BottomLeft,
    BottomRight,
}

} // verus!
