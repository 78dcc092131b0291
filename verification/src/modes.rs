//! Mode selectors of the channel strip's companion modules.
//!
//! The strip that hosts the punch stage also routes a dynamic equalizer,
//! shaping filters and a transformer-coloration stage.  Those processors
//! run on floating-point hosts outside this library, but the vocabulary
//! that selects their behaviour is plain data and lives here so that
//! every module of the strip shares one set of tags.

use vstd::prelude::*;

verus! {

/// How a dynamic equalizer band reacts to its detector.
#[derive(Clone, Copy, PartialEq, Eq, Structural, Debug)]
pub enum DynamicMode {
    /// Reduce gain when the signal is above the threshold.
    CompressDownward,
    /// Increase gain when the signal is above the threshold.
    ExpandUpward,
    /// Reduce gain when the signal is below the threshold.
    Gate,
}

impl Default for DynamicMode {
    /// Downward compression is the default band behaviour.
    fn default() -> (r: Self)
        ensures
            r == DynamicMode::CompressDownward,
    {
        DynamicMode::CompressDownward
    }
}

/// The shape of a shaping filter stage.
#[derive(Clone, Copy, PartialEq, Eq, Structural, Debug)]
pub enum FilterType {
    /// A peaking bell around a center frequency.
    Bell,
    /// A shelf below its corner frequency.
    LowShelf,
    /// A shelf above its corner frequency.
    HighShelf,
}

/// The voicing of the transformer-coloration stage.
#[derive(Clone, Copy, PartialEq, Eq, Structural, Debug)]
pub enum TransformerModel {
    /// Classic vintage console sound.
    Vintage,
    /// Clean modern transformers.
    Modern,
    /// British console sound.
    British,
    /// American console sound.
    American,
}

} // verus!
