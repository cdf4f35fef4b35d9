//! Audio filter presets, selected by the name of a style.
//!
//! Every amount is held in hundredths, so that the presets are exact.

use crate::text::{lowercase, to_lowercase};
use vstd::prelude::*;

verus! {

/// A number in steps of one hundredth.
#[derive(Clone, Copy, Debug, PartialEq, Eq, Structural)]
pub struct Hundredths(pub i32);

/// The gain of one band of the equalizer.
#[derive(Clone, Copy, Debug, PartialEq, Eq, Structural)]
pub struct EqualizerBand {
    pub band: u8,
    pub gain: Hundredths,
}

/// Settings of the low-pass filter.
#[derive(Clone, Copy, Debug, PartialEq, Eq, Structural)]
pub struct LowPassOptions {
    pub smoothing: Option<Hundredths>,
}

/// Settings of the timescale filter.
#[derive(Clone, Copy, Debug, PartialEq, Eq, Structural)]
pub struct TimescaleOptions {
    pub speed: Option<Hundredths>,
    pub pitch: Option<Hundredths>,
    pub rate: Option<Hundredths>,
}

/// Settings of the rotation filter.
#[derive(Clone, Copy, Debug, PartialEq, Eq, Structural)]
pub struct RotationOptions {
    pub rotation_hz: Option<Hundredths>,
}

/// Settings of the tremolo filter.
#[derive(Clone, Copy, Debug, PartialEq, Eq, Structural)]
pub struct TremoloOptions {
    pub frequency: Option<Hundredths>,
    pub depth: Option<Hundredths>,
}

/// Settings of the vibrato filter.
#[derive(Clone, Copy, Debug, PartialEq, Eq, Structural)]
pub struct VibratoOptions {
    pub frequency: Option<Hundredths>,
    pub depth: Option<Hundredths>,
}

/// Settings of the karaoke filter.
#[derive(Clone, Copy, Debug, PartialEq, Eq, Structural)]
pub struct KaraokeOptions {
    pub level: Option<Hundredths>,
    pub mono_level: Option<Hundredths>,
    pub filter_band: Option<Hundredths>,
    pub filter_width: Option<Hundredths>,
}

/// A set of audio filters. A filter that is `None` is switched off.
#[derive(Debug)]
pub struct AudioFilters {
    pub equalizer: Option<Vec<EqualizerBand>>,
    pub low_pass: Option<LowPassOptions>,
    pub timescale: Option<TimescaleOptions>,
    pub rotation: Option<RotationOptions>,
    pub tremolo: Option<TremoloOptions>,
    pub vibrato: Option<VibratoOptions>,
    pub karaoke: Option<KaraokeOptions>,
}

/// A set of audio filters as plain values.
pub struct FiltersView {
    pub equalizer: Option<Seq<EqualizerBand>>,
    pub low_pass: Option<LowPassOptions>,
    pub timescale: Option<TimescaleOptions>,
    pub rotation: Option<RotationOptions>,
    pub tremolo: Option<TremoloOptions>,
    pub vibrato: Option<VibratoOptions>,
    pub karaoke: Option<KaraokeOptions>,
}

impl View for AudioFilters {
    type V = FiltersView;

    open spec fn view(&self) -> FiltersView {
        FiltersView {
            equalizer: match self.equalizer {
                Some(bands) => Some(bands@),
                None => None,
            },
            low_pass: self.low_pass,
            timescale: self.timescale,
            rotation: self.rotation,
            tremolo: self.tremolo,
            vibrato: self.vibrato,
            karaoke: self.karaoke,
        }
    }
}

/// The set with every filter switched off.
pub open spec fn no_filters() -> FiltersView {
    FiltersView {
        equalizer: None,
        low_pass: None,
        timescale: None,
        rotation: None,
        tremolo: None,
        vibrato: None,
        karaoke: None,
    }
}

/// The equalizer bands of the bass boost: the lowest band raised most, the
/// sixth lowered a little.
pub open spec fn bass_boost_bands() -> Seq<EqualizerBand> {
    seq![
        EqualizerBand { band: 0, gain: Hundredths(20) },
        EqualizerBand { band: 1, gain: Hundredths(15) },
        EqualizerBand { band: 2, gain: Hundredths(10) },
        EqualizerBand { band: 3, gain: Hundredths(5) },
        EqualizerBand { band: 4, gain: Hundredths(0) },
        EqualizerBand { band: 5, gain: Hundredths(-5i32) },
    ]
}

/// The preset for a style whose name is given in lowercase. A name that is
/// not known gives the set with every filter switched off, as `clear` does.
pub open spec fn preset(name: Seq<char>) -> FiltersView {
    if name == "bassboost"@ {
        FiltersView { equalizer: Some(bass_boost_bands()), ..no_filters() }
    } else if name == "soft"@ {
        FiltersView {
            low_pass: Some(LowPassOptions { smoothing: Some(Hundredths(2000)) }),
            ..no_filters()
        }
    } else if name == "nightcore"@ {
        FiltersView {
            timescale: Some(
                TimescaleOptions {
                    speed: Some(Hundredths(110)),
                    pitch: Some(Hundredths(110)),
                    rate: Some(Hundredths(100)),
                },
            ),
            ..no_filters()
        }
    } else if name == "vaporwave"@ {
        FiltersView {
            timescale: Some(
                TimescaleOptions {
                    speed: Some(Hundredths(85)),
                    pitch: Some(Hundredths(80)),
                    rate: Some(Hundredths(100)),
                },
            ),
            ..no_filters()
        }
    } else if name == "8d"@ {
        FiltersView {
            rotation: Some(RotationOptions { rotation_hz: Some(Hundredths(20)) }),
            ..no_filters()
        }
    } else if name == "tremolo"@ {
        FiltersView {
            tremolo: Some(
                TremoloOptions { frequency: Some(Hundredths(200)), depth: Some(Hundredths(50)) },
            ),
            ..no_filters()
        }
    } else if name == "vibrato"@ {
        FiltersView {
            vibrato: Some(
                VibratoOptions { frequency: Some(Hundredths(200)), depth: Some(Hundredths(50)) },
            ),
            ..no_filters()
        }
    } else if name == "karaoke"@ {
        FiltersView {
            karaoke: Some(
                KaraokeOptions {
                    level: Some(Hundredths(100)),
                    mono_level: Some(Hundredths(100)),
                    filter_band: Some(Hundredths(22000)),
                    filter_width: Some(Hundredths(10000)),
                },
            ),
            ..no_filters()
        }
    } else {
        no_filters()
    }
}

impl AudioFilters {
    /// The set with every filter switched off.
    pub fn off() -> (filters: AudioFilters)
        ensures
            filters@ == no_filters(),
    {
        AudioFilters {
            equalizer: None,
            low_pass: None,
            timescale: None,
            rotation: None,
            tremolo: None,
            vibrato: None,
            karaoke: None,
        }
    }
}

/// Whether `name` is exactly `expected`.
fn is_name(name: &str, expected: &str) -> (same: bool)
    ensures
        same == (name@ == expected@),
{
    String::from_str(name) == String::from_str(expected)
}

/// The preset for a style whose name is given in lowercase.
pub fn preset_for_name(name: &str) -> (filters: AudioFilters)
    ensures
        filters@ == preset(name@),
{
    let mut filters = AudioFilters::off();
    if is_name(name, "bassboost") {
        let mut bands: Vec<EqualizerBand> = Vec::new();
        bands.push(EqualizerBand { band: 0, gain: Hundredths(20) });
        bands.push(EqualizerBand { band: 1, gain: Hundredths(15) });
        bands.push(EqualizerBand { band: 2, gain: Hundredths(10) });
        bands.push(EqualizerBand { band: 3, gain: Hundredths(5) });
        bands.push(EqualizerBand { band: 4, gain: Hundredths(0) });
        bands.push(EqualizerBand { band: 5, gain: Hundredths(-5) });
        assert(bands@ =~= bass_boost_bands());
        filters.equalizer = Some(bands);
    } else if is_name(name, "soft") {
        filters.low_pass = Some(LowPassOptions { smoothing: Some(Hundredths(2000)) });
    } else if is_name(name, "nightcore") {
        filters.timescale = Some(
            TimescaleOptions {
                speed: Some(Hundredths(110)),
                pitch: Some(Hundredths(110)),
                rate: Some(Hundredths(100)),
            },
        );
    } else if is_name(name, "vaporwave") {
        filters.timescale = Some(
            TimescaleOptions {
                speed: Some(Hundredths(85)),
                pitch: Some(Hundredths(80)),
                rate: Some(Hundredths(100)),
            },
        );
    } else if is_name(name, "8d") {
        filters.rotation = Some(RotationOptions { rotation_hz: Some(Hundredths(20)) });
    } else if is_name(name, "tremolo") {
        filters.tremolo = Some(
            TremoloOptions { frequency: Some(Hundredths(200)), depth: Some(Hundredths(50)) },
        );
    } else if is_name(name, "vibrato") {
        filters.vibrato = Some(
            VibratoOptions { frequency: Some(Hundredths(200)), depth: Some(Hundredths(50)) },
        );
    } else if is_name(name, "karaoke") {
        filters.karaoke = Some(
            KaraokeOptions {
                level: Some(Hundredths(100)),
                mono_level: Some(Hundredths(100)),
                filter_band: Some(Hundredths(22000)),
                filter_width: Some(Hundredths(10000)),
            },
        );
    }
    filters
}

/// The preset for the style `style`, whose name may be written in any case.
pub fn get_filters_for_style(style: &str) -> (filters: AudioFilters)
    ensures
        filters@ == preset(lowercase(style@)),
{
    let name = to_lowercase(style);
    preset_for_name(name.as_str())
}

} // verus!
