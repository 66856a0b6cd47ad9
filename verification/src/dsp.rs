//! The kinds of signal processing the audio engine offers.
use vstd::prelude::*;

verus! {

/// Window functions for FFT analysis.
#[derive(Clone, Copy, Debug, PartialEq, Eq, Default, Structural)]
pub enum WindowFunction {
    /// No windowing (rectangular)
    Rectangular,
    /// Hann window (good general purpose)
    #[default]
    Hann,
    /// Hamming window
    Hamming,
    /// Blackman window (better sidelobe rejection)
    Blackman,
    /// Blackman-Harris window (best sidelobe rejection)
    BlackmanHarris,
    /// Flat-top window (accurate amplitude measurement)
    FlatTop,
}

/// Biquad filter types.
#[derive(Clone, Copy, Debug, PartialEq, Eq, Structural)]
pub enum FilterType {
    /// Low-pass filter
    LowPass,
    /// High-pass filter
    HighPass,
    /// Band-pass filter (constant skirt gain)
    BandPass,
    /// Band-pass filter (constant 0 dB peak gain)
    BandPassPeak,
    /// Notch filter (band-reject)
    Notch,
    /// All-pass filter
    AllPass,
    /// Peaking EQ filter
    PeakingEq,
    /// Low shelf filter
    LowShelf,
    /// High shelf filter
    HighShelf,
}

/// Visualization modes.
#[derive(Clone, Copy, Debug, PartialEq, Eq, Default, Structural)]
pub enum VisualizationMode {
    /// No visualization
    Off,
    /// Spectrum analyzer (bar graph)
    #[default]
    Spectrum,
    /// Spectrum with peak hold
    SpectrumPeaks,
    /// Oscilloscope waveform
    Waveform,
    /// Stereo oscilloscope (Lissajous)
    Stereo,
    /// VU meter style
    VuMeter,
    /// Combined spectrum and waveform
    Combined,
}

} // verus!
