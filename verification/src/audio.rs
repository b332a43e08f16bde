//! Audio formats and the preferences a caller negotiates them with.

use vstd::prelude::*;

verus! {

#[derive(Clone, Copy, Debug, PartialEq, Eq, Structural)]
pub enum AudioCodec {
    Opus,
    Vorbis,
}

#[derive(Clone, Copy, Debug, PartialEq, Eq, Structural)]
pub enum AudioEncoding {
    /// Signed 16-bit PCM.
    PcmI16,
    /// 32-bit floating point PCM.
    PcmF32,
    /// 8-bit A-law.
    ALaw,
    /// 8-bit mu-law.
    MuLaw,
}

#[derive(Clone, Copy, Debug, PartialEq, Eq, Structural)]
pub enum AudioChannels {
    Mono,
    Stereo,
}

#[derive(Clone, Copy, Debug, PartialEq, Eq, Structural)]
pub enum AudioContainer {
    /// Containerless audio.
    Raw(AudioEncoding),
    /// RIFF (.wav) audio.
    Riff(AudioEncoding),
    Mp3,
    Ogg(AudioCodec),
    Webm(AudioCodec),
}

/// One concrete output format.
#[derive(Clone, Copy, Debug, PartialEq, Eq, Structural)]
pub struct AudioFormat {
    pub sample_rate: u32,
    pub channels: AudioChannels,
    pub bitrate: Option<u16>,
    pub container: AudioContainer,
}

/// What a caller is willing to accept, each list in priority order. An absent list accepts
/// anything.
#[derive(Clone, Debug)]
pub struct AudioFormatPreference {
    pub sample_rates: Option<Vec<u32>>,
    pub channels: Option<Vec<AudioChannels>>,
    pub bitrates: Option<Vec<u16>>,
    pub containers: Option<Vec<AudioContainer>>,
}

/// The mathematical content of an [`AudioFormatPreference`].
pub struct AudioFormatPreferenceView {
    pub sample_rates: Option<Seq<u32>>,
    pub channels: Option<Seq<AudioChannels>>,
    pub bitrates: Option<Seq<u16>>,
    pub containers: Option<Seq<AudioContainer>>,
}

impl View for AudioFormatPreference {
    type V = AudioFormatPreferenceView;

    open spec fn view(&self) -> AudioFormatPreferenceView {
        AudioFormatPreferenceView {
            sample_rates: match self.sample_rates {
                Some(v) => Some(v@),
                None => None,
            },
            channels: match self.channels {
                Some(v) => Some(v@),
                None => None,
            },
            bitrates: match self.bitrates {
                Some(v) => Some(v@),
                None => None,
            },
            containers: match self.containers {
                Some(v) => Some(v@),
                None => None,
            },
        }
    }
}

impl AudioFormat {
    pub fn new(
        sample_rate: u32,
        channels: AudioChannels,
        bitrate: Option<u16>,
        container: AudioContainer,
    ) -> (format: AudioFormat)
        ensures
            format == (AudioFormat { sample_rate, channels, bitrate, container }),
    {
        AudioFormat { sample_rate, channels, bitrate, container }
    }

    pub fn sample_rate(&self) -> (rate: u32)
        ensures
            rate == self.sample_rate,
    {
        self.sample_rate
    }

    pub fn channels(&self) -> (channels: AudioChannels)
        ensures
            channels == self.channels,
    {
        self.channels
    }

    pub fn bitrate(&self) -> (bitrate: Option<u16>)
        ensures
            bitrate == self.bitrate,
    {
        self.bitrate
    }

    pub fn container(&self) -> (container: AudioContainer)
        ensures
            container == self.container,
    {
        self.container
    }
}

impl Default for AudioFormatPreference {
    /// The preference that accepts anything.
    fn default() -> (pref: Self)
        ensures
            pref@ == (AudioFormatPreferenceView {
                sample_rates: None,
                channels: None,
                bitrates: None,
                containers: None,
            }),
    {
        AudioFormatPreference { sample_rates: None, channels: None, bitrates: None, containers: None }
    }
}

} // verus!
