//! Choosing an output format that both the caller and the service accept.
//!
//! The service offers a fixed table of presets, all of them mono: raw 16-bit PCM at six sample
//! rates, raw A-law and mu-law at 8 kHz, and Ogg/Opus at three sample rates.
//!
//! The caller's lists are in the order of the caller's priority: the first container on the
//! list that can be served is taken, and for it the first sample rate on the list that has a
//! preset. A caller who names no sample rate gets the highest rate that the container has a
//! preset for. A caller who names no container, or an empty list of them, gets the default
//! format. So every format that is handed out is one of the presets.

use vstd::prelude::*;
use crate::audio::{
    AudioChannels, AudioCodec, AudioContainer, AudioEncoding, AudioFormat, AudioFormatPreference,
    AudioFormatPreferenceView,
};

verus! {

/// The sample rate of the default format, the highest that the service offers.
pub const DEFAULT_SAMPLE_RATE: u32 = 48_000;

/// The sample rate of the presets for A-law and mu-law.
pub const COMPANDED_SAMPLE_RATE: u32 = 8_000;

/// Whether the service has a preset for `container` at `rate` Hz.
pub open spec fn spec_has_preset(container: AudioContainer, rate: u32) -> bool {
    match container {
        AudioContainer::Raw(AudioEncoding::PcmI16) => rate == 8_000 || rate == 16_000 || rate
            == 22_050 || rate == 24_000 || rate == 44_100 || rate == 48_000,
        AudioContainer::Raw(AudioEncoding::ALaw) => rate == 8_000,
        AudioContainer::Raw(AudioEncoding::MuLaw) => rate == 8_000,
        AudioContainer::Ogg(AudioCodec::Opus) => rate == 16_000 || rate == 24_000 || rate == 48_000,
        _ => false,
    }
}

/// Whether the service offers `container` at all.
pub open spec fn spec_container_offered(container: AudioContainer) -> bool {
    match container {
        AudioContainer::Raw(AudioEncoding::PcmI16) => true,
        AudioContainer::Raw(AudioEncoding::ALaw) => true,
        AudioContainer::Raw(AudioEncoding::MuLaw) => true,
        AudioContainer::Ogg(AudioCodec::Opus) => true,
        _ => false,
    }
}

/// Whether a channel preference admits mono, the only layout on offer.
pub open spec fn spec_accepts_mono(channels: Option<Seq<AudioChannels>>) -> bool {
    match channels {
        None => true,
        Some(list) => list.contains(AudioChannels::Mono),
    }
}

/// Whether `rate` is the highest rate that `container` has a preset for.
pub open spec fn spec_is_top_rate(container: AudioContainer, rate: u32) -> bool {
    &&& spec_has_preset(container, rate)
    &&& forall|other: u32| #[trigger] spec_has_preset(container, other) ==> other <= rate
}

/// The rate that a container is served at where the caller names none: the highest that it has
/// a preset for.
pub open spec fn spec_top_rate(container: AudioContainer) -> u32 {
    match container {
        AudioContainer::Raw(AudioEncoding::ALaw) => COMPANDED_SAMPLE_RATE,
        AudioContainer::Raw(AudioEncoding::MuLaw) => COMPANDED_SAMPLE_RATE,
        _ => DEFAULT_SAMPLE_RATE,
    }
}

/// For every container on offer, `spec_top_rate` is the highest rate with a preset.
pub proof fn lemma_top_rate(container: AudioContainer)
    requires
        spec_container_offered(container),
    ensures
        spec_is_top_rate(container, spec_top_rate(container)),
{
}

/// Whether `rate` is the caller's first choice out of `rates` that `container` can be served
/// at: it stands on the list with a preset, and no rate before it on the list has one.
pub open spec fn spec_is_preferred_rate(
    container: AudioContainer,
    rates: Seq<u32>,
    rate: u32,
) -> bool {
    exists|i: int|
        0 <= i < rates.len() && #[trigger] rates[i] == rate && spec_has_preset(container, rate)
            && forall|k: int| 0 <= k < i ==> !spec_has_preset(container, #[trigger] rates[k])
}

/// Whether some rate on the list has a preset for `container`.
pub open spec fn spec_some_rate_matches(container: AudioContainer, rates: Seq<u32>) -> bool {
    exists|i: int| 0 <= i < rates.len() && spec_has_preset(container, #[trigger] rates[i])
}

/// The first rate on the list for which `container` has a preset.
pub open spec fn spec_preferred_rate(container: AudioContainer, rates: Seq<u32>) -> Option<u32>
    decreases rates.len(),
{
    if rates.len() == 0 {
        None
    } else if spec_has_preset(container, rates[0]) {
        Some(rates[0])
    } else {
        spec_preferred_rate(container, rates.drop_first())
    }
}

/// The mono format without a bitrate that the negotiation hands out.
pub open spec fn spec_mono_format(container: AudioContainer, rate: u32) -> AudioFormat {
    AudioFormat { sample_rate: rate, channels: AudioChannels::Mono, bitrate: None, container }
}

/// The format chosen for one container, if the container can be served.
pub open spec fn spec_match_container(
    container: AudioContainer,
    rates: Option<Seq<u32>>,
    channels: Option<Seq<AudioChannels>>,
) -> Option<AudioFormat> {
    if !spec_container_offered(container) || !spec_accepts_mono(channels) {
        None
    } else {
        match rates {
            None => Some(spec_mono_format(container, spec_top_rate(container))),
            Some(list) => match spec_preferred_rate(container, list) {
                Some(rate) => Some(spec_mono_format(container, rate)),
                None => None,
            },
        }
    }
}

/// The format of the first container on the list that can be served.
pub open spec fn spec_first_match(
    containers: Seq<AudioContainer>,
    rates: Option<Seq<u32>>,
    channels: Option<Seq<AudioChannels>>,
) -> Option<AudioFormat>
    decreases containers.len(),
{
    if containers.len() == 0 {
        None
    } else {
        match spec_match_container(containers[0], rates, channels) {
            Some(format) => Some(format),
            None => spec_first_match(containers.drop_first(), rates, channels),
        }
    }
}

/// The format the service is asked for when the caller names no container: 48 kHz mono raw
/// 16-bit PCM.
pub open spec fn spec_default_format() -> AudioFormat {
    spec_mono_format(AudioContainer::Raw(AudioEncoding::PcmI16), DEFAULT_SAMPLE_RATE)
}

/// Whether the caller names no container: the list is absent or empty.
pub open spec fn spec_names_no_container(pref: AudioFormatPreferenceView) -> bool {
    match pref.containers {
        None => true,
        Some(containers) => containers.len() == 0,
    }
}

/// The outcome of a negotiation: where the caller names no container the default format,
/// whatever else is asked for; otherwise the first container on the list that can be served.
pub open spec fn spec_negotiate(pref: AudioFormatPreferenceView) -> Option<AudioFormat> {
    if spec_names_no_container(pref) {
        Some(spec_default_format())
    } else {
        spec_first_match(pref.containers.unwrap(), pref.sample_rates, pref.channels)
    }
}

/// `spec_preferred_rate` finds a rate exactly when one on the list has a preset, and the rate
/// found is the first such rate on the list.
pub proof fn lemma_preferred_rate(container: AudioContainer, rates: Seq<u32>)
    ensures
        spec_preferred_rate(container, rates) is Some <==> spec_some_rate_matches(container, rates),
        spec_preferred_rate(container, rates) is Some ==> spec_is_preferred_rate(
            container,
            rates,
            spec_preferred_rate(container, rates).unwrap(),
        ),
    decreases rates.len(),
{
    if rates.len() > 0 {
        let later = rates.drop_first();
        lemma_preferred_rate(container, later);
        assert(forall|i: int| 0 <= i < later.len() ==> later[i] == rates[i + 1]);
        if spec_has_preset(container, rates[0]) {
            assert(spec_some_rate_matches(container, rates));
            assert(spec_is_preferred_rate(container, rates, rates[0]));
        } else {
            if spec_some_rate_matches(container, rates) {
                let i = choose|i: int| 0 <= i < rates.len() && spec_has_preset(container, rates[i]);
                assert(spec_has_preset(container, later[i - 1]));
            }
            if spec_some_rate_matches(container, later) {
                let i = choose|i: int| 0 <= i < later.len() && spec_has_preset(container, later[i]);
                assert(spec_has_preset(container, rates[i + 1]));
            }
            if spec_preferred_rate(container, later) is Some {
                let rate = spec_preferred_rate(container, later).unwrap();
                let i = choose|i: int|
                    0 <= i < later.len() && #[trigger] later[i] == rate && spec_has_preset(
                        container,
                        rate,
                    ) && forall|k: int|
                        0 <= k < i ==> !spec_has_preset(container, #[trigger] later[k]);
                assert(rates[i + 1] == rate);
                assert forall|k: int| 0 <= k < i + 1 implies !spec_has_preset(
                    container,
                    #[trigger] rates[k],
                ) by {
                    if k > 0 {
                        assert(later[k - 1] == rates[k]);
                    }
                }
                assert(spec_is_preferred_rate(container, rates, rate));
            }
        }
    }
}

fn has_preset(container: AudioContainer, rate: u32) -> (found: bool)
    ensures
        found == spec_has_preset(container, rate),
{
    match container {
        AudioContainer::Raw(AudioEncoding::PcmI16) => rate == 8_000 || rate == 16_000 || rate
            == 22_050 || rate == 24_000 || rate == 44_100 || rate == 48_000,
        AudioContainer::Raw(AudioEncoding::ALaw) => rate == 8_000,
        AudioContainer::Raw(AudioEncoding::MuLaw) => rate == 8_000,
        AudioContainer::Ogg(AudioCodec::Opus) => rate == 16_000 || rate == 24_000 || rate == 48_000,
        _ => false,
    }
}

fn container_offered(container: AudioContainer) -> (offered: bool)
    ensures
        offered == spec_container_offered(container),
{
    match container {
        AudioContainer::Raw(AudioEncoding::PcmI16) => true,
        AudioContainer::Raw(AudioEncoding::ALaw) => true,
        AudioContainer::Raw(AudioEncoding::MuLaw) => true,
        AudioContainer::Ogg(AudioCodec::Opus) => true,
        _ => false,
    }
}

fn accepts_mono(channels: &Option<Vec<AudioChannels>>) -> (accepted: bool)
    ensures
        accepted == spec_accepts_mono(
            match *channels {
                Some(list) => Some(list@),
                None => None,
            },
        ),
{
    match channels {
        None => true,
        Some(list) => {
            let mut i: usize = 0;
            while i < list.len()
                invariant
                    i <= list.len(),
                    *channels == Some(*list),
                    forall|k: int| 0 <= k < i ==> list@[k] != AudioChannels::Mono,
                decreases list.len() - i,
            {
                if list[i] == AudioChannels::Mono {
                    return true;
                }
                i += 1;
            }
            false
        },
    }
}

fn preferred_rate(container: AudioContainer, rates: &Vec<u32>) -> (found: Option<u32>)
    ensures
        found == spec_preferred_rate(container, rates@),
{
    let mut i: usize = 0;
    proof {
        assert(rates@.skip(0) =~= rates@);
    }
    while i < rates.len()
        invariant
            i <= rates.len(),
            spec_preferred_rate(container, rates@) == spec_preferred_rate(
                container,
                rates@.skip(i as int),
            ),
        decreases rates.len() - i,
    {
        let rate: u32 = rates[i];
        if has_preset(container, rate) {
            return Some(rate);
        }
        proof {
            assert(rates@.skip(i as int).drop_first() =~= rates@.skip(i + 1));
        }
        i += 1;
    }
    None
}

fn top_rate(container: AudioContainer) -> (rate: u32)
    ensures
        rate == spec_top_rate(container),
{
    match container {
        AudioContainer::Raw(AudioEncoding::ALaw) => COMPANDED_SAMPLE_RATE,
        AudioContainer::Raw(AudioEncoding::MuLaw) => COMPANDED_SAMPLE_RATE,
        _ => DEFAULT_SAMPLE_RATE,
    }
}

/// The format for one container of the caller's list, or `None` where the service cannot serve
/// it: the container is not on offer, the caller's channels leave mono out, or none of the
/// caller's sample rates has a preset. The sample rate is the first on the caller's list that
/// has a preset, or, where the caller names none, the highest that the container has a preset
/// for.
pub fn match_container(
    container: AudioContainer,
    sample_rates: &Option<Vec<u32>>,
    channels: &Option<Vec<AudioChannels>>,
) -> (format: Option<AudioFormat>)
    ensures
        format == spec_match_container(
            container,
            match *sample_rates {
                Some(list) => Some(list@),
                None => None,
            },
            match *channels {
                Some(list) => Some(list@),
                None => None,
            },
        ),
{
    if !container_offered(container) || !accepts_mono(channels) {
        return None;
    }
    match sample_rates {
        None => Some(AudioFormat::new(top_rate(container), AudioChannels::Mono, None, container)),
        Some(list) => match preferred_rate(container, list) {
            Some(rate) => Some(AudioFormat::new(rate, AudioChannels::Mono, None, container)),
            None => None,
        },
    }
}

fn default_format() -> (format: AudioFormat)
    ensures
        format == spec_default_format(),
{
    AudioFormat::new(
        DEFAULT_SAMPLE_RATE,
        AudioChannels::Mono,
        None,
        AudioContainer::Raw(AudioEncoding::PcmI16),
    )
}

fn negotiate(pref: &AudioFormatPreference) -> (format: Option<AudioFormat>)
    ensures
        format == spec_negotiate(pref@),
{
    match &pref.containers {
        None => Some(default_format()),
        Some(containers) => {
            if containers.len() == 0 {
                return Some(default_format());
            }
            let mut i: usize = 0;
            proof {
                assert(containers@.skip(0) =~= containers@);
            }
            while i < containers.len()
                invariant
                    i <= containers.len(),
                    spec_negotiate(pref@) == spec_first_match(
                        containers@.skip(i as int),
                        pref@.sample_rates,
                        pref@.channels,
                    ),
                    pref.containers == Some(*containers),
                decreases containers.len() - i,
            {
                proof {
                    assert(containers@.skip(i as int).drop_first() =~= containers@.skip(i + 1));
                }
                match match_container(containers[i], &pref.sample_rates, &pref.channels) {
                    Some(format) => {
                        return Some(format);
                    },
                    None => {},
                }
                i += 1;
            }
            None
        },
    }
}

/// Picks the format to ask the service for, or `None` when nothing the caller accepts is on
/// offer. A caller who names no container, by an absent list or an empty one, gets the default
/// format. The format that is picked is one of the service's presets.
pub fn negotiate_audio_format(pref: &AudioFormatPreference) -> (format: Option<AudioFormat>)
    ensures
        format == spec_negotiate(pref@),
        spec_names_no_container(pref@) ==> format == Some(spec_default_format()),
        format matches Some(chosen) ==> chosen.channels == AudioChannels::Mono && spec_has_preset(
            chosen.container,
            chosen.sample_rate,
        ),
{
    let format = negotiate(pref);
    proof {
        if format is Some {
            lemma_negotiated_is_preset(pref@, format.unwrap());
        }
    }
    format
}

/// The outcome of a negotiation depends on the containers, sample rates and channels that the
/// caller names and on nothing else: two preferences that agree on these negotiate the same
/// format, whatever their bitrates.
pub proof fn lemma_negotiation_deterministic(
    first: AudioFormatPreferenceView,
    second: AudioFormatPreferenceView,
)
    requires
        first.containers == second.containers,
        first.sample_rates == second.sample_rates,
        first.channels == second.channels,
    ensures
        spec_negotiate(first) == spec_negotiate(second),
{
}

/// The preference that names exactly one format.
pub open spec fn spec_preference_for(format: AudioFormat) -> AudioFormatPreferenceView {
    AudioFormatPreferenceView {
        sample_rates: Some(seq![format.sample_rate]),
        channels: Some(seq![format.channels]),
        bitrates: None,
        containers: Some(seq![format.container]),
    }
}

/// Negotiating again with the format that a negotiation chose as the only preference chooses
/// that format again.
pub proof fn lemma_negotiation_idempotent(pref: AudioFormatPreferenceView, format: AudioFormat)
    requires
        spec_negotiate(pref) == Some(format),
    ensures
        spec_negotiate(spec_preference_for(format)) == Some(format),
{
    lemma_negotiated_is_preset(pref, format);
    lemma_negotiated_is_mono(pref, format);
    let rates = seq![format.sample_rate];
    let containers = seq![format.container];
    assert(rates[0] == format.sample_rate);
    assert(spec_preferred_rate(format.container, rates) == Some(format.sample_rate));
    assert(seq![format.channels][0] == AudioChannels::Mono);
    assert(containers[0] == format.container);
    assert(spec_match_container(format.container, Some(rates), Some(seq![format.channels]))
        == Some(format));
}

/// Every negotiated format is one that the service offers: it has a preset.
pub proof fn lemma_negotiated_is_preset(pref: AudioFormatPreferenceView, format: AudioFormat)
    requires
        spec_negotiate(pref) == Some(format),
    ensures
        spec_has_preset(format.container, format.sample_rate),
        format.channels == AudioChannels::Mono,
{
    lemma_negotiated_is_mono(pref, format);
    if !spec_names_no_container(pref) && pref.sample_rates is Some {
        lemma_preferred_rate(format.container, pref.sample_rates.unwrap());
    }
}

/// Every negotiated format is mono, carries no bitrate, and has a container that the service
/// offers. Where the caller names containers, the container is one of them, and the sample rate
/// is the first on the caller's list that the container has a preset for, or, where the caller
/// names no rate, the highest that the container has a preset for.
pub proof fn lemma_negotiated_is_mono(pref: AudioFormatPreferenceView, format: AudioFormat)
    requires
        spec_negotiate(pref) == Some(format),
    ensures
        format.channels == AudioChannels::Mono,
        format.bitrate is None,
        spec_container_offered(format.container),
        spec_names_no_container(pref) ==> format == spec_default_format(),
        !spec_names_no_container(pref) ==> pref.containers.unwrap().contains(format.container),
        !spec_names_no_container(pref) && pref.sample_rates is Some ==> spec_is_preferred_rate(
            format.container,
            pref.sample_rates.unwrap(),
            format.sample_rate,
        ),
        pref.sample_rates is None ==> spec_is_top_rate(format.container, format.sample_rate),
{
    if !spec_names_no_container(pref) {
        lemma_first_match(pref.containers.unwrap(), pref.sample_rates, pref.channels);
        if pref.sample_rates is Some {
            lemma_preferred_rate(format.container, pref.sample_rates.unwrap());
        }
    }
    lemma_top_rate(format.container);
}

/// The first match is the match of some container on the list, and every container before it
/// could not be served.
pub proof fn lemma_first_match(
    containers: Seq<AudioContainer>,
    rates: Option<Seq<u32>>,
    channels: Option<Seq<AudioChannels>>,
)
    ensures
        match spec_first_match(containers, rates, channels) {
            Some(format) => exists|i: int|
                0 <= i < containers.len() && #[trigger] spec_match_container(
                    containers[i],
                    rates,
                    channels,
                ) == Some(format) && format.container == containers[i] && forall|k: int|
                    0 <= k < i ==> #[trigger] spec_match_container(containers[k], rates, channels)
                        is None,
            None => forall|i: int|
                0 <= i < containers.len() ==> #[trigger] spec_match_container(
                    containers[i],
                    rates,
                    channels,
                ) is None,
        },
    decreases containers.len(),
{
    if containers.len() > 0 {
        let rest = containers.drop_first();
        lemma_first_match(rest, rates, channels);
        assert(forall|i: int| 0 <= i < rest.len() ==> rest[i] == containers[i + 1]);
        match spec_match_container(containers[0], rates, channels) {
            Some(format) => {
                assert(spec_match_container(containers[0], rates, channels) == Some(format));
            },
            None => {
                match spec_first_match(rest, rates, channels) {
                    Some(format) => {
                        let i = choose|i: int|
                            0 <= i < rest.len() && #[trigger] spec_match_container(
                                rest[i],
                                rates,
                                channels,
                            ) == Some(format) && format.container == rest[i] && forall|k: int|
                                0 <= k < i ==> #[trigger] spec_match_container(
                                    rest[k],
                                    rates,
                                    channels,
                                ) is None;
                        assert(spec_match_container(containers[i + 1], rates, channels) == Some(
                            format,
                        ));
                        assert forall|k: int| 0 <= k < i + 1 implies #[trigger] spec_match_container(
                            containers[k],
                            rates,
                            channels,
                        ) is None by {
                            if k > 0 {
                                assert(rest[k - 1] == containers[k]);
                            }
                        }
                    },
                    None => {
                        assert forall|i: int| 0 <= i < containers.len() implies
                            #[trigger] spec_match_container(containers[i], rates, channels)
                            is None by {
                            if i > 0 {
                                assert(rest[i - 1] == containers[i]);
                            }
                        }
                    },
                }
            },
        }
    }
}

/// A container for which the caller names only sample rates without a preset is passed over:
/// the search goes on with the containers after it.
pub proof fn lemma_unsupported_rates_fall_through(
    containers: Seq<AudioContainer>,
    rates: Seq<u32>,
    channels: Option<Seq<AudioChannels>>,
)
    requires
        containers.len() > 0,
        !spec_some_rate_matches(containers[0], rates),
    ensures
        spec_first_match(containers, Some(rates), channels) == spec_first_match(
            containers.drop_first(),
            Some(rates),
            channels,
        ),
{
    lemma_preferred_rate(containers[0], rates);
}

/// Where the caller names only sample rates without a preset for every container on the list,
/// nothing matches.
pub proof fn lemma_unsupported_rates_no_match(
    containers: Seq<AudioContainer>,
    rates: Seq<u32>,
    channels: Option<Seq<AudioChannels>>,
)
    requires
        forall|i: int| 0 <= i < containers.len() ==> !spec_some_rate_matches(containers[i], rates),
    ensures
        spec_first_match(containers, Some(rates), channels) is None,
    decreases containers.len(),
{
    if containers.len() > 0 {
        lemma_preferred_rate(containers[0], rates);
        let rest = containers.drop_first();
        assert(forall|i: int| 0 <= i < rest.len() ==> rest[i] == containers[i + 1]);
        lemma_unsupported_rates_no_match(rest, rates, channels);
    }
}

/// The preference with its first container taken off the list.
pub open spec fn spec_without_first_container(
    pref: AudioFormatPreferenceView,
) -> AudioFormatPreferenceView
    recommends
        !spec_names_no_container(pref),
{
    AudioFormatPreferenceView { containers: Some(pref.containers.unwrap().drop_first()), ..pref }
}

/// A negotiation whose first container has no preset at any of the caller's sample rates ends
/// as the negotiation without that container does, where another container remains, and
/// without a match where none remains.
pub proof fn lemma_negotiation_falls_through(pref: AudioFormatPreferenceView)
    requires
        !spec_names_no_container(pref),
        pref.sample_rates is Some,
        !spec_some_rate_matches(pref.containers.unwrap()[0], pref.sample_rates.unwrap()),
    ensures
        pref.containers.unwrap().len() > 1 ==> spec_negotiate(pref) == spec_negotiate(
            spec_without_first_container(pref),
        ),
        pref.containers.unwrap().len() == 1 ==> spec_negotiate(pref) is None,
{
    let containers = pref.containers.unwrap();
    lemma_unsupported_rates_fall_through(containers, pref.sample_rates.unwrap(), pref.channels);
    if containers.len() == 1 {
        assert(containers.drop_first().len() == 0);
    }
}

} // verus!
