use vstd::prelude::*;

use crate::devices::MicrophoneConfig;
use crate::error::CaptureError;

verus! {

/// The sample encoding of an audio stream.
#[derive(Debug, Clone, Copy, PartialEq, Eq, Structural)]
pub enum SampleFormat {
    I8,
    I16,
    I32,
    I64,
    U8,
    U16,
    U32,
    U64,
    F32,
    F64,
    /// An encoding not listed above.
    Other,
}

/// The buffer sizes an input stream accepts.
#[derive(Debug, Clone, Copy, PartialEq, Eq, Structural)]
pub enum BufferSizeRange {
    /// Any size from `min` to `max`, both included.
    Range { min: u32, max: u32 },
    /// The device does not say.
    Unknown,
}

/// A family of input stream settings a microphone supports.
#[derive(Debug, Clone, Copy, PartialEq, Eq, Structural)]
pub struct StreamConfigRange {
    pub channels: u16,
    pub min_sample_rate: u32,
    pub max_sample_rate: u32,
    pub buffer_size: BufferSizeRange,
    pub sample_format: SampleFormat,
}

/// The buffer size requested for a stream.
#[derive(Debug, Clone, Copy, PartialEq, Eq, Structural)]
pub enum BufferSize {
    /// Whatever the device prefers.
    Default,
    /// Exactly this many frames.
    Fixed(u32),
}

/// The settings an input stream is opened with.
#[derive(Debug, Clone, Copy, PartialEq, Eq, Structural)]
pub struct StreamSettings {
    pub channels: u16,
    pub sample_rate: u32,
    pub buffer_size: BufferSize,
}

/// What a microphone proposes when nothing is requested.
#[derive(Debug, Clone, Copy, PartialEq, Eq, Structural)]
pub struct InputDefaults {
    pub channels: u16,
    pub sample_rate: u32,
    pub sample_format: SampleFormat,
}

/// The channel counts offered to users.
pub open spec fn offered_channels() -> Seq<u16> {
    seq![1u16, 2u16]
}

/// The sample rates offered to users, in the order they are listed.
pub open spec fn offered_sample_rates() -> Seq<u32> {
    seq![8000u32, 16000u32, 22050u32, 44100u32, 48000u32, 96000u32]
}

/// The buffer sizes offered to users, in the order they are listed.
pub open spec fn offered_buffer_sizes() -> Seq<u32> {
    seq![128u32, 256u32, 512u32, 1024u32, 2048u32, 4096u32]
}

/// A family is considered when it has a standard channel count and 16-bit signed
/// samples.
pub open spec fn range_considered(r: StreamConfigRange) -> bool {
    offered_channels().contains(r.channels) && r.sample_format == SampleFormat::I16
}

/// A sample rate is passed over only when it lies both below the family's minimum
/// and above its maximum.
pub open spec fn rate_passed_over(r: StreamConfigRange, rate: u32) -> bool {
    rate < r.min_sample_rate && rate > r.max_sample_rate
}

/// A buffer size is offered when the family states a range that holds it.
pub open spec fn size_offered(r: StreamConfigRange, size: u32) -> bool {
    match r.buffer_size {
        BufferSizeRange::Range { min, max } => min <= size <= max,
        BufferSizeRange::Unknown => false,
    }
}

/// The configurations a family offers at `rate`, one per offered size of `sizes`.
pub open spec fn configs_for_sizes(r: StreamConfigRange, rate: u32, sizes: Seq<u32>) -> Seq<MicrophoneConfig>
    decreases sizes.len(),
{
    if sizes.len() == 0 {
        Seq::empty()
    } else {
        configs_for_sizes(r, rate, sizes.drop_last()) + if size_offered(r, sizes.last()) {
            seq![MicrophoneConfig { sample_rate: rate, channels: r.channels, buffer_size: sizes.last() }]
        } else {
            Seq::empty()
        }
    }
}

/// The configurations a family offers over the sample rates `rates`.
pub open spec fn configs_for_rates(r: StreamConfigRange, rates: Seq<u32>) -> Seq<MicrophoneConfig>
    decreases rates.len(),
{
    if rates.len() == 0 {
        Seq::empty()
    } else {
        configs_for_rates(r, rates.drop_last()) + if rate_passed_over(r, rates.last()) {
            Seq::empty()
        } else {
            configs_for_sizes(r, rates.last(), offered_buffer_sizes())
        }
    }
}

/// The configurations one family offers.
pub open spec fn configs_for_range(r: StreamConfigRange) -> Seq<MicrophoneConfig> {
    if range_considered(r) {
        configs_for_rates(r, offered_sample_rates())
    } else {
        Seq::empty()
    }
}

/// The configurations offered by a list of families, family by family, then rate by
/// rate, then size by size.
pub open spec fn configs_from_ranges(ranges: Seq<StreamConfigRange>) -> Seq<MicrophoneConfig>
    decreases ranges.len(),
{
    if ranges.len() == 0 {
        Seq::empty()
    } else {
        configs_from_ranges(ranges.drop_last()) + configs_for_range(ranges.last())
    }
}

/// A configuration a family yields: the family is considered, the configuration has
/// its channel count, a listed sample rate the family does not pass over, and a
/// listed buffer size within the family's stated range.
pub open spec fn yields(r: StreamConfigRange, c: MicrophoneConfig) -> bool {
    &&& range_considered(r)
    &&& c.channels == r.channels
    &&& offered_sample_rates().contains(c.sample_rate)
    &&& !rate_passed_over(r, c.sample_rate)
    &&& offered_buffer_sizes().contains(c.buffer_size)
    &&& size_offered(r, c.buffer_size)
}

proof fn lemma_sizes_sound(r: StreamConfigRange, rate: u32, sizes: Seq<u32>)
    ensures
        forall|k: int|
            0 <= k < configs_for_sizes(r, rate, sizes).len() ==> {
                let c = #[trigger] configs_for_sizes(r, rate, sizes)[k];
                &&& c.channels == r.channels
                &&& c.sample_rate == rate
                &&& sizes.contains(c.buffer_size)
                &&& size_offered(r, c.buffer_size)
            },
    decreases sizes.len(),
{
    if sizes.len() > 0 {
        let prefix = sizes.drop_last();
        lemma_sizes_sound(r, rate, prefix);
        assert forall|k: int| 0 <= k < configs_for_sizes(r, rate, sizes).len() implies {
            let c = #[trigger] configs_for_sizes(r, rate, sizes)[k];
            &&& c.channels == r.channels
            &&& c.sample_rate == rate
            &&& sizes.contains(c.buffer_size)
            &&& size_offered(r, c.buffer_size)
        } by {
            let n = configs_for_sizes(r, rate, prefix).len();
            if k < n {
                let c = configs_for_sizes(r, rate, prefix)[k];
                assert(configs_for_sizes(r, rate, sizes)[k] == c);
                let w = choose|w: int| 0 <= w < prefix.len() && prefix[w] == c.buffer_size;
                assert(sizes[w] == c.buffer_size);
            } else {
                assert(sizes[sizes.len() - 1] == sizes.last());
            }
        }
    }
}

proof fn lemma_rates_sound(r: StreamConfigRange, rates: Seq<u32>)
    ensures
        forall|k: int|
            0 <= k < configs_for_rates(r, rates).len() ==> {
                let c = #[trigger] configs_for_rates(r, rates)[k];
                &&& c.channels == r.channels
                &&& rates.contains(c.sample_rate)
                &&& !rate_passed_over(r, c.sample_rate)
                &&& offered_buffer_sizes().contains(c.buffer_size)
                &&& size_offered(r, c.buffer_size)
            },
    decreases rates.len(),
{
    if rates.len() > 0 {
        let prefix = rates.drop_last();
        lemma_rates_sound(r, prefix);
        lemma_sizes_sound(r, rates.last(), offered_buffer_sizes());
        assert forall|k: int| 0 <= k < configs_for_rates(r, rates).len() implies {
            let c = #[trigger] configs_for_rates(r, rates)[k];
            &&& c.channels == r.channels
            &&& rates.contains(c.sample_rate)
            &&& !rate_passed_over(r, c.sample_rate)
            &&& offered_buffer_sizes().contains(c.buffer_size)
            &&& size_offered(r, c.buffer_size)
        } by {
            let n = configs_for_rates(r, prefix).len();
            if k < n {
                let c = configs_for_rates(r, prefix)[k];
                assert(configs_for_rates(r, rates)[k] == c);
                let w = choose|w: int| 0 <= w < prefix.len() && prefix[w] == c.sample_rate;
                assert(rates[w] == c.sample_rate);
            } else {
                let c = configs_for_sizes(r, rates.last(), offered_buffer_sizes())[k - n];
                assert(configs_for_rates(r, rates)[k] == c);
                assert(rates[rates.len() - 1] == rates.last());
            }
        }
    }
}

/// Every configuration offered comes from one of the families: it is a standard
/// setting the family supports (soundness of the configuration listing).
pub proof fn lemma_offered_configs_are_supported(ranges: Seq<StreamConfigRange>)
    ensures
        forall|k: int|
            0 <= k < configs_from_ranges(ranges).len() ==> exists|i: int|
                0 <= i < ranges.len() && yields(ranges[i], #[trigger] configs_from_ranges(ranges)[k]),
    decreases ranges.len(),
{
    if ranges.len() > 0 {
        let prefix = ranges.drop_last();
        let r = ranges.last();
        lemma_offered_configs_are_supported(prefix);
        lemma_rates_sound(r, offered_sample_rates());
        assert forall|k: int| 0 <= k < configs_from_ranges(ranges).len() implies exists|i: int|
            0 <= i < ranges.len() && yields(ranges[i], #[trigger] configs_from_ranges(ranges)[k]) by {
            let n = configs_from_ranges(prefix).len();
            if k < n {
                let c = configs_from_ranges(prefix)[k];
                assert(configs_from_ranges(ranges)[k] == c);
                let i = choose|i: int| 0 <= i < prefix.len() && yields(prefix[i], c);
                assert(ranges[i] == prefix[i]);
            } else {
                let c = configs_for_range(r)[k - n];
                assert(configs_from_ranges(ranges)[k] == c);
                assert(range_considered(r));
                assert(ranges[ranges.len() - 1] == r);
                assert(yields(ranges[ranges.len() - 1], c));
            }
        }
    }
}

proof fn lemma_sizes_complete(r: StreamConfigRange, rate: u32, sizes: Seq<u32>, size: u32)
    requires
        sizes.contains(size),
        size_offered(r, size),
    ensures
        configs_for_sizes(r, rate, sizes).contains(
            MicrophoneConfig { sample_rate: rate, channels: r.channels, buffer_size: size },
        ),
    decreases sizes.len(),
{
    let c = MicrophoneConfig { sample_rate: rate, channels: r.channels, buffer_size: size };
    let prefix = sizes.drop_last();
    let n = configs_for_sizes(r, rate, prefix).len();
    if sizes.last() == size {
        assert(configs_for_sizes(r, rate, sizes)[n as int] == c);
    } else {
        let w = choose|w: int| 0 <= w < sizes.len() && sizes[w] == size;
        assert(prefix[w] == size);
        lemma_sizes_complete(r, rate, prefix, size);
        let k = choose|k: int| 0 <= k < n && configs_for_sizes(r, rate, prefix)[k] == c;
        assert(configs_for_sizes(r, rate, sizes)[k] == c);
    }
}

proof fn lemma_rates_complete(r: StreamConfigRange, rates: Seq<u32>, c: MicrophoneConfig)
    requires
        c.channels == r.channels,
        rates.contains(c.sample_rate),
        !rate_passed_over(r, c.sample_rate),
        offered_buffer_sizes().contains(c.buffer_size),
        size_offered(r, c.buffer_size),
    ensures
        configs_for_rates(r, rates).contains(c),
    decreases rates.len(),
{
    let prefix = rates.drop_last();
    let n = configs_for_rates(r, prefix).len();
    if rates.last() == c.sample_rate {
        lemma_sizes_complete(r, c.sample_rate, offered_buffer_sizes(), c.buffer_size);
        let k = choose|k: int|
            0 <= k < configs_for_sizes(r, c.sample_rate, offered_buffer_sizes()).len()
                && configs_for_sizes(r, c.sample_rate, offered_buffer_sizes())[k] == c;
        assert(configs_for_rates(r, rates)[n + k] == c);
    } else {
        let w = choose|w: int| 0 <= w < rates.len() && rates[w] == c.sample_rate;
        assert(prefix[w] == c.sample_rate);
        lemma_rates_complete(r, prefix, c);
        let k = choose|k: int| 0 <= k < n && configs_for_rates(r, prefix)[k] == c;
        assert(configs_for_rates(r, rates)[k] == c);
    }
}

/// Every standard setting a considered family supports is offered (completeness of
/// the configuration listing).
pub proof fn lemma_supported_configs_are_offered(ranges: Seq<StreamConfigRange>, i: int, c: MicrophoneConfig)
    requires
        0 <= i < ranges.len(),
        yields(ranges[i], c),
    ensures
        configs_from_ranges(ranges).contains(c),
    decreases ranges.len(),
{
    let prefix = ranges.drop_last();
    let n = configs_from_ranges(prefix).len();
    if i == ranges.len() - 1 {
        let r = ranges.last();
        lemma_rates_complete(r, offered_sample_rates(), c);
        let k = choose|k: int| 0 <= k < configs_for_range(r).len() && configs_for_range(r)[k] == c;
        assert(configs_from_ranges(ranges)[n + k] == c);
    } else {
        assert(prefix[i] == ranges[i]);
        lemma_supported_configs_are_offered(prefix, i, c);
        let k = choose|k: int| 0 <= k < n && configs_from_ranges(prefix)[k] == c;
        assert(configs_from_ranges(ranges)[k] == c);
    }
}

/// A standard rate inside a family's range is never passed over: for a family with
/// one or two channels and 16-bit signed samples, every standard rate from its
/// minimum to its maximum rate, with every standard buffer size within its stated
/// buffer range, is listed.
pub proof fn lemma_rates_in_range_are_listed(
    ranges: Seq<StreamConfigRange>,
    i: int,
    rate: u32,
    size: u32,
    min: u32,
    max: u32,
)
    requires
        0 <= i < ranges.len(),
        ranges[i].channels == 1 || ranges[i].channels == 2,
        ranges[i].sample_format == SampleFormat::I16,
        ranges[i].min_sample_rate <= rate <= ranges[i].max_sample_rate,
        rate == 8000 || rate == 16000 || rate == 22050 || rate == 44100 || rate == 48000 || rate
            == 96000,
        size == 128 || size == 256 || size == 512 || size == 1024 || size == 2048 || size == 4096,
        ranges[i].buffer_size == (BufferSizeRange::Range { min, max }),
        min <= size <= max,
    ensures
        configs_from_ranges(ranges).contains(
            MicrophoneConfig { sample_rate: rate, channels: ranges[i].channels, buffer_size: size },
        ),
{
    let r = ranges[i];
    let c = MicrophoneConfig { sample_rate: rate, channels: r.channels, buffer_size: size };
    assert(offered_channels().contains(r.channels)) by {
        if r.channels == 1 {
            assert(offered_channels()[0] == r.channels);
        } else {
            assert(offered_channels()[1] == r.channels);
        }
    }
    assert(offered_sample_rates().contains(rate)) by {
        let rs = offered_sample_rates();
        if rate == 8000 {
            assert(rs[0] == rate);
        } else if rate == 16000 {
            assert(rs[1] == rate);
        } else if rate == 22050 {
            assert(rs[2] == rate);
        } else if rate == 44100 {
            assert(rs[3] == rate);
        } else if rate == 48000 {
            assert(rs[4] == rate);
        } else {
            assert(rs[5] == rate);
        }
    }
    assert(offered_buffer_sizes().contains(size)) by {
        let bs = offered_buffer_sizes();
        if size == 128 {
            assert(bs[0] == size);
        } else if size == 256 {
            assert(bs[1] == size);
        } else if size == 512 {
            assert(bs[2] == size);
        } else if size == 1024 {
            assert(bs[3] == size);
        } else if size == 2048 {
            assert(bs[4] == size);
        } else {
            assert(bs[5] == size);
        }
    }
    assert(yields(r, c));
    lemma_supported_configs_are_offered(ranges, i, c);
}

/// The standard microphone configurations within the families a microphone supports.
pub fn config_ranges_to_configs(config_ranges: Vec<StreamConfigRange>) -> (res: Result<
    Vec<MicrophoneConfig>,
    CaptureError,
>)
    ensures
        res matches Ok(configs) && configs@ == configs_from_ranges(config_ranges@),
{
    let standard_channels: Vec<u16> = vec![1, 2];
    let standard_sample_rates: Vec<u32> = vec![8000, 16000, 22050, 44100, 48000, 96000];
    let standard_buffer_sizes: Vec<u32> = vec![128, 256, 512, 1024, 2048, 4096];
    assert(standard_channels@ == offered_channels());
    assert(standard_sample_rates@ == offered_sample_rates());
    assert(standard_buffer_sizes@ == offered_buffer_sizes());

    let mut out: Vec<MicrophoneConfig> = Vec::new();
    let mut i: usize = 0;
    while i < config_ranges.len()
        invariant
            i <= config_ranges@.len(),
            standard_channels@ == offered_channels(),
            standard_sample_rates@ == offered_sample_rates(),
            standard_buffer_sizes@ == offered_buffer_sizes(),
            out@ == configs_from_ranges(config_ranges@.take(i as int)),
        decreases config_ranges@.len() - i,
    {
        let cr = config_ranges[i];
        let ghost before_range = out@;
        assert(config_ranges@.take(i + 1).drop_last() =~= config_ranges@.take(i as int));
        let channels_ok = contains_channels(&standard_channels, cr.channels);
        if channels_ok && cr.sample_format == SampleFormat::I16 {
            let mut j: usize = 0;
            while j < standard_sample_rates.len()
                invariant
                    j <= standard_sample_rates@.len(),
                    standard_sample_rates@ == offered_sample_rates(),
                    standard_buffer_sizes@ == offered_buffer_sizes(),
                    out@ == before_range + configs_for_rates(cr, standard_sample_rates@.take(j as int)),
                decreases standard_sample_rates@.len() - j,
            {
                let sample_rate = standard_sample_rates[j];
                let ghost before_rate = out@;
                assert(standard_sample_rates@.take(j + 1).drop_last() =~= standard_sample_rates@.take(
                    j as int,
                ));
                if !(sample_rate < cr.min_sample_rate && sample_rate > cr.max_sample_rate) {
                    let mut k: usize = 0;
                    while k < standard_buffer_sizes.len()
                        invariant
                            k <= standard_buffer_sizes@.len(),
                            standard_buffer_sizes@ == offered_buffer_sizes(),
                            out@ == before_rate + configs_for_sizes(
                                cr,
                                sample_rate,
                                standard_buffer_sizes@.take(k as int),
                            ),
                        decreases standard_buffer_sizes@.len() - k,
                    {
                        let buffer_size = standard_buffer_sizes[k];
                        assert(standard_buffer_sizes@.take(k + 1).drop_last()
                            =~= standard_buffer_sizes@.take(k as int));
                        match cr.buffer_size {
                            BufferSizeRange::Range { min, max } => {
                                if buffer_size >= min && buffer_size <= max {
                                    out.push(
                                        MicrophoneConfig {
                                            sample_rate,
                                            channels: cr.channels,
                                            buffer_size,
                                        },
                                    );
                                }
                            },
                            BufferSizeRange::Unknown => {},
                        }
                        k = k + 1;
                    }
                    assert(standard_buffer_sizes@.take(6) =~= standard_buffer_sizes@);
                }
                j = j + 1;
            }
            assert(standard_sample_rates@.take(6) =~= standard_sample_rates@);
        }
        i = i + 1;
    }
    assert(config_ranges@.take(config_ranges@.len() as int) =~= config_ranges@);
    Ok(out)
}

/// Whether `channels` is one of `allowed`.
fn contains_channels(allowed: &Vec<u16>, channels: u16) -> (found: bool)
    ensures
        found == allowed@.contains(channels),
{
    let mut i: usize = 0;
    while i < allowed.len()
        invariant
            i <= allowed@.len(),
            forall|j: int| 0 <= j < i ==> allowed@[j] != channels,
        decreases allowed@.len() - i,
    {
        if allowed[i] == channels {
            return true;
        }
        i = i + 1;
    }
    false
}

/// The stream settings for a chosen microphone configuration: its channels, its
/// sample rate and exactly its buffer size.
pub fn build_stream_configs(mic_config: &MicrophoneConfig) -> (res: Result<StreamSettings, CaptureError>)
    ensures
        res == Ok::<StreamSettings, CaptureError>(
            StreamSettings {
                channels: mic_config.channels,
                sample_rate: mic_config.sample_rate,
                buffer_size: BufferSize::Fixed(mic_config.buffer_size),
            },
        ),
{
    Ok(
        StreamSettings {
            channels: mic_config.channels,
            sample_rate: mic_config.sample_rate,
            buffer_size: BufferSize::Fixed(mic_config.buffer_size),
        },
    )
}

/// The stream settings and sample format for opening a microphone: each requested
/// value where one is given, the device's default otherwise; the buffer size is the
/// device's preference unless one is requested.
pub fn resolve_stream_settings(
    defaults: &InputDefaults,
    sample_rate: Option<u32>,
    channels: Option<u16>,
    buffer_size: Option<u32>,
    sample_format: Option<SampleFormat>,
) -> (chosen: (StreamSettings, SampleFormat))
    ensures
        chosen.0.channels == (match channels {
            Some(c) => c,
            None => defaults.channels,
        }),
        chosen.0.sample_rate == (match sample_rate {
            Some(r) => r,
            None => defaults.sample_rate,
        }),
        chosen.0.buffer_size == (match buffer_size {
            Some(b) => BufferSize::Fixed(b),
            None => BufferSize::Default,
        }),
        chosen.1 == (match sample_format {
            Some(f) => f,
            None => defaults.sample_format,
        }),
{
    let settings = StreamSettings {
        channels: match channels {
            Some(c) => c,
            None => defaults.channels,
        },
        sample_rate: match sample_rate {
            Some(r) => r,
            None => defaults.sample_rate,
        },
        buffer_size: match buffer_size {
            Some(b) => BufferSize::Fixed(b),
            None => BufferSize::Default,
        },
    };
    let format = match sample_format {
        Some(f) => f,
        None => defaults.sample_format,
    };
    (settings, format)
}

} // verus!
