use vstd::prelude::*;

use crate::devices::{CameraConfig, DeviceCommand};
use crate::error::CaptureError;

verus! {

/// A rational number of seconds.
#[derive(Debug, Clone, Copy, PartialEq, Eq, Structural)]
pub struct Fraction {
    pub numerator: u32,
    pub denominator: u32,
}

/// The frame intervals a camera supports for one pixel format and frame size.
#[derive(Debug, Clone, Copy, PartialEq, Eq, Structural)]
pub enum FrameInterval {
    /// Exactly this interval.
    Discrete(Fraction),
    /// Any interval from `min` to `max` in increments of `step`.
    Stepwise { min: Fraction, max: Fraction, step: Fraction },
}

/// A frame size a camera supports, with the frame intervals it supports at that size.
#[derive(Debug, Clone)]
pub struct FrameSizeModes {
    pub width: u32,
    pub height: u32,
    pub intervals: Vec<FrameInterval>,
}

/// A pixel format a camera supports, with the frame sizes it supports in that format.
#[derive(Debug, Clone)]
pub struct FormatModes {
    pub fourcc: [u8; 4],
    pub sizes: Vec<FrameSizeModes>,
}

/// What to do after looking for a command before capturing the next frame.
#[derive(Debug, Clone, Copy, PartialEq, Eq, Structural)]
pub enum CommandPoll {
    /// A command was waiting.
    Received(DeviceCommand),
    /// No command was waiting.
    Empty,
    /// The controlling side is gone.
    Disconnected,
}

/// The next step of a capture loop.
#[derive(Debug, Clone, Copy, PartialEq, Eq, Structural)]
pub enum CaptureAction {
    /// Capture and hand out the next frame.
    Capture,
    /// Leave the loop and stop the stream.
    Finish,
}

/// The interval fraction recorded for a frame interval: the interval itself, or the
/// step of a stepwise range.
pub open spec fn interval_fraction(interval: FrameInterval) -> (u32, u32) {
    match interval {
        FrameInterval::Discrete(f) => (f.numerator, f.denominator),
        FrameInterval::Stepwise { step, .. } => (step.numerator, step.denominator),
    }
}

/// The camera configuration for a pixel format, frame size and frame interval.
pub open spec fn config_for(fourcc: [u8; 4], width: u32, height: u32, interval: FrameInterval) -> CameraConfig {
    CameraConfig { width, height, fps: interval_fraction(interval), fourcc }
}

/// The configurations of one frame size, one per interval in order.
pub open spec fn configs_for_intervals(fourcc: [u8; 4], width: u32, height: u32, intervals: Seq<FrameInterval>) -> Seq<
    CameraConfig,
> {
    intervals.map_values(|i: FrameInterval| config_for(fourcc, width, height, i))
}

/// The configurations of one pixel format, frame size by frame size.
pub open spec fn configs_for_sizes(fourcc: [u8; 4], sizes: Seq<FrameSizeModes>) -> Seq<CameraConfig>
    decreases sizes.len(),
{
    if sizes.len() == 0 {
        Seq::empty()
    } else {
        configs_for_sizes(fourcc, sizes.drop_last()) + configs_for_intervals(
            fourcc,
            sizes.last().width,
            sizes.last().height,
            sizes.last().intervals@,
        )
    }
}

/// The configurations of all pixel formats, format by format.
pub open spec fn configs_for_formats(formats: Seq<FormatModes>) -> Seq<CameraConfig>
    decreases formats.len(),
{
    if formats.len() == 0 {
        Seq::empty()
    } else {
        configs_for_formats(formats.drop_last()) + configs_for_sizes(
            formats.last().fourcc,
            formats.last().sizes@,
        )
    }
}

proof fn lemma_sizes_list_interval(fourcc: [u8; 4], sizes: Seq<FrameSizeModes>, j: int, k: int)
    requires
        0 <= j < sizes.len(),
        0 <= k < sizes[j].intervals@.len(),
    ensures
        configs_for_sizes(fourcc, sizes).contains(
            config_for(fourcc, sizes[j].width, sizes[j].height, sizes[j].intervals@[k]),
        ),
    decreases sizes.len(),
{
    let prefix = sizes.drop_last();
    let n = configs_for_sizes(fourcc, prefix).len();
    if j == sizes.len() - 1 {
        assert(configs_for_sizes(fourcc, sizes)[n + k] == config_for(
            fourcc,
            sizes[j].width,
            sizes[j].height,
            sizes[j].intervals@[k],
        ));
    } else {
        assert(prefix[j] == sizes[j]);
        lemma_sizes_list_interval(fourcc, prefix, j, k);
        let m = choose|m: int|
            0 <= m < n && configs_for_sizes(fourcc, prefix)[m] == config_for(
                fourcc,
                sizes[j].width,
                sizes[j].height,
                sizes[j].intervals@[k],
            );
        assert(configs_for_sizes(fourcc, sizes)[m] == configs_for_sizes(fourcc, prefix)[m]);
    }
}

proof fn lemma_formats_list_interval(formats: Seq<FormatModes>, i: int, j: int, k: int)
    requires
        0 <= i < formats.len(),
        0 <= j < formats[i].sizes@.len(),
        0 <= k < formats[i].sizes@[j].intervals@.len(),
    ensures
        configs_for_formats(formats).contains(
            config_for(
                formats[i].fourcc,
                formats[i].sizes@[j].width,
                formats[i].sizes@[j].height,
                formats[i].sizes@[j].intervals@[k],
            ),
        ),
    decreases formats.len(),
{
    let prefix = formats.drop_last();
    let n = configs_for_formats(prefix).len();
    let c = config_for(
        formats[i].fourcc,
        formats[i].sizes@[j].width,
        formats[i].sizes@[j].height,
        formats[i].sizes@[j].intervals@[k],
    );
    if i == formats.len() - 1 {
        lemma_sizes_list_interval(formats[i].fourcc, formats[i].sizes@, j, k);
        let m = choose|m: int|
            0 <= m < configs_for_sizes(formats[i].fourcc, formats[i].sizes@).len()
                && configs_for_sizes(formats[i].fourcc, formats[i].sizes@)[m] == c;
        assert(configs_for_formats(formats)[n + m] == c);
    } else {
        assert(prefix[i] == formats[i]);
        lemma_formats_list_interval(prefix, i, j, k);
        let m = choose|m: int| 0 <= m < n && configs_for_formats(prefix)[m] == c;
        assert(configs_for_formats(formats)[m] == c);
    }
}

/// Every interval of every frame size of every pixel format gives a listed
/// configuration: that format and size, with the interval's fraction as its frame
/// interval, or the step's fraction for a stepwise interval.
pub proof fn lemma_every_interval_is_listed(formats: Seq<FormatModes>, i: int, j: int, k: int)
    requires
        0 <= i < formats.len(),
        0 <= j < formats[i].sizes@.len(),
        0 <= k < formats[i].sizes@[j].intervals@.len(),
    ensures
        configs_for_formats(formats).contains(
            CameraConfig {
                width: formats[i].sizes@[j].width,
                height: formats[i].sizes@[j].height,
                fps: match formats[i].sizes@[j].intervals@[k] {
                    FrameInterval::Discrete(f) => (f.numerator, f.denominator),
                    FrameInterval::Stepwise { step, .. } => (step.numerator, step.denominator),
                },
                fourcc: formats[i].fourcc,
            },
        ),
{
    lemma_formats_list_interval(formats, i, j, k);
}

proof fn lemma_sizes_sound(fourcc: [u8; 4], sizes: Seq<FrameSizeModes>, m: int)
    requires
        0 <= m < configs_for_sizes(fourcc, sizes).len(),
    ensures
        exists|j: int, k: int|
            0 <= j < sizes.len() && 0 <= k < sizes[j].intervals@.len()
                && #[trigger] configs_for_sizes(fourcc, sizes)[m] == config_for(
                fourcc,
                sizes[j].width,
                sizes[j].height,
                #[trigger] sizes[j].intervals@[k],
            ),
    decreases sizes.len(),
{
    let prefix = sizes.drop_last();
    let n = configs_for_sizes(fourcc, prefix).len();
    let last = sizes.len() - 1;
    if m < n {
        lemma_sizes_sound(fourcc, prefix, m);
        let (j, k) = choose|j: int, k: int|
            0 <= j < prefix.len() && 0 <= k < prefix[j].intervals@.len()
                && #[trigger] configs_for_sizes(fourcc, prefix)[m] == config_for(
                fourcc,
                prefix[j].width,
                prefix[j].height,
                #[trigger] prefix[j].intervals@[k],
            );
        assert(prefix[j] == sizes[j]);
        assert(configs_for_sizes(fourcc, sizes)[m] == configs_for_sizes(fourcc, prefix)[m]);
        assert(sizes[j].intervals@[k] == prefix[j].intervals@[k]);
    } else {
        let k = m - n;
        assert(configs_for_sizes(fourcc, sizes)[m] == config_for(
            fourcc,
            sizes[last].width,
            sizes[last].height,
            sizes[last].intervals@[k],
        ));
    }
}

/// Every listed configuration comes from one interval of one frame size of one pixel
/// format: that format and size, with the interval's fraction as its frame interval,
/// or the step's fraction for a stepwise interval.
pub proof fn lemma_every_listed_config_has_an_interval(formats: Seq<FormatModes>, m: int)
    requires
        0 <= m < configs_for_formats(formats).len(),
    ensures
        exists|i: int, j: int, k: int|
            0 <= i < formats.len() && 0 <= j < formats[i].sizes@.len() && 0 <= k
                < formats[i].sizes@[j].intervals@.len() && #[trigger] configs_for_formats(formats)[m]
                == (CameraConfig {
                width: formats[i].sizes@[j].width,
                height: formats[i].sizes@[j].height,
                fps: match #[trigger] formats[i].sizes@[j].intervals@[k] {
                    FrameInterval::Discrete(f) => (f.numerator, f.denominator),
                    FrameInterval::Stepwise { step, .. } => (step.numerator, step.denominator),
                },
                fourcc: formats[i].fourcc,
            }),
    decreases formats.len(),
{
    let prefix = formats.drop_last();
    let n = configs_for_formats(prefix).len();
    let last = formats.len() - 1;
    if m < n {
        lemma_every_listed_config_has_an_interval(prefix, m);
        let (i, j, k) = choose|i: int, j: int, k: int|
            0 <= i < prefix.len() && 0 <= j < prefix[i].sizes@.len() && 0 <= k
                < prefix[i].sizes@[j].intervals@.len() && #[trigger] configs_for_formats(prefix)[m]
                == (CameraConfig {
                width: prefix[i].sizes@[j].width,
                height: prefix[i].sizes@[j].height,
                fps: match #[trigger] prefix[i].sizes@[j].intervals@[k] {
                    FrameInterval::Discrete(f) => (f.numerator, f.denominator),
                    FrameInterval::Stepwise { step, .. } => (step.numerator, step.denominator),
                },
                fourcc: prefix[i].fourcc,
            });
        assert(prefix[i] == formats[i]);
        assert(configs_for_formats(formats)[m] == configs_for_formats(prefix)[m]);
        assert(formats[i].sizes@[j].intervals@[k] == prefix[i].sizes@[j].intervals@[k]);
    } else {
        let f = formats[last];
        lemma_sizes_sound(f.fourcc, f.sizes@, m - n);
        let (j, k) = choose|j: int, k: int|
            0 <= j < f.sizes@.len() && 0 <= k < f.sizes@[j].intervals@.len()
                && #[trigger] configs_for_sizes(f.fourcc, f.sizes@)[m - n] == config_for(
                f.fourcc,
                f.sizes@[j].width,
                f.sizes@[j].height,
                #[trigger] f.sizes@[j].intervals@[k],
            );
        assert(configs_for_formats(formats)[m] == configs_for_sizes(f.fourcc, f.sizes@)[m - n]);
        assert(formats[last].sizes@[j].intervals@[k] == f.sizes@[j].intervals@[k]);
    }
}

/// The camera configuration for a pixel format, frame size and frame interval.
pub fn camera_config_from_interval(fourcc: [u8; 4], width: u32, height: u32, interval: &FrameInterval) -> (config:
    CameraConfig)
    ensures
        config == config_for(fourcc, width, height, *interval),
{
    let fps = match interval {
        FrameInterval::Discrete(f) => (f.numerator, f.denominator),
        FrameInterval::Stepwise { step, .. } => (step.numerator, step.denominator),
    };
    CameraConfig { width, height, fps, fourcc }
}

/// Every configuration a camera supports: one per pixel format, frame size and frame
/// interval, in the order they are listed.
pub fn camera_configs(formats: &Vec<FormatModes>) -> (configs: Vec<CameraConfig>)
    ensures
        configs@ == configs_for_formats(formats@),
{
    let mut out: Vec<CameraConfig> = Vec::new();
    let mut i: usize = 0;
    while i < formats.len()
        invariant
            i <= formats@.len(),
            out@ == configs_for_formats(formats@.take(i as int)),
        decreases formats@.len() - i,
    {
        let format = &formats[i];
        let ghost before_format = out@;
        assert(formats@.take(i + 1).drop_last() =~= formats@.take(i as int));
        let mut j: usize = 0;
        while j < format.sizes.len()
            invariant
                j <= format.sizes@.len(),
                out@ == before_format + configs_for_sizes(format.fourcc, format.sizes@.take(j as int)),
            decreases format.sizes@.len() - j,
        {
            let size = &format.sizes[j];
            let ghost before_size = out@;
            assert(format.sizes@.take(j + 1).drop_last() =~= format.sizes@.take(j as int));
            let mut k: usize = 0;
            while k < size.intervals.len()
                invariant
                    k <= size.intervals@.len(),
                    out@ == before_size + configs_for_intervals(
                        format.fourcc,
                        size.width,
                        size.height,
                        size.intervals@.take(k as int),
                    ),
                decreases size.intervals@.len() - k,
            {
                let config = camera_config_from_interval(
                    format.fourcc,
                    size.width,
                    size.height,
                    &size.intervals[k],
                );
                out.push(config);
                assert(configs_for_intervals(
                    format.fourcc,
                    size.width,
                    size.height,
                    size.intervals@.take(k + 1),
                ) =~= configs_for_intervals(
                    format.fourcc,
                    size.width,
                    size.height,
                    size.intervals@.take(k as int),
                ).push(config));
                k = k + 1;
            }
            assert(size.intervals@.take(size.intervals@.len() as int) =~= size.intervals@);
            j = j + 1;
        }
        assert(format.sizes@.take(format.sizes@.len() as int) =~= format.sizes@);
        i = i + 1;
    }
    assert(formats@.take(formats@.len() as int) =~= formats@);
    out
}

/// Whether a command poll ends a capture loop: a stop command, or the controlling
/// side gone.
pub open spec fn finishes(poll: CommandPoll) -> bool {
    poll == CommandPoll::Received(DeviceCommand::Stop) || poll == CommandPoll::Disconnected
}

/// The number of frames a capture loop hands out when the polls it makes before each
/// frame report `polls` in turn: it captures until the first poll that finishes it.
pub open spec fn frames_captured(polls: Seq<CommandPoll>) -> nat
    decreases polls.len(),
{
    if polls.len() == 0 {
        0
    } else if finishes(polls[0]) {
        0
    } else {
        1 + frames_captured(polls.drop_first())
    }
}

/// A capture loop ends at the first stop or disconnection it sees: when the poll
/// before frame `k` finds one, at most `k` frames are handed out, so a stop queued
/// while a frame is being captured lets at most that frame through.
pub proof fn lemma_capture_ends_at_stop(polls: Seq<CommandPoll>, k: int)
    requires
        0 <= k < polls.len(),
        finishes(polls[k]),
    ensures
        frames_captured(polls) <= k,
    decreases polls.len(),
{
    if !finishes(polls[0]) {
        assert(polls.drop_first()[k - 1] == polls[k]);
        lemma_capture_ends_at_stop(polls.drop_first(), k - 1);
    }
}

/// Commands other than stop never end a capture loop: while the controlling side
/// stays and sends no stop, every poll is followed by a frame.
pub proof fn lemma_capture_continues_without_stop(polls: Seq<CommandPoll>)
    requires
        forall|i: int| 0 <= i < polls.len() ==> !finishes(#[trigger] polls[i]),
    ensures
        frames_captured(polls) == polls.len(),
    decreases polls.len(),
{
    if polls.len() > 0 {
        assert(!finishes(polls[0]));
        assert forall|i: int| 0 <= i < polls.drop_first().len() implies !finishes(
            #[trigger] polls.drop_first()[i],
        ) by {
            assert(polls.drop_first()[i] == polls[i + 1]);
        }
        lemma_capture_continues_without_stop(polls.drop_first());
    }
}

/// The step a capture loop takes after looking for a command: it finishes on a stop
/// command or when the controlling side is gone, and captures otherwise.
pub fn capture_action(poll: CommandPoll) -> (action: CaptureAction)
    ensures
        (action == CaptureAction::Finish) == finishes(poll),
        action == (match poll {
            CommandPoll::Received(DeviceCommand::Stop) | CommandPoll::Disconnected => CaptureAction::Finish,
            _ => CaptureAction::Capture,
        }),
{
    match poll {
        CommandPoll::Empty => CaptureAction::Capture,
        CommandPoll::Disconnected => CaptureAction::Finish,
        CommandPoll::Received(command) => match command {
            DeviceCommand::Stop => CaptureAction::Finish,
            _ => CaptureAction::Capture,
        },
    }
}

/// Takes the command channel of a running capture loop, so that the stop command can
/// be sent on it; a device that was never started has none, which is an error. The
/// device holds no channel afterwards.
pub fn take_command_channel<T>(command_tx: &mut Option<T>) -> (channel: Result<T, CaptureError>)
    ensures
        *final(command_tx) is None,
        *old(command_tx) matches Some(tx) ==> channel == Ok::<T, CaptureError>(tx),
        *old(command_tx) is None ==> channel == Err::<T, CaptureError>(CaptureError::DeviceNotStarted),
{
    match command_tx.take() {
        Some(tx) => Ok(tx),
        None => Err(CaptureError::DeviceNotStarted),
    }
}

} // verus!
