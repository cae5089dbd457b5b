use vstd::prelude::*;

use crate::media::{ConversionError, ConversionResult, FormatTag};

verus! {

/// Ceiling on the size of a lossless clip encoding: a larger first-pass
/// output triggers the one lossy re-encode.
pub const CLIP_SIZE_CEILING: usize = 256 * 1000;

/// What one run of the external transcoding process came back with: its exit
/// status collapsed to success or failure, and the bytes it wrote to its
/// standard output.
pub struct ProcessOutcome {
    pub success: bool,
    pub output: Vec<u8>,
}

/// The next thing a clip conversion has to do. The caller performs `Run` by
/// invoking the external process and feeds what came back to `clip_next`;
/// `Done` and `Fail` end the conversion.
pub enum ClipStep {
    Run { lossless: bool },
    Done { result: ConversionResult },
    Fail { error: ConversionError },
}

/// The decision the size-control loop takes after one attempt.
#[derive(Clone, Copy, Debug, PartialEq, Eq, Structural)]
pub enum ClipDecision {
    /// Re-encode once more with the lossless profile disabled.
    RetryLossy,
    /// Hand the produced bytes out as the finished asset.
    Accept,
    /// Give the conversion up as a tool failure.
    Reject,
}

/// The adaptive size-control rule: a failed process run ends the conversion;
/// a lossless run whose output exceeds the ceiling is redone lossily; any
/// other successful run is accepted as it is — in particular, a lossy run is
/// accepted whatever its size. A successful run that wrote nothing at all is
/// rejected, since an empty buffer is no usable asset.
pub open spec fn clip_decision(was_lossless: bool, success: bool, output_len: nat) -> ClipDecision {
    if !success {
        ClipDecision::Reject
    } else if was_lossless && output_len > CLIP_SIZE_CEILING {
        ClipDecision::RetryLossy
    } else if output_len > 0 {
        ClipDecision::Accept
    } else {
        ClipDecision::Reject
    }
}

/// A clip conversion opens with a lossless attempt.
pub fn clip_first_step() -> (r: ClipStep)
    ensures
        r matches ClipStep::Run { lossless: true },
{
    ClipStep::Run { lossless: true }
}

/// Takes what the external process came back with and decides how the
/// conversion goes on: the step after a failed run is `Fail`, the step after
/// an oversized lossless run is the one lossy re-run, and every other
/// successful run becomes the finished "webm" asset.
pub fn clip_next(was_lossless: bool, outcome: ProcessOutcome) -> (r: ClipStep)
    ensures
        ({
            let d = clip_decision(was_lossless, outcome.success, outcome.output@.len());
            &&& (d == ClipDecision::RetryLossy <==> r matches ClipStep::Run { lossless: false })
            &&& !(r matches ClipStep::Run { lossless: true })
            &&& (d == ClipDecision::Accept <==> (r matches ClipStep::Done { result }
                && result.bytes@ == outcome.output@ && result.tag == FormatTag::Webm
                && result.wf()))
            &&& (d == ClipDecision::Reject <==> (r matches ClipStep::Fail { error }
                && error == ConversionError::ExternalToolFailure))
        }),
{
    if !outcome.success {
        ClipStep::Fail { error: ConversionError::ExternalToolFailure }
    } else if was_lossless && outcome.output.len() > CLIP_SIZE_CEILING {
        ClipStep::Run { lossless: false }
    } else if outcome.output.len() > 0 {
        ClipStep::Done { result: ConversionResult { bytes: outcome.output, tag: FormatTag::Webm } }
    } else {
        ClipStep::Fail { error: ConversionError::ExternalToolFailure }
    }
}

/// The external process is invoked at most twice per clip: a second run is
/// requested only when the first, lossless one succeeded with output over the
/// ceiling, and the step after a lossy run is never another run.
pub proof fn lemma_clip_at_most_two_runs(
    success1: bool,
    len1: nat,
    success2: bool,
    len2: nat,
)
    ensures
        clip_decision(true, success1, len1) == ClipDecision::RetryLossy ==> success1 && len1
            > CLIP_SIZE_CEILING,
        clip_decision(false, success2, len2) != ClipDecision::RetryLossy,
{
}

/// The fixed argument template of the external transcoding process: take the
/// first 3 seconds of the input, scale to fit 512x512 without changing the
/// aspect ratio, drop the audio, and write a webm stream to standard output;
/// the lossless attempt adds the lossless profile switch.
pub open spec fn clip_args_spec(path: Seq<char>, lossless: bool) -> Seq<Seq<char>> {
    let head = seq!["-hide_banner"@, "-t"@, "3"@, "-i"@, path];
    let profile = if lossless {
        seq!["-lossless"@, "1"@]
    } else {
        Seq::<Seq<char>>::empty()
    };
    let tail = seq![
        "-vf"@,
        "scale=w=512:h=512:force_original_aspect_ratio=decrease"@,
        "-c:v"@,
        "libvpx-vp9"@,
        "-f"@,
        "webm"@,
        "-an"@,
        "-"@,
    ];
    head + profile + tail
}

/// Builds the argument list for one run of the external process on the clip
/// at `input_path`.
pub fn clip_command_args<'a>(input_path: &'a str, lossless: bool) -> (r: Vec<&'a str>)
    ensures
        r@.map_values(|s: &str| s@) == clip_args_spec(input_path@, lossless),
{
    let mut r: Vec<&'a str> = Vec::new();
    r.push("-hide_banner");
    r.push("-t");
    r.push("3");
    r.push("-i");
    r.push(input_path);
    if lossless {
        r.push("-lossless");
        r.push("1");
    }
    r.push("-vf");
    r.push("scale=w=512:h=512:force_original_aspect_ratio=decrease");
    r.push("-c:v");
    r.push("libvpx-vp9");
    r.push("-f");
    r.push("webm");
    r.push("-an");
    r.push("-");
    proof {
        assert(r@.map_values(|s: &str| s@) =~= clip_args_spec(input_path@, lossless));
    }
    r
}

} // verus!
