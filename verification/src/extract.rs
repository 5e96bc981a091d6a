//! Planning frame extraction with ffmpeg and the metadata copy with exiftool.

use vstd::prelude::*;
use crate::paths::{filter_by_extension, join_path, joined, with_extension};
use crate::text::{owned, decimal, decimal_string, join_strings, join_with, texts};

verus! {

/// The level ffmpeg gives a log line.
#[derive(Debug, Clone, Copy, PartialEq, Eq)]
pub enum LogLevel {
    Info,
    Warning,
    Error,
    Fatal,
    Unknown,
}

/// What the extraction reads of one event of a running ffmpeg.
#[derive(Debug, Clone, PartialEq, Eq)]
pub enum FfmpegNotice {
    /// a log line of ffmpeg
    Log(LogLevel, String),
    /// an error that did not come from the ffmpeg log
    Error(String),
    /// any other event
    Other,
}

/// The error message an event carries, if it reports an error: log lines at
/// level error or fatal, and errors from outside the log.
pub open spec fn notice_error(n: FfmpegNotice) -> Option<Seq<char>> {
    match n {
        FfmpegNotice::Log(LogLevel::Error, m) => Some(m@),
        FfmpegNotice::Log(LogLevel::Fatal, m) => Some(m@),
        FfmpegNotice::Error(m) => Some(m@),
        _ => None,
    }
}

/// Records the error message of one event, if it reports an error.
pub fn record_ffmpeg_event(errors: &mut Vec<String>, event: FfmpegNotice)
    ensures
        texts(final(errors)@) == match notice_error(event) {
            Some(m) => texts(old(errors)@).push(m),
            None => texts(old(errors)@),
        },
{
    let ghost before = errors@;
    match event {
        FfmpegNotice::Log(LogLevel::Error, m) => errors.push(m),
        FfmpegNotice::Log(LogLevel::Fatal, m) => errors.push(m),
        FfmpegNotice::Error(m) => errors.push(m),
        _ => {},
    }
    assert(texts(errors@) =~= match notice_error(event) {
        Some(m) => texts(before).push(m),
        None => texts(before),
    });
}

/// The message of a failed ffmpeg run: its error messages, one per line.
pub fn ffmpeg_failure(errors: &Vec<String>) -> (r: String)
    ensures
        r@ == "ffmpeg error:\n"@ + join_with(texts(errors@), "\n"@),
{
    let mut r = owned("ffmpeg error:\n");
    let body = join_strings(errors, "\n");
    r.append(body.as_str());
    r
}

/// Whether extraction may start: only when the input video exists; else the
/// message naming the missing input.
pub fn check_input(input_exists: bool, input: &str) -> (r: Result<(), String>)
    ensures
        input_exists ==> r is Ok,
        !input_exists ==> (r matches Err(m) && m@ == input@ + " doesn't exist!"@),
{
    if input_exists {
        Ok(())
    } else {
        let mut m = owned(input);
        m.append(" doesn't exist!");
        Err(m)
    }
}

/// Whether to go on to the metadata copy after ffmpeg ended: only when it
/// succeeded; else the failure message with its collected errors.
pub fn after_ffmpeg(success: bool, errors: &Vec<String>) -> (r: Result<(), String>)
    ensures
        success ==> r is Ok,
        !success ==> (r matches Err(m) && m@ == "ffmpeg error:\n"@ + join_with(texts(errors@), "\n"@)),
{
    if success {
        Ok(())
    } else {
        Err(ffmpeg_failure(errors))
    }
}

/// The folder of a sample's frames: the sample's name inside the output root.
pub fn frames_dir(output_root: &str, sample_name: &str) -> (r: String)
    ensures
        r@ == joined(output_root@, sample_name@),
{
    join_path(output_root, sample_name)
}

/// The file pattern ffmpeg numbers the frames by.
pub fn frame_pattern(frames_dir: &str) -> (r: String)
    ensures
        r@ == joined(frames_dir@, "frame_%03d.jpg"@),
{
    join_path(frames_dir, "frame_%03d.jpg")
}

/// The ffmpeg filter that samples `fps` frames per second.
pub open spec fn fps_filter(fps: u8) -> Seq<char> {
    "fps="@ + decimal(fps as nat)
}

/// The arguments of the ffmpeg run that extracts frames: overwrite, read
/// `input`, keep its metadata, sample `fps` frames per second, number frames
/// from 1, best JPEG quality, BT.709 colour in MPEG range, write images to
/// `pattern`.
pub open spec fn ffmpeg_arg_texts(input: Seq<char>, fps: u8, pattern: Seq<char>) -> Seq<Seq<char>> {
    seq![
        "-y"@,
        "-i"@,
        input,
        "-map_metadata"@,
        "0"@,
        "-vf"@,
        fps_filter(fps),
        "-vsync"@,
        "0"@,
        "-start_number"@,
        "1"@,
        "-q:v"@,
        "1"@,
        "-color_range"@,
        "mpeg"@,
        "-colorspace"@,
        "bt709"@,
        "-color_primaries"@,
        "bt709"@,
        "-color_trc"@,
        "bt709"@,
        "-f"@,
        "image2"@,
        pattern,
    ]
}

/// Builds the ffmpeg arguments of `ffmpeg_arg_texts`.
pub fn ffmpeg_args(input: &str, fps: u8, pattern: &str) -> (r: Vec<String>)
    ensures
        texts(r@) == ffmpeg_arg_texts(input@, fps, pattern@),
{
    let mut filter = owned("fps=");
    let n = decimal_string(fps as u64);
    filter.append(n.as_str());
    let mut r: Vec<String> = Vec::new();
    r.push(owned("-y"));
    r.push(owned("-i"));
    r.push(owned(input));
    r.push(owned("-map_metadata"));
    r.push(owned("0"));
    r.push(owned("-vf"));
    r.push(filter);
    r.push(owned("-vsync"));
    r.push(owned("0"));
    r.push(owned("-start_number"));
    r.push(owned("1"));
    r.push(owned("-q:v"));
    r.push(owned("1"));
    r.push(owned("-color_range"));
    r.push(owned("mpeg"));
    r.push(owned("-colorspace"));
    r.push(owned("bt709"));
    r.push(owned("-color_primaries"));
    r.push(owned("bt709"));
    r.push(owned("-color_trc"));
    r.push(owned("bt709"));
    r.push(owned("-f"));
    r.push(owned("image2"));
    r.push(owned(pattern));
    assert(texts(r@) =~= ffmpeg_arg_texts(input@, fps, pattern@));
    r
}

/// The frames among the entries of the frames folder: those with extension
/// `jpg` in any ASCII case, in the order given.
pub fn jpg_frames(entries: &Vec<String>) -> (r: Vec<String>)
    ensures
        r@ == with_extension(entries@, "jpg"@),
{
    filter_by_extension(entries, "jpg")
}

/// The arguments that make exiftool copy all metadata of `source` into the
/// frame `jpg` in place.
pub open spec fn exiftool_arg_texts(source: Seq<char>, jpg: Seq<char>) -> Seq<Seq<char>> {
    seq![
        "-quiet"@,
        "-overwrite_original"@,
        "-ee"@,
        "-TagsFromFile"@,
        source,
        "-all:all"@,
        "-unsafe"@,
        "-icc_profile"@,
        jpg,
    ]
}

/// Builds the exiftool arguments of `exiftool_arg_texts`.
pub fn exiftool_args(source: &str, jpg: &str) -> (r: Vec<String>)
    ensures
        texts(r@) == exiftool_arg_texts(source@, jpg@),
{
    let mut r: Vec<String> = Vec::new();
    r.push(owned("-quiet"));
    r.push(owned("-overwrite_original"));
    r.push(owned("-ee"));
    r.push(owned("-TagsFromFile"));
    r.push(owned(source));
    r.push(owned("-all:all"));
    r.push(owned("-unsafe"));
    r.push(owned("-icc_profile"));
    r.push(owned(jpg));
    assert(texts(r@) =~= exiftool_arg_texts(source@, jpg@));
    r
}

/// What one extraction works on.
#[derive(Debug, Clone, PartialEq, Eq)]
pub struct ExtractJob {
    /// the video
    pub input: String,
    /// the folder that gets one folder of frames per sample
    pub output_root: String,
    /// the sample, which names its folder of frames
    pub sample_name: String,
    /// frames per second
    pub fps: u8,
}

/// Where an extraction stands; the folder of frames is carried along.
#[derive(Debug, Clone, PartialEq, Eq)]
pub enum ExtractState {
    CheckingInput,
    CreatingFramesDir(String),
    SettingUpFfmpeg(String),
    RunningFfmpeg(String),
    ListingFrames(String),
    CopyingMetadata(String),
    Done,
    Failed,
}

/// What the outside work of a step reports back.
#[derive(Debug, Clone, PartialEq, Eq)]
pub enum ExtractEvent {
    /// whether the input exists
    InputChecked(bool),
    FramesDirCreated,
    FfmpegReady,
    /// whether ffmpeg succeeded, and the error messages it reported
    FfmpegEnded(bool, Vec<String>),
    /// the entries of the folder of frames
    FramesListed(Vec<String>),
    /// every exiftool run has ended
    MetadataCopied,
}

/// One exiftool run: a frame and the arguments that copy the metadata into it.
#[derive(Debug, Clone, PartialEq, Eq)]
pub struct ExiftoolRun {
    pub frame: String,
    pub args: Vec<String>,
}

/// The outside work an extraction asks for next.
#[derive(Debug, Clone, PartialEq, Eq)]
pub enum ExtractAction {
    /// find out whether this input exists
    CheckInput(String),
    /// create this folder (and its parents)
    CreateDir(String),
    /// make sure ffmpeg is installed
    SetUpFfmpeg,
    /// run ffmpeg with these arguments, collecting its error messages
    RunFfmpeg(Vec<String>),
    /// list this folder
    ListFrames(String),
    /// run these exiftool runs and wait for all of them
    CopyMetadata(Vec<ExiftoolRun>),
    /// the frames are in this folder
    Finish(String),
    /// stop with this message
    Fail(String),
}

/// The event a state waits for.
pub open spec fn extract_expects(state: ExtractState, event: ExtractEvent) -> bool {
    match state {
        ExtractState::CheckingInput => event is InputChecked,
        ExtractState::CreatingFramesDir(_) => event is FramesDirCreated,
        ExtractState::SettingUpFfmpeg(_) => event is FfmpegReady,
        ExtractState::RunningFfmpeg(_) => event is FfmpegEnded,
        ExtractState::ListingFrames(_) => event is FramesListed,
        ExtractState::CopyingMetadata(_) => event is MetadataCopied,
        ExtractState::Done => false,
        ExtractState::Failed => false,
    }
}

/// Decides `extract_expects`.
pub fn extract_accepts(state: &ExtractState, event: &ExtractEvent) -> (r: bool)
    ensures
        r == extract_expects(*state, *event),
{
    match state {
        ExtractState::CheckingInput => matches!(event, ExtractEvent::InputChecked(_)),
        ExtractState::CreatingFramesDir(_) => matches!(event, ExtractEvent::FramesDirCreated),
        ExtractState::SettingUpFfmpeg(_) => matches!(event, ExtractEvent::FfmpegReady),
        ExtractState::RunningFfmpeg(_) => matches!(event, ExtractEvent::FfmpegEnded(_, _)),
        ExtractState::ListingFrames(_) => matches!(event, ExtractEvent::FramesListed(_)),
        ExtractState::CopyingMetadata(_) => matches!(event, ExtractEvent::MetadataCopied),
        ExtractState::Done => false,
        ExtractState::Failed => false,
    }
}

/// An extraction begins by checking its input.
pub fn extract_start(job: &ExtractJob) -> (r: (ExtractState, ExtractAction))
    ensures
        r.0 == ExtractState::CheckingInput,
        (r.1 matches ExtractAction::CheckInput(p) && p@ == job.input@),
{
    (ExtractState::CheckingInput, ExtractAction::CheckInput(job.input.clone()))
}

/// The exiftool runs are those for the frames, one per frame, in order.
pub open spec fn runs_for(runs: Seq<ExiftoolRun>, source: Seq<char>, frames: Seq<String>) -> bool {
    &&& runs.len() == frames.len()
    &&& forall|i: int|
        0 <= i < runs.len() ==> {
            &&& (#[trigger] runs[i]).frame == frames[i]
            &&& texts(runs[i].args@) == exiftool_arg_texts(source, frames[i]@)
        }
}

fn exiftool_runs(source: &str, frames: Vec<String>) -> (r: Vec<ExiftoolRun>)
    ensures
        runs_for(r@, source@, frames@),
{
    let mut r: Vec<ExiftoolRun> = Vec::new();
    let mut i: usize = 0;
    while i < frames.len()
        invariant
            i <= frames.len(),
            runs_for(r@, source@, frames@.take(i as int)),
        decreases frames.len() - i,
    {
        let args = exiftool_args(source, frames[i].as_str());
        r.push(ExiftoolRun { frame: frames[i].clone(), args });
        i = i + 1;
    }
    assert(frames@.take(frames.len() as int) =~= frames@);
    r
}

/// One step of an extraction: from where it stands and what the last outside
/// work reported, to where it stands next and the next outside work. The
/// input must exist before any folder is made; ffmpeg is set up, then run;
/// only when it succeeded are the frames listed and their metadata copied;
/// the extraction finishes only after every exiftool run has ended.
pub fn extract_step(job: &ExtractJob, state: ExtractState, event: ExtractEvent) -> (r: (
    ExtractState,
    ExtractAction,
))
    requires
        extract_expects(state, event),
    ensures
        state is CheckingInput ==> match event {
            ExtractEvent::InputChecked(true) => {
                &&& r.0 matches ExtractState::CreatingFramesDir(d)
                &&& d@ == joined(job.output_root@, job.sample_name@)
                &&& r.1 == ExtractAction::CreateDir(d)
            },
            _ => {
                &&& r.0 is Failed
                &&& r.1 matches ExtractAction::Fail(m)
                &&& m@ == job.input@ + " doesn't exist!"@
            },
        },
        state matches ExtractState::CreatingFramesDir(d) ==> r == (
            ExtractState::SettingUpFfmpeg(d),
            ExtractAction::SetUpFfmpeg,
        ),
        state matches ExtractState::SettingUpFfmpeg(d) ==> {
            &&& r.0 == ExtractState::RunningFfmpeg(d)
            &&& r.1 matches ExtractAction::RunFfmpeg(args)
            &&& texts(args@) == ffmpeg_arg_texts(job.input@, job.fps, joined(d@, "frame_%03d.jpg"@))
        },
        state matches ExtractState::RunningFfmpeg(d) ==> match event {
            ExtractEvent::FfmpegEnded(true, _) => r == (
                ExtractState::ListingFrames(d),
                ExtractAction::ListFrames(d),
            ),
            ExtractEvent::FfmpegEnded(false, errors) => {
                &&& r.0 is Failed
                &&& r.1 matches ExtractAction::Fail(m)
                &&& m@ == "ffmpeg error:\n"@ + join_with(texts(errors@), "\n"@)
            },
            _ => false,
        },
        state matches ExtractState::ListingFrames(d) ==> match event {
            ExtractEvent::FramesListed(entries) => {
                &&& r.0 == ExtractState::CopyingMetadata(d)
                &&& r.1 matches ExtractAction::CopyMetadata(runs)
                &&& runs_for(runs@, job.input@, with_extension(entries@, "jpg"@))
            },
            _ => false,
        },
        state matches ExtractState::CopyingMetadata(d) ==> r == (
            ExtractState::Done,
            ExtractAction::Finish(d),
        ),
        r.1 is CopyMetadata ==> state is ListingFrames,
        r.0 is ListingFrames ==> (event matches ExtractEvent::FfmpegEnded(ok, _) && ok),
        r.1 is Finish ==> state is CopyingMetadata,
        r.1 is CreateDir ==> (event matches ExtractEvent::InputChecked(exists) && exists),
{
    match state {
        ExtractState::CheckingInput => {
            let exists = match &event {
                ExtractEvent::InputChecked(b) => *b,
                _ => false,
            };
            match check_input(exists, job.input.as_str()) {
                Ok(()) => {
                    let d = frames_dir(job.output_root.as_str(), job.sample_name.as_str());
                    let d2 = d.clone();
                    (ExtractState::CreatingFramesDir(d), ExtractAction::CreateDir(d2))
                },
                Err(m) => (ExtractState::Failed, ExtractAction::Fail(m)),
            }
        },
        ExtractState::CreatingFramesDir(d) => (
            ExtractState::SettingUpFfmpeg(d),
            ExtractAction::SetUpFfmpeg,
        ),
        ExtractState::SettingUpFfmpeg(d) => {
            let pattern = frame_pattern(d.as_str());
            let args = ffmpeg_args(job.input.as_str(), job.fps, pattern.as_str());
            (ExtractState::RunningFfmpeg(d), ExtractAction::RunFfmpeg(args))
        },
        ExtractState::RunningFfmpeg(d) => {
            match event {
                ExtractEvent::FfmpegEnded(success, errors) => {
                    match after_ffmpeg(success, &errors) {
                        Ok(()) => {
                            let d2 = d.clone();
                            (ExtractState::ListingFrames(d), ExtractAction::ListFrames(d2))
                        },
                        Err(m) => (ExtractState::Failed, ExtractAction::Fail(m)),
                    }
                },
                _ => (ExtractState::Failed, ExtractAction::SetUpFfmpeg),
            }
        },
        ExtractState::ListingFrames(d) => {
            match event {
                ExtractEvent::FramesListed(entries) => {
                    let frames = jpg_frames(&entries);
                    let runs = exiftool_runs(job.input.as_str(), frames);
                    (ExtractState::CopyingMetadata(d), ExtractAction::CopyMetadata(runs))
                },
                _ => (ExtractState::Failed, ExtractAction::SetUpFfmpeg),
            }
        },
        ExtractState::CopyingMetadata(d) => {
            let d2 = d.clone();
            (ExtractState::Done, ExtractAction::Finish(d2))
        },
        ExtractState::Done => (ExtractState::Failed, ExtractAction::SetUpFfmpeg),
        ExtractState::Failed => (ExtractState::Failed, ExtractAction::SetUpFfmpeg),
    }
}

} // verus!
