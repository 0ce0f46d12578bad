//! Rendering a static-image video from merged audio with an external
//! encoder. The encoder's arguments are fixed policy; a rendered video is a
//! cache entry, made on first request and reused while it exists.
use vstd::prelude::*;

verus! {

/// The encoder program.
pub const ENCODER_PROGRAM: &'static str = "ffmpeg";

/// The video codec of every rendering.
pub const VIDEO_CODEC: &'static str = "libx264";

/// The audio codec of every rendering.
pub const AUDIO_CODEC: &'static str = "aac";

/// The audio bitrate of every rendering.
pub const AUDIO_BITRATE: &'static str = "192k";

/// The pixel format of every rendering.
pub const PIXEL_FORMAT: &'static str = "yuv420p";

/// The encoder's arguments: overwrite the output, loop the still `image`,
/// take the audio from `input`, stop when the audio ends, and write `output`
/// with the fixed codecs, bitrate and pixel format.
pub open spec fn encoder_args_spec(image: Seq<char>, input: Seq<char>, output: Seq<char>) -> Seq<
    Seq<char>,
> {
    seq![
        "-y"@,
        "-loop"@,
        "1"@,
        "-i"@,
        image,
        "-i"@,
        input,
        "-shortest"@,
        "-c:v"@,
        VIDEO_CODEC@,
        "-c:a"@,
        AUDIO_CODEC@,
        "-b:a"@,
        AUDIO_BITRATE@,
        "-pix_fmt"@,
        PIXEL_FORMAT@,
        output,
    ]
}

fn push_str(v: &mut Vec<String>, s: &str)
    ensures
        final(v).deep_view() == old(v).deep_view().push(s@),
{
    v.push(String::from_str(s));
    assert(final(v).deep_view() =~= old(v).deep_view().push(s@));
}

/// The argument list for rendering `input` over the still `image` into
/// `output`.
pub fn encoder_args(image: &str, input: &str, output: &str) -> (r: Vec<String>)
    ensures
        r.deep_view() == encoder_args_spec(image@, input@, output@),
{
    let mut v: Vec<String> = Vec::new();
    push_str(&mut v, "-y");
    push_str(&mut v, "-loop");
    push_str(&mut v, "1");
    push_str(&mut v, "-i");
    push_str(&mut v, image);
    push_str(&mut v, "-i");
    push_str(&mut v, input);
    push_str(&mut v, "-shortest");
    push_str(&mut v, "-c:v");
    push_str(&mut v, VIDEO_CODEC);
    push_str(&mut v, "-c:a");
    push_str(&mut v, AUDIO_CODEC);
    push_str(&mut v, "-b:a");
    push_str(&mut v, AUDIO_BITRATE);
    push_str(&mut v, "-pix_fmt");
    push_str(&mut v, PIXEL_FORMAT);
    push_str(&mut v, output);
    assert(v.deep_view() =~= encoder_args_spec(image@, input@, output@));
    v
}

/// Why a rendering failed.
#[derive(Debug, Clone)]
pub enum RenderError {
    /// The still image is not where it should be.
    OverlayMissing { path: String },
    /// The encoder could not be started.
    SpawnFailed { cause: String },
    /// The encoder ran and reported failure with this exit status.
    EncoderFailed { status: String },
}

/// The human-readable text of a rendering failure.
pub open spec fn render_message(e: RenderError) -> Seq<char> {
    match e {
        RenderError::OverlayMissing { path } => "overlay image not found at "@ + path@,
        RenderError::SpawnFailed { cause } => "failed to spawn ffmpeg: "@ + cause@,
        RenderError::EncoderFailed { status } => "ffmpeg exited with status "@ + status@,
    }
}

impl RenderError {
    /// Describes the failure.
    pub fn message(&self) -> (r: String)
        ensures
            r@ == render_message(*self),
    {
        match self {
            RenderError::OverlayMissing { path } => String::from_str(
                "overlay image not found at ",
            ).concat(path.as_str()),
            RenderError::SpawnFailed { cause } => String::from_str(
                "failed to spawn ffmpeg: ",
            ).concat(cause.as_str()),
            RenderError::EncoderFailed { status } => String::from_str(
                "ffmpeg exited with status ",
            ).concat(status.as_str()),
        }
    }
}

/// The still image must exist before the encoder is started.
pub fn check_overlay(path: &str, exists: bool) -> (r: Result<(), RenderError>)
    ensures
        exists ==> r is Ok,
        !exists ==> (r matches Err(RenderError::OverlayMissing { path: p }) && p@ == path@),
{
    if exists {
        Ok(())
    } else {
        Err(RenderError::OverlayMissing { path: String::from_str(path) })
    }
}

/// How a run of the encoder ended.
#[derive(Debug, Clone)]
pub enum EncoderRun {
    /// The encoder could not be started, for this reason.
    NotStarted(String),
    /// The encoder exited; `success` tells whether with a success status.
    Exited { success: bool, status: String },
}

/// The result of a rendering whose encoder run ended with `run`.
pub fn encoder_result(run: EncoderRun) -> (r: Result<(), RenderError>)
    ensures
        r is Ok <==> run matches EncoderRun::Exited { success: true, .. },
        run matches EncoderRun::NotStarted(c) ==> (r matches Err(
            RenderError::SpawnFailed { cause },
        ) && cause == c),
        run matches EncoderRun::Exited { success: false, status: s } ==> (r matches Err(
            RenderError::EncoderFailed { status },
        ) && status == s),
{
    match run {
        EncoderRun::NotStarted(cause) => Err(RenderError::SpawnFailed { cause }),
        EncoderRun::Exited { success, status } => {
            if success {
                Ok(())
            } else {
                Err(RenderError::EncoderFailed { status })
            }
        },
    }
}

/// What a request for the video of a stored request does.
#[derive(Debug, Clone, Copy, PartialEq, Eq, Structural)]
pub enum VideoAction {
    /// There is no merged audio to render.
    AudioMissing,
    /// Run the encoder, then serve what it wrote.
    Render,
    /// Serve the video already on disk; the encoder is not run.
    Reuse,
}

/// The files of a request folder that the video cache looks at.
#[derive(Debug, Clone, Copy, PartialEq, Eq, Structural)]
pub struct VideoFiles {
    pub audio_exists: bool,
    pub video_exists: bool,
}

/// The action for a folder in the state `files`.
pub open spec fn video_action_spec(files: VideoFiles) -> VideoAction {
    if !files.audio_exists {
        VideoAction::AudioMissing
    } else if files.video_exists {
        VideoAction::Reuse
    } else {
        VideoAction::Render
    }
}

/// Decides how to answer a request for a folder's video.
pub fn video_action(files: VideoFiles) -> (r: VideoAction)
    ensures
        r == video_action_spec(files),
{
    if !files.audio_exists {
        VideoAction::AudioMissing
    } else if files.video_exists {
        VideoAction::Reuse
    } else {
        VideoAction::Render
    }
}

/// The folder after answering a request with `action`, where a run of the
/// encoder (if any) ended with `rendered` telling whether it wrote the video.
pub open spec fn after_request(files: VideoFiles, action: VideoAction, rendered: bool) -> VideoFiles {
    if action == VideoAction::Render && rendered {
        VideoFiles { video_exists: true, ..files }
    } else {
        files
    }
}

/// Asking twice for the video of one folder runs the encoder at most once
/// when the first answer delivered a video: the second request reuses the
/// file that the first one left.
pub proof fn video_rendered_at_most_once(files: VideoFiles, rendered: bool)
    requires
        video_action_spec(files) == VideoAction::Render ==> rendered,
    ensures
        video_action_spec(after_request(files, video_action_spec(files), rendered))
            != VideoAction::Render,
        video_action_spec(files) != VideoAction::AudioMissing ==> video_action_spec(
            after_request(files, video_action_spec(files), rendered),
        ) == VideoAction::Reuse,
{
}

} // verus!
