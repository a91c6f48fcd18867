//! The command lines handed to the capture tool and to its probe, and the
//! naming of output files.

use crate::geometry::CaptureRectangle;
use crate::text::{append_decimal, decimal_text, is_space, lemma_trimmed_is_whole, trimmed};
use vstd::prelude::*;
use vstd::string::*;

verus! {

/// Where the capture tool's diagnostics and the session's own notes go.
pub const LOG_FILE: &'static str = "/tmp/rec.nvim.ffmpeg.log";

/// The views of a list of texts.
pub open spec fn texts(list: Seq<String>) -> Seq<Seq<char>> {
    Seq::new(list.len(), |i: int| list[i]@)
}

/// A program and the arguments to run it with.
#[derive(Clone, Debug, PartialEq, Eq)]
pub struct Invocation {
    pub program: String,
    pub args: Vec<String>,
}

/// An invocation as plain values.
pub struct InvocationView {
    pub program: Seq<char>,
    pub args: Seq<Seq<char>>,
}

impl View for Invocation {
    type V = InvocationView;

    open spec fn view(&self) -> InvocationView {
        InvocationView { program: self.program@, args: texts(self.args@) }
    }
}

/// The filter that makes the capture tool record only `crop`: width,
/// height, then the corner.
pub open spec fn crop_filter_text(crop: CaptureRectangle) -> Seq<char> {
    "crop="@ + decimal_text(crop.width as int) + ":"@ + decimal_text(crop.height as int) + ":"@
        + decimal_text(crop.x as int) + ":"@ + decimal_text(crop.y as int)
}

/// Writes the crop filter for a rectangle, as in `crop=120:80:1800:1000`.
pub fn crop_filter(crop: CaptureRectangle) -> (filter: String)
    ensures
        filter@ == crop_filter_text(crop),
{
    let mut filter: String = String::from_str("crop=");
    append_decimal(&mut filter, crop.width);
    filter.append(":");
    append_decimal(&mut filter, crop.height);
    filter.append(":");
    append_decimal(&mut filter, crop.x);
    filter.append(":");
    append_decimal(&mut filter, crop.y);
    filter
}

/// Appends a copy of `text` to a list of texts.
pub fn push_text(list: &mut Vec<String>, text: &str)
    ensures
        texts(final(list)@) == texts(old(list)@).push(text@),
{
    list.push(String::from_str(text));
    assert(texts(list@) =~= texts(old(list)@).push(text@));
}

/// The capture source: the screen's device index, with no audio device.
pub open spec fn capture_input_text() -> Seq<char> {
    "4:none"@
}

/// Names the capture source for the capture tool and its probe.
pub fn capture_input() -> (input: String)
    ensures
        input@ == capture_input_text(),
{
    String::from_str("4:none")
}

/// The arguments of a recording: the source at a fixed frame rate, a silent
/// audio track beside it, a fixed pixel format and encoding, the crop filter
/// where a crop is given, and the output file last.
pub open spec fn capture_arguments(
    input: Seq<char>,
    crop: Option<CaptureRectangle>,
    output: Seq<char>,
) -> Seq<Seq<char>> {
    let fixed = seq![
        "-y"@,
        "-f"@,
        "avfoundation"@,
        "-framerate"@,
        "30"@,
        "-i"@,
        input,
        "-f"@,
        "lavfi"@,
        "-i"@,
        "anullsrc"@,
        "-pix_fmt"@,
        "yuv420p"@,
        "-profile:v"@,
        "high"@,
        "-level"@,
        "4.2"@,
        "-movflags"@,
        "+faststart"@,
        "-c:v"@,
        "libx264"@,
        "-preset"@,
        "ultrafast"@,
        "-crf"@,
        "23"@,
        "-shortest"@,
    ];
    match crop {
        Some(c) => fixed.push("-filter:v"@).push(crop_filter_text(c)).push(output),
        None => fixed.push(output),
    }
}

/// The recording as plain values: the capture tool with `capture_arguments`.
pub open spec fn capture_invocation(
    input: Seq<char>,
    crop: Option<CaptureRectangle>,
    output: Seq<char>,
) -> InvocationView {
    InvocationView { program: "ffmpeg"@, args: capture_arguments(input, crop, output) }
}

/// Builds the command line that records `input` into `output`, cropped where
/// `crop` is given.
pub fn capture_command(input: &str, crop: Option<CaptureRectangle>, output: &str) -> (command:
    Invocation)
    ensures
        command@ == capture_invocation(input@, crop, output@),
{
    let mut args: Vec<String> = Vec::new();
    assert(texts(args@) =~= Seq::<Seq<char>>::empty());
    push_text(&mut args, "-y");
    push_text(&mut args, "-f");
    push_text(&mut args, "avfoundation");
    push_text(&mut args, "-framerate");
    push_text(&mut args, "30");
    push_text(&mut args, "-i");
    push_text(&mut args, input);
    push_text(&mut args, "-f");
    push_text(&mut args, "lavfi");
    push_text(&mut args, "-i");
    push_text(&mut args, "anullsrc");
    push_text(&mut args, "-pix_fmt");
    push_text(&mut args, "yuv420p");
    push_text(&mut args, "-profile:v");
    push_text(&mut args, "high");
    push_text(&mut args, "-level");
    push_text(&mut args, "4.2");
    push_text(&mut args, "-movflags");
    push_text(&mut args, "+faststart");
    push_text(&mut args, "-c:v");
    push_text(&mut args, "libx264");
    push_text(&mut args, "-preset");
    push_text(&mut args, "ultrafast");
    push_text(&mut args, "-crf");
    push_text(&mut args, "23");
    push_text(&mut args, "-shortest");
    match crop {
        Some(c) => {
            let filter: String = crop_filter(c);
            push_text(&mut args, "-filter:v");
            push_text(&mut args, filter.as_str());
        },
        None => {},
    }
    push_text(&mut args, output);
    assert(texts(args@) =~= capture_arguments(input@, crop, output@));
    Invocation { program: String::from_str("ffmpeg"), args }
}

/// The probe of a source's native size as plain values: it prints one line,
/// width then height with a comma between, for each video stream.
pub open spec fn probe_invocation(input: Seq<char>) -> InvocationView {
    InvocationView {
        program: "ffprobe"@,
        args: seq![
            "-v"@,
            "error"@,
            "-f"@,
            "avfoundation"@,
            "-i"@,
            input,
            "-show_entries"@,
            "stream=width,height"@,
            "-of"@,
            "csv=p=0"@,
        ],
    }
}

/// Builds the command line that probes the native size of `input`.
pub fn probe_command(input: &str) -> (command: Invocation)
    ensures
        command@ == probe_invocation(input@),
{
    let mut args: Vec<String> = Vec::new();
    assert(texts(args@) =~= Seq::<Seq<char>>::empty());
    push_text(&mut args, "-v");
    push_text(&mut args, "error");
    push_text(&mut args, "-f");
    push_text(&mut args, "avfoundation");
    push_text(&mut args, "-i");
    push_text(&mut args, input);
    push_text(&mut args, "-show_entries");
    push_text(&mut args, "stream=width,height");
    push_text(&mut args, "-of");
    push_text(&mut args, "csv=p=0");
    assert(texts(args@) =~= probe_invocation(input@).args);
    Invocation { program: String::from_str("ffprobe"), args }
}

/// The listing of capture devices as plain values.
pub open spec fn device_listing_invocation() -> InvocationView {
    InvocationView {
        program: "ffmpeg"@,
        args: seq!["-f"@, "avfoundation"@, "-list_devices"@, "true"@, "-i"@, ""@],
    }
}

/// Builds the command line that makes the capture tool list its devices.
pub fn device_listing_command() -> (command: Invocation)
    ensures
        command@ == device_listing_invocation(),
{
    let mut args: Vec<String> = Vec::new();
    assert(texts(args@) =~= Seq::<Seq<char>>::empty());
    push_text(&mut args, "-f");
    push_text(&mut args, "avfoundation");
    push_text(&mut args, "-list_devices");
    push_text(&mut args, "true");
    push_text(&mut args, "-i");
    push_text(&mut args, "");
    assert(texts(args@) =~= device_listing_invocation().args);
    Invocation { program: String::from_str("ffmpeg"), args }
}

/// A directory and a name below it as one path: a `/` between them unless
/// the directory is empty or ends in one.
pub open spec fn joined(dir: Seq<char>, name: Seq<char>) -> Seq<char> {
    if dir.len() == 0 || dir.last() == '/' {
        dir + name
    } else {
        dir + "/"@ + name
    }
}

/// Joins a directory and a name below it.
pub fn join_path(dir: &str, name: &str) -> (path: String)
    ensures
        path@ == joined(dir@, name@),
{
    let n: usize = dir.unicode_len();
    let mut path: String = String::from_str(dir);
    if n > 0 && dir.get_char(n - 1) != '/' {
        path.append("/");
    }
    path.append(name);
    path
}

/// Where recordings go when no directory is asked for: `Videos/nvim-recordings`
/// below the home directory, below `.` where the host names no home.
pub open spec fn default_output_dir_text(home: Option<Seq<char>>) -> Seq<char> {
    let base = match home {
        Some(h) => h,
        None => "."@,
    };
    joined(joined(base, "Videos"@), "nvim-recordings"@)
}

/// Names the default output directory below `home`.
pub fn default_output_dir(home: Option<String>) -> (dir: String)
    ensures
        dir@ == default_output_dir_text(
            match home {
                Some(h) => Some(h@),
                None => None,
            },
        ),
{
    let base: String = match home {
        Some(h) => h,
        None => String::from_str("."),
    };
    let videos: String = join_path(base.as_str(), "Videos");
    join_path(videos.as_str(), "nvim-recordings")
}

/// The output file of a recording begun at the moment that `stamp` states:
/// `rec_`, the stamp and `.mp4`, in `dir`.
pub open spec fn output_file_text(dir: Seq<char>, stamp: Seq<char>) -> Seq<char> {
    joined(dir, "rec_"@ + stamp + ".mp4"@)
}

/// Names the output file in `dir` for a recording begun at `stamp`.
pub fn next_output_file(dir: &str, stamp: &str) -> (path: String)
    ensures
        path@ == output_file_text(dir@, stamp@),
{
    let mut name: String = String::from_str("rec_");
    name.append(stamp);
    name.append(".mp4");
    join_path(dir, name.as_str())
}

/// An output path comes back from its record as it was written: unless the
/// directory begins with white space, there is nothing to trim from it.
pub proof fn law_output_path_round_trip(dir: Seq<char>, stamp: Seq<char>)
    requires
        dir.len() == 0 || !is_space(dir[0]),
    ensures
        trimmed(output_file_text(dir, stamp)) == output_file_text(dir, stamp),
{
    reveal_strlit("rec_");
    reveal_strlit(".mp4");
    reveal_strlit("/");
    let name = "rec_"@ + stamp + ".mp4"@;
    let path = output_file_text(dir, stamp);
    assert(name[0] == 'r');
    assert(name.last() == '4');
    assert(path.last() == '4');
    assert(path[0] == if dir.len() == 0 {
        'r'
    } else {
        dir[0]
    });
    lemma_trimmed_is_whole(path);
}

} // verus!
