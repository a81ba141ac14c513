//! The files of a video export, and what ffmpeg is told to do with them.
use crate::text;
use vstd::prelude::*;
use vstd::string::*;

verus! {

/// The name of the file that holds a frame.
pub open spec fn frame_name(frame_index: nat) -> Seq<char> {
    "frame_"@ + text::padded_decimal(frame_index, 6) + ".png"@
}

proof fn frame_name_is_plain(frame_index: nat)
    ensures
        text::plain_name(frame_name(frame_index)),
{
    reveal_strlit("frame_");
    reveal_strlit(".png");
    let name = frame_name(frame_index);
    let digits = text::padded_decimal(frame_index, 6);
    assert(name[0] != '.');
    assert forall|i: int| 0 <= i < name.len() implies !text::separates(#[trigger] name[i]) by {
        if 6 <= i < 6 + digits.len() {
            text::padded_decimal_holds_digits(frame_index, 6, i - 6);
            assert(name[i] == digits[i - 6]);
        }
    }
}

/// The path of the file that holds a frame, where those of all frames begin with `head`.
pub open spec fn frame_path(head: Seq<char>, frame_index: nat) -> Seq<char> {
    head + text::padded_decimal(frame_index, 6) + ".png"@
}

/// The pattern that ffmpeg finds the frame files by.
pub open spec fn frame_pattern(head: Seq<char>) -> Seq<char> {
    head + "%06d.png"@
}

/// What the paths of all frame files in a directory begin with.
pub fn frame_files_head(temp_dir: &str) -> (res: String)
    ensures
        text::in_directory(temp_dir@, "frame_"@, res@),
{
    proof {
        reveal_strlit("frame_");
        assert("frame_"@[0] != '.');
    }
    text::join_path(temp_dir, "frame_")
}

/// The path of the file that holds a frame.
pub fn cropped_video_frame_path(head: &str, frame_index: usize) -> (res: String)
    ensures
        res@ == frame_path(head@, frame_index as nat),
{
    let digits = text::padded_decimal_text(frame_index as u64, 6);
    head.to_owned().concat(digits.as_str()).concat(".png")
}

/// The frame files lie in their directory, under their names.
pub proof fn frame_files_are_in_their_directory(dir: Seq<char>, head: Seq<char>, frame_index: nat)
    requires
        text::in_directory(dir, "frame_"@, head),
    ensures
        text::in_directory(dir, frame_name(frame_index), frame_path(head, frame_index)),
{
    let start = "frame_"@;
    let rest = text::padded_decimal(frame_index, 6) + ".png"@;
    let name = frame_name(frame_index);
    let path = frame_path(head, frame_index);
    assert(name =~= start + rest);
    assert(path =~= head + rest);
    if text::is_verbatim(dir) {
        let at = head.len() - start.len();
        assert(path.len() - name.len() == at);
        assert(path.skip(at) =~= head.skip(at) + rest);
        assert(path[at - 1] == head[at - 1]);
    } else if head == dir + start {
        assert(path =~= dir + name);
        if !(dir.len() == 0 || text::separates(dir.last())) {
            reveal_strlit("frame_");
            assert((dir + start)[dir.len() as int] == 'f');
        }
    } else if head == dir + seq!['/'] + start {
        assert(path =~= dir + seq!['/'] + name);
    } else {
        assert(path =~= dir + seq!['\\'] + name);
    }
}

/// What a pattern that ends in `%06d.png` stands for at a number: the number filled up to six digits,
/// and never cut off.
pub open spec fn expanded(pattern: Seq<char>, number: nat) -> Seq<char> {
    pattern.take(pattern.len() - 8) + text::padded_decimal(number, 6) + ".png"@
}

/// The pattern that ffmpeg is given leads to the file of each frame.
pub proof fn the_pattern_leads_to_the_frames(head: Seq<char>, frame_index: nat)
    ensures
        expanded(frame_pattern(head), frame_index) == frame_path(head, frame_index),
{
    reveal_strlit("%06d.png");
    let pattern = frame_pattern(head);
    assert(pattern.take(pattern.len() - 8) =~= head);
}

/// The files of the first million frames are named in the order of the frames.
pub proof fn frame_names_are_ordered(i: nat, j: nat)
    requires
        i < j < 1_000_000,
    ensures
        text::text_before(frame_name(i), frame_name(j)),
{
    assert(text::power_of_ten(6) == 1_000_000) by {
        reveal_with_fuel(text::power_of_ten, 7);
    }
    let (a, b) = (text::padded_decimal(i, 6), text::padded_decimal(j, 6));
    text::padded_decimals_are_ordered(i, j, 6);
    text::text_before_with_tails(a, b, ".png"@, ".png"@);
    text::text_before_behind_a_head("frame_"@, a + ".png"@, b + ".png"@);
    assert(frame_name(i) =~= "frame_"@ + (a + ".png"@));
    assert(frame_name(j) =~= "frame_"@ + (b + ".png"@));
}

/// Different frames have different file names.
pub proof fn frame_names_are_distinct(i: nat, j: nat)
    requires
        frame_name(i) == frame_name(j),
    ensures
        i == j,
{
    reveal_strlit("frame_");
    reveal_strlit(".png");
    let a = text::padded_decimal(i, 6);
    let b = text::padded_decimal(j, 6);
    assert(frame_name(i).len() == 6 + a.len() + 4);
    assert(frame_name(j).len() == 6 + b.len() + 4);
    assert(a =~= frame_name(i).subrange(6, (6 + a.len()) as int));
    assert(b =~= frame_name(j).subrange(6, (6 + b.len()) as int));
    text::padded_decimal_is_injective(i, j, 6);
}

proof fn frame_name_starts_once(frame_index: nat, k: int)
    requires
        0 <= k < frame_name(frame_index).len(),
    ensures
        frame_name(frame_index)[k] == 'f' <==> k == 0,
{
    reveal_strlit("frame_");
    reveal_strlit(".png");
    let digits = text::padded_decimal(frame_index, 6);
    if 6 <= k < 6 + digits.len() {
        text::padded_decimal_holds_digits(frame_index, 6, k - 6);
    }
}

proof fn directory_entry_ends_with_name(dir: Seq<char>, name: Seq<char>, path: Seq<char>)
    requires
        text::in_directory(dir, name, path),
    ensures
        path.len() >= name.len(),
        path.subrange(path.len() - name.len(), path.len() as int) == name,
{
    let tail = path.subrange(path.len() - name.len(), path.len() as int);
    if text::is_verbatim(dir) {
        assert(tail =~= path.skip(path.len() - name.len()));
    }
    assert(tail =~= name);
}

/// No two frames of an export are written to the same file.
pub proof fn frame_paths_are_distinct(dir: Seq<char>, i: nat, j: nat, path: Seq<char>)
    requires
        text::in_directory(dir, frame_name(i), path),
        text::in_directory(dir, frame_name(j), path),
    ensures
        i == j,
{
    let a = frame_name(i);
    let b = frame_name(j);
    frame_name_is_plain(i);
    frame_name_is_plain(j);
    directory_entry_ends_with_name(dir, a, path);
    directory_entry_ends_with_name(dir, b, path);
    frame_name_starts_once(i, 0);
    frame_name_starts_once(j, 0);
    if a.len() == b.len() {
        assert(a =~= b);
        frame_names_are_distinct(i, j);
    } else if a.len() < b.len() {
        frame_name_starts_once(j, b.len() - a.len());
        assert(b[b.len() - a.len()] == path[path.len() - a.len()]);
        assert(a[0] == path[path.len() - a.len()]);
    } else {
        frame_name_starts_once(i, a.len() - b.len());
        assert(a[a.len() - b.len()] == path[path.len() - b.len()]);
        assert(b[0] == path[path.len() - b.len()]);
    }
}

/// The name of the directory that holds the frames of an export.
pub open spec fn temp_dir_name(process_id: nat, export_id: nat, millis: nat) -> Seq<char> {
    "rerun-cropped-video-"@ + text::decimal(process_id) + "-"@ + text::decimal(export_id) + "-"@
        + text::decimal(millis)
}

/// The directory that holds the frames of an export, in the directory for temporary files.
pub fn cropped_video_temp_dir(
    temp_dir: &str,
    process_id: u32,
    export_id: u64,
    millis: u128,
) -> (res: String)
    ensures
        text::in_directory(
            temp_dir@,
            temp_dir_name(process_id as nat, export_id as nat, millis as nat),
            res@,
        ),
{
    let process = text::decimal_text(process_id as u128);
    let export = text::decimal_text(export_id as u128);
    let time = text::decimal_text(millis);
    let name = "rerun-cropped-video-".to_owned().concat(process.as_str()).concat("-").concat(
        export.as_str(),
    ).concat("-").concat(time.as_str());
    proof {
        temp_dir_name_is_plain(process_id as nat, export_id as nat, millis as nat);
    }
    text::join_path(temp_dir, name.as_str())
}

proof fn temp_dir_name_is_plain(process_id: nat, export_id: nat, millis: nat)
    ensures
        text::plain_name(temp_dir_name(process_id, export_id, millis)),
{
    reveal_strlit("rerun-cropped-video-");
    reveal_strlit("-");
    let name = temp_dir_name(process_id, export_id, millis);
    let (p, e, m) = (text::decimal(process_id), text::decimal(export_id), text::decimal(millis));
    assert(name[0] != '.');
    assert forall|i: int| 0 <= i < name.len() implies !text::separates(#[trigger] name[i]) by {
        if 20 <= i < 20 + p.len() {
            text::decimal_holds_digits(process_id, i - 20);
        } else if 21 + p.len() <= i < 21 + p.len() + e.len() {
            text::decimal_holds_digits(export_id, i - 21 - p.len());
        } else if i >= 22 + p.len() + e.len() {
            text::decimal_holds_digits(millis, i - 22 - p.len() - e.len());
        }
    }
}

/// The texts before the first dash are the same if the whole texts are.
proof fn equal_up_to_dash(a: Seq<char>, x: Seq<char>, b: Seq<char>, y: Seq<char>)
    requires
        a + seq!['-'] + x == b + seq!['-'] + y,
        forall|i: int| 0 <= i < a.len() ==> a[i] != '-',
        forall|i: int| 0 <= i < b.len() ==> b[i] != '-',
    ensures
        a == b,
        x == y,
{
    let s = a + seq!['-'] + x;
    let t = b + seq!['-'] + y;
    if a.len() < b.len() {
        assert(s[a.len() as int] == '-');
        assert(t[a.len() as int] == b[a.len() as int]);
    } else if b.len() < a.len() {
        assert(t[b.len() as int] == '-');
        assert(s[b.len() as int] == a[b.len() as int]);
    }
    assert(a =~= s.subrange(0, a.len() as int));
    assert(b =~= t.subrange(0, b.len() as int));
    assert(x =~= s.subrange((a.len() + 1) as int, s.len() as int));
    assert(y =~= t.subrange((b.len() + 1) as int, t.len() as int));
}

/// Exports of different processes, with different ids or started at different times keep their
/// frames in directories of different names.
pub proof fn temp_dir_names_are_distinct(
    process_a: nat,
    export_a: nat,
    millis_a: nat,
    process_b: nat,
    export_b: nat,
    millis_b: nat,
)
    requires
        temp_dir_name(process_a, export_a, millis_a) == temp_dir_name(
            process_b,
            export_b,
            millis_b,
        ),
    ensures
        process_a == process_b,
        export_a == export_b,
        millis_a == millis_b,
{
    reveal_strlit("rerun-cropped-video-");
    reveal_strlit("-");
    let head = "rerun-cropped-video-"@;
    let (p, e, m) = (text::decimal(process_a), text::decimal(export_a), text::decimal(millis_a));
    let (q, f, n) = (text::decimal(process_b), text::decimal(export_b), text::decimal(millis_b));
    let s = temp_dir_name(process_a, export_a, millis_a);
    let t = temp_dir_name(process_b, export_b, millis_b);
    assert("-"@ =~= seq!['-']);
    let rest_a = e + seq!['-'] + m;
    let rest_b = f + seq!['-'] + n;
    assert(s =~= head + (p + seq!['-'] + rest_a));
    assert(t =~= head + (q + seq!['-'] + rest_b));
    assert((p + seq!['-'] + rest_a) =~= s.subrange(20, s.len() as int));
    assert((q + seq!['-'] + rest_b) =~= t.subrange(20, t.len() as int));
    assert forall|i: int| 0 <= i < p.len() implies p[i] != '-' by {
        text::decimal_holds_digits(process_a, i);
    }
    assert forall|i: int| 0 <= i < q.len() implies q[i] != '-' by {
        text::decimal_holds_digits(process_b, i);
    }
    assert forall|i: int| 0 <= i < e.len() implies e[i] != '-' by {
        text::decimal_holds_digits(export_a, i);
    }
    assert forall|i: int| 0 <= i < f.len() implies f[i] != '-' by {
        text::decimal_holds_digits(export_b, i);
    }
    equal_up_to_dash(p, rest_a, q, rest_b);
    equal_up_to_dash(e, m, f, n);
    text::decimal_is_injective(process_a, process_b);
    text::decimal_is_injective(export_a, export_b);
    text::decimal_is_injective(millis_a, millis_b);
}

/// The file name that is proposed for a video.
pub fn video_file_name(sanitized_name: &str) -> (res: String)
    ensures
        res@ == sanitized_name@ + ".mp4"@,
{
    sanitized_name.to_owned().concat(".mp4")
}

/// What came of asking ffmpeg for its version.
#[derive(Debug, PartialEq, Eq)]
pub enum FfmpegProbe {
    Ran { success: bool },
    NotFound,
    /// The text of another error.
    Failed(String),
}

/// Whether ffmpeg can be used, and if not, what to tell the user.
pub fn ensure_ffmpeg_available(probe: FfmpegProbe) -> (res: Result<(), String>)
    ensures
        match res {
            Ok(()) => missing_ffmpeg(probe) is None,
            Err(text) => missing_ffmpeg(probe) == Some(text@),
        },
        probe matches FfmpegProbe::Failed(reason) ==> (res matches Err(text) && text == reason),
{
    match probe {
        FfmpegProbe::Ran { success } => {
            if success {
                Ok(())
            } else {
                Err("`ffmpeg` is installed but unavailable for video export".to_owned())
            }
        },
        FfmpegProbe::NotFound => Err(
            "`ffmpeg` was not found on PATH. Install ffmpeg to export MP4 videos.".to_owned(),
        ),
        FfmpegProbe::Failed(reason) => Err(reason),
    }
}

/// The arguments that make an MP4 file of even size out of the input before them.
pub open spec fn mp4_args(output_path: Seq<char>) -> Seq<Seq<char>> {
    seq![
        "-vf"@,
        "pad=ceil(iw/2)*2:ceil(ih/2)*2"@,
        "-pix_fmt"@,
        "yuv420p"@,
        "-c:v"@,
        "libx264"@,
        output_path,
    ]
}

fn push_mp4_args(args: &mut Vec<String>, output_path: &str)
    ensures
        text::texts(final(args)@) == text::texts(old(args)@) + mp4_args(output_path@),
{
    let ghost before = text::texts(args@);
    text::push_text(args, "-vf");
    text::push_text(args, "pad=ceil(iw/2)*2:ceil(ih/2)*2");
    text::push_text(args, "-pix_fmt");
    text::push_text(args, "yuv420p");
    text::push_text(args, "-c:v");
    text::push_text(args, "libx264");
    text::push_text(args, output_path);
    assert(text::texts(args@) =~= before + mp4_args(output_path@));
}

/// The arguments by which ffmpeg encodes frame files, whose pattern is given.
pub open spec fn frame_encoding_args(
    input_pattern: Seq<char>,
    output_path: Seq<char>,
    fps: Seq<char>,
) -> Seq<Seq<char>> {
    seq!["-y"@, "-framerate"@, fps, "-i"@, input_pattern] + mp4_args(output_path)
}

/// How ffmpeg is called to encode frame files whose paths begin with `head`. The frame rate is given
/// as text.
pub fn encode_cropped_video_args(head: &str, output_path: &str, fps: &str) -> (res: Vec<String>)
    ensures
        text::texts(res@) == frame_encoding_args(frame_pattern(head@), output_path@, fps@),
{
    let pattern = head.to_owned().concat("%06d.png");
    let mut args: Vec<String> = Vec::new();
    text::push_text(&mut args, "-y");
    text::push_text(&mut args, "-framerate");
    text::push_text(&mut args, fps);
    text::push_text(&mut args, "-i");
    text::push_text(&mut args, pattern.as_str());
    assert(text::texts(args@) =~= seq!["-y"@, "-framerate"@, fps@, "-i"@, pattern@]);
    push_mp4_args(&mut args, output_path);
    args
}

/// The arguments by which ffmpeg encodes raw frames of the given size from its standard input.
pub open spec fn stream_encoding_args(
    output_path: Seq<char>,
    fps: Seq<char>,
    width: nat,
    height: nat,
) -> Seq<Seq<char>> {
    seq![
        "-y"@,
        "-f"@,
        "rawvideo"@,
        "-pixel_format"@,
        "rgba"@,
        "-video_size"@,
        text::decimal(width) + "x"@ + text::decimal(height),
        "-framerate"@,
        fps,
        "-i"@,
        "-"@,
    ] + mp4_args(output_path)
}

/// How ffmpeg is called to encode raw frames from its standard input. The frame rate is given as
/// text.
pub fn streaming_video_encoder_args(
    output_path: &str,
    fps: &str,
    width: u32,
    height: u32,
) -> (res: Vec<String>)
    ensures
        text::texts(res@) == stream_encoding_args(
            output_path@,
            fps@,
            width as nat,
            height as nat,
        ),
{
    let size = text::decimal_text(width as u128).concat("x").concat(
        text::decimal_text(height as u128).as_str(),
    );
    let mut args: Vec<String> = Vec::new();
    text::push_text(&mut args, "-y");
    text::push_text(&mut args, "-f");
    text::push_text(&mut args, "rawvideo");
    text::push_text(&mut args, "-pixel_format");
    text::push_text(&mut args, "rgba");
    text::push_text(&mut args, "-video_size");
    text::push_text(&mut args, size.as_str());
    text::push_text(&mut args, "-framerate");
    text::push_text(&mut args, fps);
    text::push_text(&mut args, "-i");
    text::push_text(&mut args, "-");
    assert(text::texts(args@) =~= seq![
        "-y"@,
        "-f"@,
        "rawvideo"@,
        "-pixel_format"@,
        "rgba"@,
        "-video_size"@,
        size@,
        "-framerate"@,
        fps@,
        "-i"@,
        "-"@,
    ]);
    push_mp4_args(&mut args, output_path);
    args
}

/// What to say where the frames cannot be handed to ffmpeg.
pub fn ffmpeg_input_missing() -> (res: String)
    ensures
        res@ == "ffmpeg stdin was not available for video export"@,
{
    "ffmpeg stdin was not available for video export".to_owned()
}

/// What to say where ffmpeg failed on an output file, with what it printed.
pub open spec fn ffmpeg_failure(output_path: Seq<char>, stderr: Seq<u8>) -> Seq<char> {
    "ffmpeg failed to encode "@ + text::quoted_path(output_path) + ": "@ + text::decoded(stderr)
}

/// What came of encoding raw frames: the path of the video, or what to tell the user.
pub fn streaming_outcome(output_path: &str, success: bool, stderr: &Vec<u8>) -> (res: Result<
    String,
    String,
>)
    ensures
        match res {
            Ok(path) => encoding_failure(None, output_path@, success, stderr@) is None && path@
                == output_path@,
            Err(text) => encoding_failure(None, output_path@, success, stderr@) == Some(text@),
        },
{
    if success {
        Ok(output_path.to_owned())
    } else {
        Err(
            "ffmpeg failed to encode ".to_owned().concat(
                text::quote_path(output_path).as_str(),
            ).concat(": ").concat(text::decode(stderr).as_str()),
        )
    }
}

/// What came of encoding the frame files of a directory: the path of the video, or what to tell
/// the user. The frame files are done with if and only if the video was made.
pub fn encoding_outcome(
    temp_dir: &str,
    output_path: &str,
    success: bool,
    stderr: &Vec<u8>,
) -> (res: Result<String, String>)
    ensures
        match res {
            Ok(path) => encoding_failure(Some(temp_dir@), output_path@, success, stderr@) is None
                && path@ == output_path@,
            Err(text) => encoding_failure(Some(temp_dir@), output_path@, success, stderr@) == Some(
                text@,
            ),
        },
{
    match streaming_outcome(output_path, success, stderr) {
        Ok(path) => Ok(path),
        Err(text) => Err(
            text.concat("\nTemporary frames kept at ").concat(
                text::quote_path(temp_dir).as_str(),
            ),
        ),
    }
}

/// `value` is given for `option`: it stands right behind it.
pub open spec fn is_given(args: Seq<Seq<char>>, option: Seq<char>, value: Seq<char>) -> bool {
    exists|i: int|
        0 <= i && i + 1 < args.len() && #[trigger] args[i] == option && args[i + 1] == value
}

/// However frames get to ffmpeg, it reads them at the given rate, and writes the video, encoded so
/// that it plays everywhere, over what is at the given path. Frame files are found by their pattern;
/// raw frames come in on the standard input, in the given size.
pub proof fn ffmpeg_is_told_what_to_do(
    pattern: Seq<char>,
    output_path: Seq<char>,
    fps: Seq<char>,
    width: nat,
    height: nat,
)
    ensures
        ({
            let files = frame_encoding_args(pattern, output_path, fps);
            let stream = stream_encoding_args(output_path, fps, width, height);
            &&& files[0] == "-y"@
            &&& stream[0] == "-y"@
            &&& files.last() == output_path
            &&& stream.last() == output_path
            &&& is_given(files, "-framerate"@, fps)
            &&& is_given(stream, "-framerate"@, fps)
            &&& is_given(files, "-i"@, pattern)
            &&& is_given(stream, "-i"@, "-"@)
            &&& is_given(stream, "-f"@, "rawvideo"@)
            &&& is_given(stream, "-pixel_format"@, "rgba"@)
            &&& is_given(
                stream,
                "-video_size"@,
                text::decimal(width) + "x"@ + text::decimal(height),
            )
            &&& is_given(files, "-vf"@, "pad=ceil(iw/2)*2:ceil(ih/2)*2"@)
            &&& is_given(stream, "-vf"@, "pad=ceil(iw/2)*2:ceil(ih/2)*2"@)
            &&& is_given(files, "-pix_fmt"@, "yuv420p"@)
            &&& is_given(stream, "-pix_fmt"@, "yuv420p"@)
            &&& is_given(files, "-c:v"@, "libx264"@)
            &&& is_given(stream, "-c:v"@, "libx264"@)
        }),
{
    let files = frame_encoding_args(pattern, output_path, fps);
    let stream = stream_encoding_args(output_path, fps, width, height);
    assert(files[1] == "-framerate"@ && files[2] == fps);
    assert(files[3] == "-i"@ && files[4] == pattern);
    assert(files[5] == "-vf"@ && files[6] == "pad=ceil(iw/2)*2:ceil(ih/2)*2"@);
    assert(files[7] == "-pix_fmt"@ && files[8] == "yuv420p"@);
    assert(files[9] == "-c:v"@ && files[10] == "libx264"@);
    assert(stream[1] == "-f"@ && stream[2] == "rawvideo"@);
    assert(stream[3] == "-pixel_format"@ && stream[4] == "rgba"@);
    assert(stream[5] == "-video_size"@);
    assert(stream[7] == "-framerate"@ && stream[8] == fps);
    assert(stream[9] == "-i"@ && stream[10] == "-"@);
    assert(stream[11] == "-vf"@ && stream[12] == "pad=ceil(iw/2)*2:ceil(ih/2)*2"@);
    assert(stream[13] == "-pix_fmt"@ && stream[14] == "yuv420p"@);
    assert(stream[15] == "-c:v"@ && stream[16] == "libx264"@);
}

/// What ffmpeg printed is told where it failed, with the path of the video.
pub proof fn failures_of_ffmpeg_are_told(output_path: Seq<char>, stderr: Seq<u8>)
    ensures
        text::contains_text(ffmpeg_failure(output_path, stderr), text::quoted_path(output_path)),
        text::contains_text(ffmpeg_failure(output_path, stderr), text::decoded(stderr)),
{
    let all = ffmpeg_failure(output_path, stderr);
    let (path, printed) = (text::quoted_path(output_path), text::decoded(stderr));
    let at = "ffmpeg failed to encode "@.len() as int;
    let then = all.len() - printed.len();
    assert(all.subrange(at, at + path.len()) =~= path);
    assert(text::occurs_at(all, path, at));
    assert(all.subrange(then, then + printed.len()) =~= printed);
    assert(text::occurs_at(all, printed, then));
}

/// Why videos cannot be encoded, if they cannot.
pub open spec fn missing_ffmpeg(probe: FfmpegProbe) -> Option<Seq<char>> {
    match probe {
        FfmpegProbe::Ran { success: true } => None,
        FfmpegProbe::Ran { success: false } => Some(
            "`ffmpeg` is installed but unavailable for video export"@,
        ),
        FfmpegProbe::NotFound => Some(
            "`ffmpeg` was not found on PATH. Install ffmpeg to export MP4 videos."@,
        ),
        FfmpegProbe::Failed(reason) => Some(reason@),
    }
}

/// What is told of an encoding that failed. The frames of one that read them from files are kept.
pub open spec fn encoding_failure(
    temp_dir: Option<Seq<char>>,
    output_path: Seq<char>,
    success: bool,
    stderr: Seq<u8>,
) -> Option<Seq<char>> {
    if success {
        None
    } else {
        match temp_dir {
            Some(temp_dir) => Some(
                ffmpeg_failure(output_path, stderr) + "\nTemporary frames kept at "@
                    + text::quoted_path(temp_dir),
            ),
            None => Some(ffmpeg_failure(output_path, stderr)),
        }
    }
}

/// Videos can be encoded if and only if ffmpeg runs; the reason why it does not is told.
pub proof fn videos_need_ffmpeg(probe: FfmpegProbe)
    ensures
        missing_ffmpeg(probe) is None <==> probe == (FfmpegProbe::Ran { success: true }),
        probe matches FfmpegProbe::Failed(reason) ==> missing_ffmpeg(probe) == Some(reason@),
        probe is NotFound ==> missing_ffmpeg(probe) == Some(
            "`ffmpeg` was not found on PATH. Install ffmpeg to export MP4 videos."@,
        ),
        probe == (FfmpegProbe::Ran { success: false }) ==> missing_ffmpeg(probe) == Some(
            "`ffmpeg` is installed but unavailable for video export"@,
        ),
{
}

/// An encoding fails if and only if ffmpeg does, whatever ffmpeg has printed. What it has printed is
/// told then, and where the frames are, if they are in files.
pub proof fn encodings_fail_with_ffmpeg(
    temp_dir: Seq<char>,
    output_path: Seq<char>,
    stderr: Seq<u8>,
)
    ensures
        encoding_failure(None, output_path, true, stderr) is None,
        encoding_failure(Some(temp_dir), output_path, true, stderr) is None,
        encoding_failure(None, output_path, false, stderr) == Some(
            "ffmpeg failed to encode "@ + text::quoted_path(output_path) + ": "@ + text::decoded(
                stderr,
            ),
        ),
        encoding_failure(Some(temp_dir), output_path, false, stderr) == Some(
            "ffmpeg failed to encode "@ + text::quoted_path(output_path) + ": "@ + text::decoded(
                stderr,
            ) + "\nTemporary frames kept at "@ + text::quoted_path(temp_dir),
        ),
{
}

} // verus!
