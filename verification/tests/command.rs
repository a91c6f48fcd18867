use rec_cli::command::{
    capture_command, capture_input, crop_filter, default_output_dir, device_listing_command,
    join_path, next_output_file, probe_command, push_text, Invocation, LOG_FILE,
};
use rec_cli::geometry::CaptureRectangle;

#[test]
fn crop_filter_puts_the_extent_before_the_corner() {
    let crop = CaptureRectangle { x: 1800, y: 1000, width: 120, height: 80 };
    assert_eq!(crop_filter(crop), "crop=120:80:1800:1000");
}

#[test]
fn crop_filter_writes_every_number_in_full() {
    let crop = CaptureRectangle { x: 0, y: 7, width: i32::MAX, height: 1 };
    assert_eq!(crop_filter(crop), "crop=2147483647:1:0:7");
    let odd = CaptureRectangle { x: -3, y: i32::MIN, width: 10, height: 200 };
    assert_eq!(crop_filter(odd), "crop=10:200:-3:-2147483648");
}

#[test]
fn the_capture_input_is_the_screen_without_audio() {
    assert_eq!(capture_input(), "4:none");
}

#[test]
fn capture_command_without_a_crop() {
    let command = capture_command("4:none", None, "/out/rec.mp4");
    let expected: Vec<String> = [
        "-y", "-f", "avfoundation", "-framerate", "30", "-i", "4:none", "-f", "lavfi", "-i",
        "anullsrc", "-pix_fmt", "yuv420p", "-profile:v", "high", "-level", "4.2", "-movflags",
        "+faststart", "-c:v", "libx264", "-preset", "ultrafast", "-crf", "23", "-shortest",
        "/out/rec.mp4",
    ]
    .iter()
    .map(|s| s.to_string())
    .collect();
    assert_eq!(command, Invocation { program: "ffmpeg".to_string(), args: expected });
}

#[test]
fn capture_command_with_a_crop() {
    let crop = CaptureRectangle { x: 1800, y: 1000, width: 120, height: 80 };
    let command = capture_command("1:none", Some(crop), "out.mp4");
    let expected: Vec<String> = [
        "-y", "-f", "avfoundation", "-framerate", "30", "-i", "1:none", "-f", "lavfi", "-i",
        "anullsrc", "-pix_fmt", "yuv420p", "-profile:v", "high", "-level", "4.2", "-movflags",
        "+faststart", "-c:v", "libx264", "-preset", "ultrafast", "-crf", "23", "-shortest",
        "-filter:v", "crop=120:80:1800:1000", "out.mp4",
    ]
    .iter()
    .map(|s| s.to_string())
    .collect();
    assert_eq!(command.program, "ffmpeg");
    assert_eq!(command.args, expected);
}

#[test]
fn probe_command_asks_for_width_and_height() {
    let command = probe_command("4:none");
    let expected: Vec<String> = [
        "-v", "error", "-f", "avfoundation", "-i", "4:none", "-show_entries",
        "stream=width,height", "-of", "csv=p=0",
    ]
    .iter()
    .map(|s| s.to_string())
    .collect();
    assert_eq!(command, Invocation { program: "ffprobe".to_string(), args: expected });
}

#[test]
fn device_listing_command_names_no_input() {
    let command = device_listing_command();
    let expected: Vec<String> = ["-f", "avfoundation", "-list_devices", "true", "-i", ""]
        .iter()
        .map(|s| s.to_string())
        .collect();
    assert_eq!(command, Invocation { program: "ffmpeg".to_string(), args: expected });
}

#[test]
fn push_text_appends_a_copy() {
    let mut list = vec!["a".to_string()];
    push_text(&mut list, "b");
    push_text(&mut list, "");
    assert_eq!(list, vec!["a".to_string(), "b".to_string(), String::new()]);
}

#[test]
fn join_path_puts_one_separator_between() {
    assert_eq!(join_path("/home/a", "Videos"), "/home/a/Videos");
    assert_eq!(join_path("/home/a/", "Videos"), "/home/a/Videos");
    assert_eq!(join_path("/", "tmp"), "/tmp");
    assert_eq!(join_path(".", "x"), "./x");
    assert_eq!(join_path("", "x"), "x");
    assert_eq!(join_path("rel/dir", "x.mp4"), "rel/dir/x.mp4");
    assert_eq!(join_path("/é", "ü"), "/é/ü");
}

#[test]
fn join_path_agrees_with_std_below_a_directory() {
    let dirs = ["/home/a", "/home/a/", "/", ".", "", "rel/dir", "a//", "/é"];
    let names = ["Videos", "nvim-recordings", "rec_20240131_235959.mp4"];
    for dir in dirs.iter() {
        for name in names.iter() {
            let expected = std::path::Path::new(dir).join(name);
            assert_eq!(join_path(dir, name), expected.to_string_lossy());
        }
    }
}

#[test]
fn the_default_directory_lies_below_home() {
    assert_eq!(
        default_output_dir(Some("/home/alice".to_string())),
        "/home/alice/Videos/nvim-recordings"
    );
    assert_eq!(default_output_dir(Some("/".to_string())), "/Videos/nvim-recordings");
}

#[test]
fn the_default_directory_without_a_home_lies_below_here() {
    assert_eq!(default_output_dir(None), "./Videos/nvim-recordings");
}

#[test]
fn the_output_file_is_named_by_its_stamp() {
    assert_eq!(
        next_output_file("/home/alice/Videos/nvim-recordings", "20240131_235959"),
        "/home/alice/Videos/nvim-recordings/rec_20240131_235959.mp4"
    );
    assert_eq!(next_output_file("", "19991231_000000"), "rec_19991231_000000.mp4");
    assert_eq!(next_output_file("out/", "x"), "out/rec_x.mp4");
}

#[test]
fn the_log_file_is_well_known() {
    assert_eq!(LOG_FILE, "/tmp/rec.nvim.ffmpeg.log");
}
