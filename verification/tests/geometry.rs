use rec_cli::geometry::{
    clamp_crop, crop_request, first_screen_size, get_screen_size, parse_screen_size, resolve,
    CaptureRectangle, CropRequest,
};

#[test]
fn clamp_cuts_a_crop_at_the_far_edges() {
    assert_eq!(clamp_crop(1800, 1000, 500, 500, 1920, 1080), Some((1800, 1000, 120, 80)));
}

#[test]
fn clamp_gives_up_beyond_the_right_edge() {
    assert_eq!(clamp_crop(2000, 0, 100, 100, 1920, 1080), None);
    assert_eq!(clamp_crop(1920, 0, 100, 100, 1920, 1080), None);
}

#[test]
fn clamp_gives_up_beyond_the_bottom_edge() {
    assert_eq!(clamp_crop(0, 1080, 100, 100, 1920, 1080), None);
    assert_eq!(clamp_crop(0, 5000, 100, 100, 1920, 1080), None);
}

#[test]
fn clamp_keeps_a_crop_that_fits() {
    assert_eq!(clamp_crop(10, 20, 300, 200, 1920, 1080), Some((10, 20, 300, 200)));
    assert_eq!(clamp_crop(0, 0, 1920, 1080, 1920, 1080), Some((0, 0, 1920, 1080)));
}

#[test]
fn clamp_moves_a_negative_corner_to_zero() {
    assert_eq!(clamp_crop(-50, -7, 300, 200, 1920, 1080), Some((0, 0, 300, 200)));
    assert_eq!(clamp_crop(i32::MIN, i32::MIN, 5, 5, 10, 10), Some((0, 0, 5, 5)));
}

#[test]
fn clamp_raises_the_extent_to_one_pixel() {
    assert_eq!(clamp_crop(5, 5, 0, -3, 1920, 1080), Some((5, 5, 1, 1)));
    assert_eq!(clamp_crop(1919, 1079, i32::MIN, i32::MIN, 1920, 1080), Some((1919, 1079, 1, 1)));
}

#[test]
fn clamp_refuses_a_source_without_size() {
    assert_eq!(clamp_crop(0, 0, 10, 10, 0, 1080), None);
    assert_eq!(clamp_crop(0, 0, 10, 10, 1920, 0), None);
    assert_eq!(clamp_crop(0, 0, 10, 10, -1, -1), None);
}

#[test]
fn clamp_stands_extreme_numbers() {
    assert_eq!(
        clamp_crop(i32::MAX - 1, 0, i32::MAX, i32::MAX, i32::MAX, i32::MAX),
        Some((i32::MAX - 1, 0, 1, i32::MAX))
    );
    assert_eq!(clamp_crop(i32::MAX, i32::MAX, 1, 1, i32::MAX, i32::MAX), None);
}

#[test]
fn clamped_crops_lie_inside_the_source() {
    let values: [i32; 9] = [i32::MIN, -100, -1, 0, 1, 7, 99, 100, i32::MAX];
    let sizes: [i32; 5] = [-1, 0, 1, 100, i32::MAX];
    for &x in values.iter() {
        for &y in values.iter() {
            for &w in values.iter() {
                for &h in values.iter() {
                    for &sw in sizes.iter() {
                        for &sh in sizes.iter() {
                            match clamp_crop(x, y, w, h, sw, sh) {
                                Some((cx, cy, cw, ch)) => {
                                    assert!(cx >= 0 && cy >= 0 && cw > 0 && ch > 0);
                                    assert!(cx as i64 + cw as i64 <= sw as i64);
                                    assert!(cy as i64 + ch as i64 <= sh as i64);
                                    assert!(x < sw && y < sh);
                                }
                                None => {
                                    assert!(sw <= 0 || sh <= 0 || x >= sw || y >= sh);
                                }
                            }
                        }
                    }
                }
            }
        }
    }
}

#[test]
fn screen_size_is_read_from_a_plain_line() {
    assert_eq!(parse_screen_size("1920,1080"), Some((1920, 1080)));
}

#[test]
fn screen_size_stands_white_space() {
    assert_eq!(parse_screen_size("  1920 , 1080 \r"), Some((1920, 1080)));
    assert_eq!(parse_screen_size("\t3840,\u{a0}2160\u{3000}"), Some((3840, 2160)));
}

#[test]
fn screen_size_ignores_further_fields() {
    assert_eq!(parse_screen_size("1920,1080,30"), Some((1920, 1080)));
    assert_eq!(parse_screen_size("1920,1080,"), Some((1920, 1080)));
}

#[test]
fn screen_size_takes_a_plus_sign() {
    assert_eq!(parse_screen_size("+1920,+1080"), Some((1920, 1080)));
}

#[test]
fn screen_size_needs_two_fields() {
    assert_eq!(parse_screen_size("1920"), None);
    assert_eq!(parse_screen_size(""), None);
    assert_eq!(parse_screen_size("   "), None);
    assert_eq!(parse_screen_size(","), None);
    assert_eq!(parse_screen_size("1920,"), None);
    assert_eq!(parse_screen_size(",1080"), None);
}

#[test]
fn screen_size_needs_numbers() {
    assert_eq!(parse_screen_size("wide,high"), None);
    assert_eq!(parse_screen_size("1920x1080"), None);
    assert_eq!(parse_screen_size("19 20,1080"), None);
    assert_eq!(parse_screen_size("1920.0,1080"), None);
}

#[test]
fn screen_size_must_be_positive() {
    assert_eq!(parse_screen_size("0,1080"), None);
    assert_eq!(parse_screen_size("1920,0"), None);
    assert_eq!(parse_screen_size("-1920,1080"), None);
    assert_eq!(parse_screen_size("1920,-1080"), None);
}

#[test]
fn screen_size_must_fit_thirty_two_bits() {
    assert_eq!(parse_screen_size("2147483647,1"), Some((2147483647, 1)));
    assert_eq!(parse_screen_size("2147483648,1"), None);
    assert_eq!(parse_screen_size("1,99999999999999999999"), None);
}

#[test]
fn first_size_skips_lines_that_state_none() {
    assert_eq!(first_screen_size("warning: something\n1920,1080\n"), Some((1920, 1080)));
    assert_eq!(first_screen_size("\n\n  \n800,600"), Some((800, 600)));
}

#[test]
fn first_size_takes_the_first_of_several() {
    assert_eq!(first_screen_size("1920,1080\n800,600\n"), Some((1920, 1080)));
    assert_eq!(first_screen_size("0,0\n800,600\n"), Some((800, 600)));
}

#[test]
fn first_size_stands_carriage_returns() {
    assert_eq!(first_screen_size("junk\r\n1280,720\r\n"), Some((1280, 720)));
}

#[test]
fn first_size_of_nothing_is_none() {
    assert_eq!(first_screen_size(""), None);
    assert_eq!(first_screen_size("\n"), None);
    assert_eq!(first_screen_size("no size here\nnor here"), None);
}

#[test]
fn first_size_goes_line_by_line_as_std_does() {
    let texts = [
        "1920,1080",
        "a\nb\nc",
        "x\r\n 10 , 20 \r\n",
        "1,\n2",
        "5,5\n",
        "\n\n\n",
        "1,2\r3,4",
        "-1,5\n+6,+7",
    ];
    for text in texts.iter() {
        let mut expected = None;
        for line in text.lines() {
            if let Some(size) = parse_screen_size(line) {
                expected = Some(size);
                break;
            }
        }
        assert_eq!(first_screen_size(text), expected);
    }
}

#[test]
fn a_failed_probe_states_no_size() {
    assert_eq!(get_screen_size(false, "1920,1080\n"), None);
    assert_eq!(get_screen_size(true, "1920,1080\n"), Some((1920, 1080)));
    assert_eq!(get_screen_size(true, ""), None);
}

#[test]
fn a_crop_request_needs_all_four_numbers() {
    assert_eq!(
        crop_request(Some(1), Some(2), Some(3), Some(4)),
        Some(CropRequest { x: 1, y: 2, width: 3, height: 4 })
    );
    assert_eq!(crop_request(None, Some(2), Some(3), Some(4)), None);
    assert_eq!(crop_request(Some(1), None, Some(3), Some(4)), None);
    assert_eq!(crop_request(Some(1), Some(2), None, Some(4)), None);
    assert_eq!(crop_request(Some(1), Some(2), Some(3), None), None);
    assert_eq!(crop_request(None, None, None, None), None);
}

#[test]
fn resolve_clamps_against_the_probed_size() {
    let request = CropRequest { x: 1800, y: 1000, width: 500, height: 500 };
    assert_eq!(
        resolve(request, Some((1920, 1080))),
        Some(CaptureRectangle { x: 1800, y: 1000, width: 120, height: 80 })
    );
}

#[test]
fn resolve_falls_back_to_the_full_frame() {
    let request = CropRequest { x: 2000, y: 0, width: 500, height: 500 };
    assert_eq!(resolve(request, Some((1920, 1080))), None);
    assert_eq!(resolve(request, None), None);
    let fitting = CropRequest { x: 0, y: 0, width: 5, height: 5 };
    assert_eq!(resolve(fitting, None), None);
}
