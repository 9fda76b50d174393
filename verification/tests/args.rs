use getopts::{Matches, Options};
use gnop_pong::args::{
    find_field_end, parse_args, parse_number, parse_resolution, try_parse_args, Args,
    DEFAULT_SCREEN_HEIGHT, DEFAULT_SCREEN_WIDTH,
};
use gnop_pong::geometry::Size;

fn size(width: i32, height: i32) -> Size {
    Size { width, height }
}

fn default_size() -> Size {
    size(1920, 1080)
}

/// The options of the program.
fn options() -> Options {
    let mut opts = Options::new();
    opts.optopt("r", "res", "projector resolution (width x height)", "WxH");
    opts.optflag("f", "fullscreen", "game projected on full screen");
    opts.optflag("s", "solo", "single player");
    opts.optflagmulti("d", "", "debug execution");
    opts.optflag("h", "help", "prints usage");
    opts
}

fn matches(args: &[&str]) -> Matches {
    match options().parse(args) {
        Ok(m) => m,
        Err(f) => panic!("{}", f),
    }
}

/// The first two fields between `x`, read by the standard library.
fn by_std(text: &str) -> Size {
    let mut parts = text.split("x").map(|s| s.parse::<i32>());
    match (parts.next(), parts.next()) {
        (Some(Ok(w)), Some(Ok(h))) => size(w, h),
        _ => default_size(),
    }
}

#[test]
fn default_resolution_is_full_hd() {
    assert_eq!(DEFAULT_SCREEN_WIDTH, 1920);
    assert_eq!(DEFAULT_SCREEN_HEIGHT, 1080);
}

#[test]
fn parse_resolution_reads_width_and_height() {
    assert_eq!(parse_resolution("800x600"), size(800, 600));
    assert_eq!(parse_resolution("1920x1080"), size(1920, 1080));
    assert_eq!(parse_resolution("1x2"), size(1, 2));
    assert_eq!(parse_resolution("0x0"), size(0, 0));
}

#[test]
fn parse_resolution_does_not_look_at_further_fields() {
    assert_eq!(parse_resolution("800x600x3"), size(800, 600));
    assert_eq!(parse_resolution("800x600x"), size(800, 600));
    assert_eq!(parse_resolution("800x600xrest"), size(800, 600));
}

#[test]
fn parse_resolution_takes_signs() {
    assert_eq!(parse_resolution("+800x-600"), size(800, -600));
    assert_eq!(parse_resolution("-0x+0"), size(0, 0));
}

#[test]
fn parse_resolution_takes_leading_zeros() {
    assert_eq!(parse_resolution("00000000000000000000800x0600"), size(800, 600));
}

#[test]
fn parse_resolution_needs_two_fields() {
    assert_eq!(parse_resolution(""), default_size());
    assert_eq!(parse_resolution("800"), default_size());
    assert_eq!(parse_resolution("800X600"), default_size());
    assert_eq!(parse_resolution("800,600"), default_size());
}

#[test]
fn parse_resolution_needs_numbers() {
    assert_eq!(parse_resolution("x"), default_size());
    assert_eq!(parse_resolution("800x"), default_size());
    assert_eq!(parse_resolution("x600"), default_size());
    assert_eq!(parse_resolution("8a0x600"), default_size());
    assert_eq!(parse_resolution("800x6 00"), default_size());
    assert_eq!(parse_resolution(" 800x600"), default_size());
    assert_eq!(parse_resolution("800x600 "), default_size());
    assert_eq!(parse_resolution("+x600"), default_size());
    assert_eq!(parse_resolution("800x-"), default_size());
    assert_eq!(parse_resolution("--800x600"), default_size());
    assert_eq!(parse_resolution("8.5x6"), default_size());
    assert_eq!(parse_resolution("\u{ff18}00x600"), default_size());
    assert_eq!(parse_resolution("wxh"), default_size());
}

#[test]
fn parse_resolution_at_the_ends_of_i32() {
    assert_eq!(
        parse_resolution("2147483647x-2147483648"),
        size(i32::MAX, i32::MIN)
    );
    assert_eq!(parse_resolution("2147483648x1"), default_size());
    assert_eq!(parse_resolution("1x-2147483649"), default_size());
    assert_eq!(parse_resolution("99999999999999999999999x1"), default_size());
    assert_eq!(parse_resolution("1x-99999999999999999999999"), default_size());
}

#[test]
fn parse_resolution_agrees_with_the_standard_library() {
    let texts = [
        "", "x", "xx", "1", "1x", "x1", "1x1", "12x34x56", "+1x+2", "-1x-2", "+-1x2", "1x2-",
        "007x008", "2147483647x2147483647", "2147483648x0", "-2147483648x0", "-2147483649x0",
        "4294967296x1", "1 x2", "1x 2", "\t1x2", "1x2\n", "axb", "0x10x", "١x2", "1x²",
        "640x480", "1280x720", "3840x2160", "+x+", "-x-", "+", "-", "x+1", "1e3x2", "0x0x0x0",
        "18446744073709551616x1", "000x000", "-000x+000", "1x1x", "é1x1", "1éx1", "1x1é",
    ];
    for text in texts {
        assert_eq!(parse_resolution(text), by_std(text), "{:?}", text);
    }
}

#[test]
fn parse_resolution_agrees_with_the_standard_library_on_short_texts() {
    // every text of up to four of these characters
    let letters = ['0', '7', 'x', '-', '+', ' '];
    let mut texts = vec![String::new()];
    let mut from = 0;
    for _ in 0..4 {
        let upto = texts.len();
        for i in from..upto {
            for letter in letters {
                let mut longer = texts[i].clone();
                longer.push(letter);
                texts.push(longer);
            }
        }
        from = upto;
    }
    assert_eq!(texts.len(), 1 + 6 + 36 + 216 + 1296);
    for text in texts {
        assert_eq!(parse_resolution(&text), by_std(&text), "{:?}", text);
    }
}

#[test]
fn parse_number_reads_a_part_of_the_bytes() {
    let bytes = "ab-123cd".as_bytes();
    assert_eq!(parse_number(bytes, 2, 6), Some(-123));
    assert_eq!(parse_number(bytes, 3, 6), Some(123));
    assert_eq!(parse_number(bytes, 3, 5), Some(12));
    assert_eq!(parse_number(bytes, 2, 3), None);
    assert_eq!(parse_number(bytes, 4, 4), None);
    assert_eq!(parse_number(bytes, 0, 8), None);
    assert_eq!(parse_number(bytes, 3, 7), None);
}

#[test]
fn find_field_end_stops_at_the_next_x() {
    let bytes = "12x345x6".as_bytes();
    assert_eq!(find_field_end(bytes, 0), 2);
    assert_eq!(find_field_end(bytes, 2), 2);
    assert_eq!(find_field_end(bytes, 3), 6);
    assert_eq!(find_field_end(bytes, 7), 8);
    assert_eq!(find_field_end(bytes, 8), 8);
}

#[test]
fn parse_args_without_arguments() {
    let m = matches(&[]);
    assert_eq!(try_parse_args(&m), Some(parse_args(&m)));
    assert_eq!(
        parse_args(&m),
        Args {
            projector_res: default_size(),
            flag_fullscreen: false,
            flag_solo: false,
            dbg_level: 0,
        }
    );
}

#[test]
fn parse_args_with_everything() {
    let m = matches(&["-r", "800x600", "-f", "-s", "-d"]);
    assert_eq!(
        parse_args(&m),
        Args { projector_res: size(800, 600), flag_fullscreen: true, flag_solo: true, dbg_level: 1 }
    );
}

#[test]
fn parse_args_with_long_names() {
    let m = matches(&["--res", "640x480", "--solo"]);
    assert_eq!(
        parse_args(&m),
        Args {
            projector_res: size(640, 480),
            flag_fullscreen: false,
            flag_solo: true,
            dbg_level: 0,
        }
    );
    let m = matches(&["--res=1024x768", "--fullscreen"]);
    assert_eq!(parse_args(&m).projector_res, size(1024, 768));
    assert!(parse_args(&m).flag_fullscreen);
}

#[test]
fn parse_args_counts_the_debug_level_up_to_two() {
    assert_eq!(parse_args(&matches(&["-d"])).dbg_level, 1);
    assert_eq!(parse_args(&matches(&["-dd"])).dbg_level, 2);
    assert_eq!(parse_args(&matches(&["-d", "-d"])).dbg_level, 2);
    assert_eq!(parse_args(&matches(&["-ddd"])).dbg_level, 2);
    assert_eq!(parse_args(&matches(&["-d", "-dd", "-dddd"])).dbg_level, 2);
}

#[test]
fn parse_args_falls_back_to_the_default_resolution() {
    assert_eq!(parse_args(&matches(&["-r", "big"])).projector_res, default_size());
    assert_eq!(parse_args(&matches(&["-r", "800"])).projector_res, default_size());
    assert_eq!(parse_args(&matches(&["-r800x"])).projector_res, default_size());
    assert_eq!(parse_args(&matches(&["-r800x600"])).projector_res, size(800, 600));
}

#[test]
fn parse_args_leaves_free_words_alone() {
    let m = matches(&["800x600", "-s", "more"]);
    assert_eq!(
        parse_args(&m),
        Args {
            projector_res: default_size(),
            flag_fullscreen: false,
            flag_solo: true,
            dbg_level: 0,
        }
    );
}

#[test]
fn try_parse_args_asks_for_the_options_of_the_program() {
    let mut opts = Options::new();
    opts.optopt("r", "res", "projector resolution", "WxH");
    opts.optflag("f", "fullscreen", "");
    opts.optflag("s", "solo", "");
    let m = opts.parse(&["-s"]).unwrap();
    assert_eq!(try_parse_args(&m), None);
    opts.optflagmulti("d", "", "");
    let m = opts.parse(&["-s", "-r", "320x200", "-dd"]).unwrap();
    assert_eq!(
        try_parse_args(&m),
        Some(Args {
            projector_res: size(320, 200),
            flag_fullscreen: false,
            flag_solo: true,
            dbg_level: 2,
        })
    );
    let m = Options::new().parse(&["free"]).unwrap();
    assert_eq!(try_parse_args(&m), None);
}
