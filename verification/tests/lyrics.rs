use quicklook::lyrics::{
    lines, parse_i64, parse_lrc, parse_lrc_line, parse_u64, scan_lrc, strip_end, strip_prefixes,
    strip_start, trim, white_space, CharClass, Lrc, LrcItem, LrcLine,
};
use quicklook::text::{chars_of, string_of};

fn line(text: &str) -> LrcItem {
    parse_lrc_line(&chars_of(text))
}

fn timed(minutes: u64, seconds: &str, text: &str) -> LrcItem {
    LrcItem::Timed { minutes, seconds: seconds.to_string(), text: text.to_string() }
}

fn sung(timestamp: u64, text: &str) -> LrcLine {
    LrcLine { timestamp, text: text.to_string() }
}

#[test]
fn white_space_is_what_the_standard_library_takes_for_it() {
    for code in 0..=0x10ffffu32 {
        if let Some(c) = char::from_u32(code) {
            assert_eq!(white_space(c), c.is_whitespace(), "U+{:04X}", code);
        }
    }
}

#[test]
fn trimming_agrees_with_the_standard_library() {
    let samples = [
        "",
        " ",
        "  a  ",
        "\t\r\n a b \u{3000}\u{a0}",
        "\u{200b} a \u{200b}",
        "a",
        " \u{2003}x\u{2009} ",
        "]]x]]",
    ];
    for sample in samples.iter() {
        assert_eq!(string_of(&trim(chars_of(sample))), sample.trim());
        assert_eq!(
            string_of(&strip_start(chars_of(sample), CharClass::WhiteSpace)),
            sample.trim_start()
        );
        assert_eq!(
            string_of(&strip_end(chars_of(sample), CharClass::WhiteSpace)),
            sample.trim_end()
        );
        assert_eq!(
            string_of(&strip_end(chars_of(sample), CharClass::Is(']'))),
            sample.trim_end_matches(']')
        );
        assert_eq!(
            string_of(&strip_start(chars_of(sample), CharClass::Is(']'))),
            sample.trim_start_matches(']')
        );
    }
}

#[test]
fn a_prefix_is_stripped_as_often_as_it_stands_there() {
    let strip = |text: &str, prefix: &str| {
        string_of(&strip_prefixes(chars_of(text), &chars_of(prefix)))
    };
    assert_eq!(strip("[ti:[ti:x", "[ti:"), "x");
    assert_eq!(strip("[ti:x[ti:", "[ti:"), "x[ti:");
    assert_eq!(strip(" [ti:x", "[ti:"), " [ti:x");
    assert_eq!(strip("aaa", "a"), "");
    assert_eq!(strip("aaa", ""), "aaa");
    assert_eq!(strip("", "a"), "");
    for (text, prefix) in [("[ti:[ti:x", "[ti:"), ("abab", "ab"), ("abab", "b")].iter() {
        assert_eq!(strip(text, prefix), text.trim_start_matches(prefix));
    }
}

#[test]
fn lines_agree_with_the_standard_library() {
    let samples = [
        "",
        "a",
        "a\n",
        "a\r\n",
        "a\r",
        "\n",
        "\n\n",
        "\r\n\r\n",
        "a\nb",
        "a\r\nb\nc\r",
        "a\r\r\nb",
        "\ra\n\rb\n",
        "one\n\ntwo\n",
    ];
    for sample in samples.iter() {
        let found: Vec<String> = lines(sample).iter().map(string_of).collect();
        let expected: Vec<String> = sample.lines().map(|l| l.to_string()).collect();
        assert_eq!(found, expected, "{:?}", sample);
    }
    assert_eq!(lines("a\r\nb\nc\r"), vec![chars_of("a"), chars_of("b"), chars_of("c\r")]);
}

#[test]
fn whole_numbers_agree_with_the_standard_library() {
    let samples = [
        "",
        "+",
        "-",
        "0",
        "00",
        "007",
        "+5",
        "-5",
        "-0",
        "+-5",
        "++5",
        "5+",
        " 5",
        "5 ",
        "1.5",
        "12a",
        "\u{661}\u{662}",
        "18446744073709551615",
        "18446744073709551616",
        "+18446744073709551615",
        "99999999999999999999999",
        "9223372036854775807",
        "9223372036854775808",
        "-9223372036854775808",
        "-9223372036854775809",
        "-18446744073709551616",
        "184467440737095516150",
    ];
    for sample in samples.iter() {
        assert_eq!(parse_u64(&chars_of(sample)), sample.parse::<u64>().ok(), "{:?}", sample);
        assert_eq!(parse_i64(&chars_of(sample)), sample.parse::<i64>().ok(), "{:?}", sample);
    }
    assert_eq!(parse_u64(&chars_of("60000")), Some(60000));
    assert_eq!(parse_i64(&chars_of("-120")), Some(-120));
}

#[test]
fn a_title_line_gives_the_title() {
    assert_eq!(line("[ti:Song of Songs]"), LrcItem::Title("Song of Songs".to_string()));
    assert_eq!(line("[ti: Song ]]"), LrcItem::Title("Song".to_string()));
    assert_eq!(line("[ti:]"), LrcItem::Title(String::new()));
    assert_eq!(line("[ti:[ti:x]"), LrcItem::Title("x".to_string()));
    assert_eq!(line("  [ti:Song]  "), LrcItem::Title("[ti:Song]".to_string()));
    assert_eq!(line("[ti:Song] "), LrcItem::Title("Song]".to_string()));
}

#[test]
fn an_offset_line_gives_the_offset_if_it_is_a_number() {
    assert_eq!(line("[offset:250]"), LrcItem::Offset(Some(250)));
    assert_eq!(line("[offset: -30 ]"), LrcItem::Offset(Some(-30)));
    assert_eq!(line("[offset:+7]"), LrcItem::Offset(Some(7)));
    assert_eq!(line("[offset:soon]"), LrcItem::Offset(None));
    assert_eq!(line("[offset:]"), LrcItem::Offset(None));
    assert_eq!(line("[offset:1.5]"), LrcItem::Offset(None));
}

#[test]
fn a_timed_line_gives_minutes_seconds_and_words() {
    assert_eq!(line("[01:02.50]Hello world "), timed(1, "02.50", "Hello world"));
    assert_eq!(line("  [00:00]  "), timed(0, "00", ""));
    assert_eq!(line("[[12:3:4] a"), timed(12, "3:4", "a"));
    assert_eq!(line("[+3: 1e1 ]x"), timed(3, " 1e1 ", "x"));
    assert_eq!(line("[10:]x"), timed(10, "", "x"));
    assert_eq!(line("7:30]words"), timed(7, "30", "words"));
}

#[test]
fn other_lines_say_nothing() {
    assert_eq!(line(""), LrcItem::Other);
    assert_eq!(line("just words"), LrcItem::Other);
    assert_eq!(line("[00:01][00:02]twice"), LrcItem::Other);
    assert_eq!(line("[00:01]a]b"), LrcItem::Other);
    assert_eq!(line("[0001]x"), LrcItem::Other);
    assert_eq!(line("[xx:01]x"), LrcItem::Other);
    assert_eq!(line("[:01]x"), LrcItem::Other);
    assert_eq!(line("[-1:01]x"), LrcItem::Other);
    assert_eq!(line("[ar:Somebody]"), LrcItem::Other);
    assert_eq!(line("[99999999999999999999:01]x"), LrcItem::Other);
}

#[test]
fn a_file_is_read_line_by_line() {
    let content = "[ti:Tune]\r\n[offset:10]\r\n[00:02.00]second\r\nnoise\r\n[00:01.00]first";
    assert_eq!(
        scan_lrc(content),
        vec![
            LrcItem::Title("Tune".to_string()),
            LrcItem::Offset(Some(10)),
            timed(0, "02.00", "second"),
            LrcItem::Other,
            timed(0, "01.00", "first"),
        ]
    );
    assert_eq!(scan_lrc(""), Vec::new());
}

#[test]
fn lines_are_gathered_in_the_order_of_their_times() {
    let items = vec![
        LrcItem::Title("Old".to_string()),
        timed(1, "05", "c"),
        LrcItem::Offset(Some(5)),
        timed(0, "30", "a"),
        LrcItem::Offset(None),
        LrcItem::Other,
        timed(1, "05", "d"),
        LrcItem::Title("New".to_string()),
        timed(0, "x", "dropped"),
        timed(1, "0", "b"),
        timed(2, "0", "beyond"),
    ];
    let millis = vec![
        None,
        Some(5000),
        None,
        Some(30000),
        None,
        Some(1),
        Some(5000),
        None,
        None,
        Some(0),
    ];
    let lrc = parse_lrc(&items, &millis);
    assert_eq!(
        lrc,
        Lrc {
            title: Some("New".to_string()),
            offset: Some(5),
            content: vec![sung(30000, "a"), sung(60000, "b"), sung(65000, "c"), sung(65000, "d")],
        }
    );
}

#[test]
fn a_file_without_tags_has_neither_title_nor_offset() {
    let lrc = parse_lrc(&vec![timed(0, "1", "a"), LrcItem::Other], &vec![Some(1000), None]);
    assert_eq!(lrc, Lrc { title: None, offset: None, content: vec![sung(1000, "a")] });
    let empty = parse_lrc(&Vec::new(), &Vec::new());
    assert_eq!(empty, Lrc { title: None, offset: None, content: Vec::new() });
}

#[test]
fn a_time_beyond_the_range_wraps_around() {
    let items = vec![timed(u64::MAX, "0", "late"), timed(307445734561825, "52", "edge")];
    let lrc = parse_lrc(&items, &vec![Some(0), Some(51616)]);
    assert_eq!(
        lrc.content,
        vec![sung(0, "edge"), sung(18446744073709491616, "late")]
    );
}
