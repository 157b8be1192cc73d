use ccwc::counts::is_whitespace_char;
use ccwc::data::Data;
use ccwc::render::{format_output, to_decimal};

fn from_file(path: &str, contents: &str) -> Data {
    Data { path: path.to_owned(), contents: contents.to_owned() }
}

#[test]
fn empty_text_all_counts_zero() {
    let d = Data::new_from_data(String::new());
    assert_eq!(d.get_bytes(), 0);
    assert_eq!(d.get_chars(), 0);
    assert_eq!(d.get_lines(), 0);
    assert_eq!(d.get_words(), 0);
}

#[test]
fn line_count_trailing_newline_adds_no_line() {
    let d = Data::new_from_data("a\nb\nc".to_owned());
    assert_eq!(d.get_lines(), 3);
    let d = Data::new_from_data("a\nb\nc\n".to_owned());
    assert_eq!(d.get_lines(), 3);
}

#[test]
fn line_count_edges() {
    assert_eq!(Data::new_from_data("\n".to_owned()).get_lines(), 1);
    assert_eq!(Data::new_from_data("a".to_owned()).get_lines(), 1);
    assert_eq!(Data::new_from_data("a\r\nb".to_owned()).get_lines(), 2);
    assert_eq!(Data::new_from_data("\n\n".to_owned()).get_lines(), 2);
}

#[test]
fn word_count_edges() {
    assert_eq!(Data::new_from_data("   ".to_owned()).get_words(), 0);
    assert_eq!(Data::new_from_data("  a  ".to_owned()).get_words(), 1);
    assert_eq!(Data::new_from_data("a\tb\nc".to_owned()).get_words(), 3);
}

#[test]
fn word_count_ignores_extra_whitespace() {
    let base = Data::new_from_data("a b c".to_owned());
    let padded = Data::new_from_data("a \t b\u{a0}\u{2003} c".to_owned());
    assert_eq!(base.get_words(), 3);
    assert_eq!(padded.get_words(), base.get_words());
}

#[test]
fn bytes_versus_chars_non_ascii() {
    let d = Data::new_from_data("h\u{e9}llo".to_owned());
    assert_eq!(d.get_bytes(), 6);
    assert_eq!(d.get_chars(), 5);
}

#[test]
fn counts_agree_with_std() {
    let samples = [
        "",
        "hello world\nfoo\n",
        "  spaced\t\tout  \n\n",
        "h\u{e9}llo \u{3042}\u{3044}\n\u{1f600}",
        "\r\n\r\n",
        "one",
    ];
    for s in samples {
        let d = Data::new_from_data(s.to_owned());
        assert_eq!(d.get_bytes(), s.len());
        assert_eq!(d.get_chars(), s.chars().count());
        assert_eq!(d.get_lines(), s.lines().count());
        assert_eq!(d.get_words(), s.split_whitespace().count());
    }
}

#[test]
fn whitespace_set_matches_std() {
    for u in 0..=0x10FFFFu32 {
        if let Some(c) = char::from_u32(u) {
            assert_eq!(is_whitespace_char(c), c.is_whitespace());
        }
    }
}

#[test]
fn decimal_rendering() {
    assert_eq!(to_decimal(0), "0");
    assert_eq!(to_decimal(7), "7");
    assert_eq!(to_decimal(10), "10");
    assert_eq!(to_decimal(987654321), "987654321");
}

#[test]
fn default_trio_on_sample_file() {
    let d = from_file("sample.txt", "hello world\nfoo\n");
    let out = format_output(&d, false, false, false, false);
    assert_eq!(out, "2 3 16 sample.txt");
}

#[test]
fn lines_and_words_flags_fixed_order() {
    let d = from_file("sample.txt", "hello world\nfoo\n");
    let out = format_output(&d, false, false, true, true);
    assert_eq!(out, "2 3 sample.txt");
    let parts: Vec<&str> = out.split(' ').collect();
    assert_eq!(parts.len(), 3);
}

#[test]
fn all_flags_fixed_order() {
    let d = from_file("sample.txt", "hello world\nfoo\n");
    let out = format_output(&d, true, true, true, true);
    assert_eq!(out, "16 16 2 3 sample.txt");
}

#[test]
fn single_flag_outputs() {
    let d = from_file("f", "h\u{e9}llo\n");
    assert_eq!(format_output(&d, true, false, false, false), "7 f");
    assert_eq!(format_output(&d, false, true, false, false), "6 f");
    assert_eq!(format_output(&d, false, false, true, false), "1 f");
    assert_eq!(format_output(&d, false, false, false, true), "1 f");
}

#[test]
fn empty_piped_input_default_output() {
    let d = Data::new_from_data(String::new());
    let out = format_output(&d, false, false, false, false);
    assert_eq!(out, "0 0 0 ");
}

#[test]
fn piped_input_has_empty_label_and_trailing_space() {
    let d = Data::new_from_data("hi".to_owned());
    let out = format_output(&d, false, false, false, false);
    assert_eq!(out, "1 1 2 ");
}
