use chat_client::render::format_response;

#[test]
fn header_line() {
    assert_eq!(format_response("### Title"), "\x1b[1;32m### Title\x1b[0m\n");
}

#[test]
fn bold_pair() {
    assert_eq!(format_response("a **b** c"), "a \x1b[1mb\x1b[0m c\n");
}

#[test]
fn unmatched_bold_marker_left_open() {
    assert_eq!(format_response("a **b"), "a \x1b[1mb\n");
}

#[test]
fn empty_input_renders_empty() {
    assert_eq!(format_response(""), "");
}

#[test]
fn plain_line_gains_newline() {
    assert_eq!(format_response("hello"), "hello\n");
}

#[test]
fn trailing_newline_adds_no_extra_line() {
    assert_eq!(format_response("hi\n"), "hi\n");
}

#[test]
fn blank_line_kept() {
    assert_eq!(format_response("a\n\nb"), "a\n\nb\n");
}

#[test]
fn crlf_ending_drops_carriage_return() {
    assert_eq!(format_response("a\r\nb"), "a\nb\n");
}

#[test]
fn multiple_bold_pairs_alternate() {
    assert_eq!(
        format_response("**a** and **b**"),
        "\x1b[1ma\x1b[0m and \x1b[1mb\x1b[0m\n"
    );
}

#[test]
fn triple_star_consumes_one_marker() {
    assert_eq!(format_response("***"), "\x1b[1m*\n");
}

#[test]
fn four_stars_make_a_pair() {
    assert_eq!(format_response("****"), "\x1b[1m\x1b[0m\n");
}

#[test]
fn header_takes_precedence_over_bold() {
    assert_eq!(
        format_response("### a **b**"),
        "\x1b[1;32m### a **b**\x1b[0m\n"
    );
}

#[test]
fn hashes_without_space_are_no_header() {
    assert_eq!(format_response("###x"), "###x\n");
}

#[test]
fn header_and_bold_on_separate_lines() {
    assert_eq!(
        format_response("### T\n**b**"),
        "\x1b[1;32m### T\x1b[0m\n\x1b[1mb\x1b[0m\n"
    );
}
