use logwidget::writer::{has_newline, strip_newline};
use logwidget::{new_logger, new_logger_with, LogWriter, MyLogger, Severity};
use std::io::Write;

fn texts(console: &MyLogger) -> Vec<String> {
    let mut out = Vec::new();
    for i in 0..console.len() {
        out.push(console.message(i).unwrap().text().to_string());
    }
    out
}

fn plain_logger() -> (MyLogger, LogWriter) {
    new_logger_with(Vec::new(), false)
}

#[test]
fn line_splitting_joins_chunks_into_one_message() {
    let (mut console, mut writer) = new_logger();
    assert_eq!(writer.write(b"a").unwrap(), 1);
    assert_eq!(console.show_log(), 0);
    assert_eq!(writer.write(b"b\n").unwrap(), 2);
    assert_eq!(console.show_log(), 1);
    assert_eq!(texts(&console), vec!["ab".to_string()]);
    assert_eq!(writer.pending_text(), "");
}

#[test]
fn clones_gather_their_lines_apart() {
    let (mut console, mut first) = new_logger();
    let mut copy = first.clone();
    first.write(b"x").unwrap();
    copy.write(b"y\n").unwrap();
    assert_eq!(console.show_log(), 1);
    assert_eq!(texts(&console), vec!["y".to_string()]);
    assert_eq!(first.pending_text(), "x");
    assert_eq!(copy.pending_text(), "");
    first.write(b"z\n").unwrap();
    assert_eq!(console.show_log(), 2);
    assert_eq!(texts(&console), vec!["y".to_string(), "xz".to_string()]);
}

#[test]
fn clone_starts_with_nothing_pending() {
    let (_console, mut first) = new_logger();
    first.write(b"partial").unwrap();
    let copy = first.clone();
    assert_eq!(copy.pending_text(), "");
    assert_eq!(first.pending_text(), "partial");
}

#[test]
fn writing_after_the_console_is_gone_succeeds() {
    let (console, writer) = new_logger();
    let mut survivor = writer.clone();
    drop(console);
    drop(writer);
    assert_eq!(survivor.write(b"lost\n").unwrap(), 5);
    assert_eq!(survivor.pending_text(), "");
    assert_eq!(survivor.write(b"more").unwrap(), 4);
    assert!(survivor.flush().is_ok());
    assert_eq!(survivor.pending_text(), "");
}

#[test]
fn write_reports_the_whole_input() {
    let (_console, mut writer) = new_logger();
    assert_eq!(writer.write(b"").unwrap(), 0);
    assert_eq!(writer.write(b"hello").unwrap(), 5);
    assert_eq!(writer.write(b"a\nb\nc").unwrap(), 5);
    assert_eq!(writer.write("h\u{e9}llo\n".as_bytes()).unwrap(), 7);
}

#[test]
fn flush_hands_over_an_empty_line() {
    let (mut console, mut writer) = plain_logger();
    writer.flush().unwrap();
    assert_eq!(console.show_log(), 1);
    assert_eq!(texts(&console), vec![String::new()]);
}

#[test]
fn flush_without_newline_hands_over_the_partial_line() {
    let (mut console, mut writer) = plain_logger();
    writer.write(b"no newline").unwrap();
    assert_eq!(console.show_log(), 0);
    writer.flush().unwrap();
    assert_eq!(console.show_log(), 1);
    assert_eq!(texts(&console), vec!["no newline".to_string()]);
    assert_eq!(writer.pending_text(), "");
}

#[test]
fn only_one_trailing_newline_is_taken_off() {
    let (mut console, mut writer) = plain_logger();
    writer.write(b"a\n\n").unwrap();
    assert_eq!(console.show_log(), 1);
    assert_eq!(texts(&console), vec!["a\n".to_string()]);
}

#[test]
fn several_newlines_in_one_write_give_one_message() {
    let (mut console, mut writer) = plain_logger();
    writer.write(b"a\nb\n").unwrap();
    assert_eq!(console.show_log(), 1);
    assert_eq!(texts(&console), vec!["a\nb".to_string()]);
}

#[test]
fn newline_in_the_middle_flushes_the_whole_chunk() {
    let (mut console, mut writer) = plain_logger();
    writer.write(b"head\ntail").unwrap();
    assert_eq!(console.show_log(), 1);
    assert_eq!(texts(&console), vec!["head\ntail".to_string()]);
    assert_eq!(writer.pending_text(), "");
}

#[test]
fn malformed_bytes_become_replacement_characters() {
    let (mut console, mut writer) = plain_logger();
    assert_eq!(writer.write(&[0x66, 0xff, 0x6f, 0x0a]).unwrap(), 4);
    assert_eq!(console.show_log(), 1);
    assert_eq!(texts(&console), vec!["f\u{fffd}o".to_string()]);
}

#[test]
fn well_formed_utf8_is_kept_as_it_is() {
    let (mut console, mut writer) = plain_logger();
    writer.write("gr\u{fc}\u{df}e \u{1f60f}\n".as_bytes()).unwrap();
    assert_eq!(console.show_log(), 1);
    assert_eq!(texts(&console), vec!["gr\u{fc}\u{df}e \u{1f60f}".to_string()]);
}

#[test]
fn push_text_never_hands_over() {
    let (mut console, mut writer) = plain_logger();
    writer.push_text("one\n");
    writer.push_text("two");
    assert_eq!(writer.pending_text(), "one\ntwo");
    assert_eq!(console.show_log(), 0);
    writer.flush().unwrap();
    assert_eq!(console.show_log(), 1);
    assert_eq!(texts(&console), vec!["one\ntwo".to_string()]);
}

#[test]
fn lines_of_one_writer_arrive_in_order() {
    let (mut console, mut writer) = plain_logger();
    for i in 0..10 {
        writer.write(format!("line {}\n", i).as_bytes()).unwrap();
    }
    assert_eq!(console.show_log(), 10);
    let got = texts(&console);
    for i in 0..10 {
        assert_eq!(got[i], format!("line {}", i));
    }
}

#[test]
fn formatted_records_go_through_the_sink() {
    let (mut console, mut writer) = new_logger();
    writer.write_all(b"12:00:00 [WARN] low mem\n").unwrap();
    assert_eq!(console.show_log(), 1);
    let message = console.message(0).unwrap();
    assert_eq!(message.text(), "low mem");
    assert_eq!(message.severity(), Severity::Warn);
}

#[test]
fn has_newline_finds_the_byte_anywhere() {
    assert!(!has_newline(b""));
    assert!(!has_newline(b"abc"));
    assert!(has_newline(b"\n"));
    assert!(has_newline(b"\nabc"));
    assert!(has_newline(b"ab\nc"));
    assert!(has_newline(b"abc\n"));
    assert!(!has_newline(b"abc\r"));
}

#[test]
fn strip_newline_takes_off_at_most_one() {
    assert_eq!(strip_newline(""), "");
    assert_eq!(strip_newline("\n"), "");
    assert_eq!(strip_newline("a"), "a");
    assert_eq!(strip_newline("a\n"), "a");
    assert_eq!(strip_newline("a\n\n"), "a\n");
    assert_eq!(strip_newline("\na"), "\na");
    assert_eq!(strip_newline("\u{e9}\n"), "\u{e9}");
    assert_eq!(strip_newline("a\r\n"), "a\r");
}
