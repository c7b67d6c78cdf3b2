use spdlog_core::eol::{Eol, LineEnding, PatternContext};
use spdlog_core::level::Level;
use spdlog_core::record::Record;

#[test]
fn eol_appends_line_terminator() {
    let record = Record::new(Level::Info, "anything\r\n").with_logger_name("n");
    let mut buf = String::from("line");
    let mut ctx = PatternContext::new();
    Eol::new().format(&record, &mut buf, &mut ctx).unwrap();
    assert_eq!(buf, "line\n");
    assert_eq!(ctx, PatternContext::new());
    Eol::new().format(&Record::new(Level::Error, ""), &mut buf, &mut ctx).unwrap();
    assert_eq!(buf, "line\n\n");
}

#[test]
fn eol_windows_terminator() {
    let eol = Eol::with_line_ending(LineEnding::CrLf);
    let mut buf = String::from("a");
    let mut ctx = PatternContext::new();
    eol.format(&Record::new(Level::Warn, "x"), &mut buf, &mut ctx).unwrap();
    assert_eq!(buf, "a\r\n");
    assert_eq!(LineEnding::Lf.as_str(), "\n");
    assert_eq!(LineEnding::CrLf.as_str(), "\r\n");
    assert_eq!(Eol::new(), Eol::with_line_ending(LineEnding::Lf));
}

#[test]
fn eol_default_is_line_feed() {
    assert_eq!(Eol::default(), Eol::new());
    assert_eq!(LineEnding::default(), LineEnding::Lf);
}
