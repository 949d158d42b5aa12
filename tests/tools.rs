use wcr::cat::{self, render_line, Line, NumberedLine, NumberedNonblankLine};
use wcr::echo::Echor;
use wcr::head::{self, BytesOf, FileHeader, LinesOf};
use wcr::uniq::{self, ReadBytes};

#[test]
fn cat_numbering() {
    let plain = cat::Cli::new(Vec::new(), false, false);
    assert_eq!(plain.files(), &vec!["-".to_string()]);
    assert_eq!(render_line(&plain, "text", 0, 0), ("text".to_string(), 0));

    let all = cat::Cli::new(vec!["f".to_string()], true, false);
    assert!(all.number_lines() && !all.number_nonblank_lines());
    assert_eq!(render_line(&all, "text", 0, 0), ("     1\ttext".to_string(), 0));
    assert_eq!(render_line(&all, "", 9, 0), ("    10\t".to_string(), 0));

    let nonblank = cat::Cli::new(vec!["f".to_string()], false, true);
    assert_eq!(render_line(&nonblank, "", 3, 2), (String::new(), 2));
    assert_eq!(render_line(&nonblank, "x", 4, 2), ("     3\tx".to_string(), 3));
}

#[test]
fn cat_lines() {
    assert_eq!(Line::new("a b").as_string(), "a b");
    let numbered = NumberedLine::new("hello", 41);
    assert_eq!(numbered.line(), "hello");
    assert_eq!(numbered.as_string(), "    42\thello");
    let blank = NumberedNonblankLine::new(NumberedLine::new("", 0));
    assert_eq!(blank.counted(), 0);
    assert_eq!(blank.as_string(), "");
    let filled = NumberedNonblankLine::new(NumberedLine::new("z", 1234567));
    assert_eq!(filled.counted(), 1);
    assert_eq!(filled.as_string(), "1234568\tz");
}

#[test]
fn head_headers() {
    assert_eq!(FileHeader::new(1, 0, "a").as_string(), None);
    assert_eq!(FileHeader::new(2, 0, "a").as_string(), Some("==> a <==".to_string()));
    assert_eq!(FileHeader::new(2, 1, "b").as_string(), Some("\n==> b <==".to_string()));
    let cli = head::Cli::new(Vec::new(), 10, Some(3));
    assert_eq!(cli.files(), &vec!["-".to_string()]);
    assert_eq!(cli.lines(), 10);
    assert_eq!(cli.bytes(), Some(3));
}

#[test]
fn uniq_config() {
    let cli = uniq::Cli::new("in".to_string(), Some("out".to_string()), true);
    assert_eq!(cli.in_file(), "in");
    assert_eq!(cli.out_file(), Some("out"));
    assert!(cli.count());
    assert_eq!(uniq::Cli::new("-".to_string(), None, false).out_file(), None);
    assert!(ReadBytes::new(0).is_zero());
    assert!(!ReadBytes::new(7).is_zero());
}

#[test]
fn echo_text() {
    let echo = Echor::new(vec!["Hello".to_string(), "there".to_string()], false);
    assert_eq!(echo.text(), "Hello there");
    assert_eq!(echo.newline(), "\n");
    let spaced = Echor::new(vec!["Hello  there".to_string()], true);
    assert_eq!(spaced.text(), "Hello  there");
    assert_eq!(spaced.newline(), "");
    assert_eq!(Echor::new(Vec::new(), true).text(), "");
}

#[test]
fn head_limits() {
    let mut lines_of = LinesOf::new(2);
    assert!(lines_of.wants_line());
    lines_of.took_line();
    assert!(lines_of.wants_line());
    lines_of.took_line();
    assert!(!lines_of.wants_line());
    lines_of.took_line();
    assert!(!lines_of.wants_line());
    assert!(!LinesOf::new(0).wants_line());
    assert_eq!(BytesOf::new(5).num_bytes(), 5);
}
