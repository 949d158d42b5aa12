use wcr::counter::{count_words, FileInfo, MetricTuple};
use wcr::format::{FmtFileInfo, FmtValue};
use wcr::selection::Cli;
use wcr::session::Run;
use wcr::total::{AddError, TotalFilesInfo};

const A_TEST_LINE: &str = "a test line\r\n";

fn a_cli() -> Cli {
    Cli::new(vec!["".to_string(), "".to_string()], true, true, true, true)
}

fn a_file_info() -> FileInfo {
    let mut file_info = FileInfo::new();
    assert!(file_info.count_line(A_TEST_LINE.as_bytes()));
    file_info.end_of_input();
    file_info
}

fn counted(text: &[u8]) -> FileInfo {
    let mut file_info = FileInfo::new();
    for line in text.split_inclusive(|b| *b == b'\n') {
        assert!(file_info.count_line(line));
    }
    file_info.end_of_input();
    file_info
}

#[test]
fn file_info_words() {
    let file_info = a_file_info();

    assert_eq!(file_info.num_words().unwrap(), 3);
}

#[test]
fn file_info_chars() {
    let file_info = a_file_info();

    assert_eq!(file_info.num_chars().unwrap(), 13);
}

#[test]
fn file_info_bytes() {
    let file_info = a_file_info();

    assert_eq!(file_info.num_bytes().unwrap(), 13);
}

#[test]
fn file_info_lines() {
    let file_info = a_file_info();

    assert_eq!(file_info.num_lines().unwrap(), 1);
}

#[test]
fn fmt_file_info() {
    let cli = a_cli();
    let a_filename = "a_file_name";
    let file_info = a_file_info();
    let fmt_file_info = FmtFileInfo::new(&file_info, a_filename, &cli);

    assert_eq!(
        fmt_file_info.as_string().unwrap(),
        format!("       1       3      13      13 {}", a_filename)
    );
}

#[test]
fn fmt_value() {
    let fmt_value = FmtValue::new(5, true);

    assert_eq!(fmt_value.as_string(), "       5");
}

#[test]
fn total_files_info() {
    let cli = a_cli();
    let file_info = a_file_info();
    let mut total_files_info = TotalFilesInfo::new(&cli);

    total_files_info.add_info(&file_info).unwrap();

    assert_eq!(
        total_files_info.as_string(),
        "       1       3      13      13 total"
    );
}

#[test]
fn fmt_value_hidden_is_empty() {
    assert_eq!(FmtValue::new(5, false).as_string(), "");
    assert_eq!(FmtValue::new(123456789, false).as_string(), "");
}

#[test]
fn fmt_value_wide_and_zero() {
    assert_eq!(FmtValue::new(0, true).as_string(), "       0");
    assert_eq!(FmtValue::new(12345678, true).as_string(), "12345678");
    assert_eq!(FmtValue::new(123456789, true).as_string(), "123456789");
}

#[test]
fn counts_are_none_until_end_of_input() {
    let mut file_info = FileInfo::new();
    assert!(file_info.count_line(b"one two\n"));
    assert_eq!(file_info.num_lines(), None);
    assert_eq!(file_info.metrics(), None);
    assert!(!file_info.is_counted());
    file_info.end_of_input();
    assert!(file_info.is_counted());
    assert_eq!(
        file_info.metrics(),
        Some(MetricTuple { lines: 1, words: 2, bytes: 8, chars: 8 })
    );
    assert!(!file_info.count_line(b"more\n"));
    assert_eq!(file_info.num_lines(), Some(1));
}

#[test]
fn empty_source_counts_zero() {
    let file_info = counted(b"");
    assert_eq!(
        file_info.metrics(),
        Some(MetricTuple { lines: 0, words: 0, bytes: 0, chars: 0 })
    );
}

#[test]
fn last_line_without_terminator_counts() {
    let file_info = counted(b"one\ntwo  three");
    assert_eq!(
        file_info.metrics(),
        Some(MetricTuple { lines: 2, words: 3, bytes: 14, chars: 14 })
    );
}

#[test]
fn multibyte_chars_fewer_than_bytes() {
    let file_info = counted("héllo wörld\n".as_bytes());
    assert_eq!(file_info.num_chars(), Some(12));
    assert_eq!(file_info.num_bytes(), Some(14));
    assert_eq!(file_info.num_words(), Some(2));
}

#[test]
fn ascii_chars_equal_bytes() {
    let file_info = counted(b"plain ascii text\nsecond line\n");
    assert_eq!(file_info.num_chars(), file_info.num_bytes());
}

#[test]
fn invalid_utf8_is_counted_lossily() {
    let file_info = counted(b"ab\xffcd\n");
    assert_eq!(file_info.num_bytes(), Some(6));
    assert_eq!(file_info.num_chars(), Some(6));
    assert_eq!(file_info.num_words(), Some(1));
    assert_eq!(file_info.num_lines(), Some(1));
}

#[test]
fn unicode_white_space_separates_words() {
    let file_info = counted("a\u{3000}b\u{a0}c\td  e\u{2028}\n".as_bytes());
    assert_eq!(file_info.num_words(), Some(5));
    let chars: Vec<char> = "  x y\u{85}z ".chars().collect();
    assert_eq!(count_words(&chars), 3);
    assert_eq!(count_words(&Vec::new()), 0);
}

#[test]
fn default_selection_and_stdin() {
    let cli = Cli::new(Vec::new(), false, false, false, false);
    assert_eq!(cli.files(), &vec!["-".to_string()]);
    assert!(cli.lines() && cli.words() && cli.bytes() && !cli.chars());
    let only_chars = Cli::new(vec!["f".to_string()], false, false, false, true);
    assert!(!only_chars.lines() && !only_chars.words() && !only_chars.bytes());
    assert!(only_chars.chars());
}

#[test]
fn stdin_label_has_no_suffix() {
    let cli = Cli::new(Vec::new(), false, false, false, false);
    let file_info = a_file_info();
    let stdin = FmtFileInfo::new(&file_info, "-", &cli);
    assert_eq!(stdin.filename(), "");
    assert_eq!(stdin.as_string().unwrap(), "       1       3      13");
    let named = FmtFileInfo::new(&file_info, "--", &cli);
    assert_eq!(named.filename(), " --");
    assert_eq!(named.as_string().unwrap(), "       1       3      13 --");
}

#[test]
fn report_is_none_before_end_of_input() {
    let cli = a_cli();
    let file_info = FileInfo::new();
    assert_eq!(FmtFileInfo::new(&file_info, "x", &cli).as_string(), None);
    let mut total = TotalFilesInfo::new(&cli);
    assert_eq!(total.add_info(&file_info), Err(AddError::NotCounted));
}

#[test]
fn total_sums_elementwise() {
    let cli = Cli::new(
        vec!["a".to_string(), "b".to_string()],
        false,
        false,
        false,
        false,
    );
    let mut total = TotalFilesInfo::new(&cli);
    assert!(total.should_print());
    total.add_info(&counted(b"one two\nthree\n")).unwrap();
    total.add_info(&counted(b"four\n")).unwrap();
    assert_eq!(total.as_string(), "       3       4      19 total");
}

#[test]
fn total_overflow_is_refused() {
    let cli = a_cli();
    let mut total = TotalFilesInfo::new(&cli);
    assert!(total.add_tuple(MetricTuple { lines: usize::MAX, words: 0, bytes: 0, chars: 0 }));
    assert!(!total.add_tuple(MetricTuple { lines: 1, words: 0, bytes: 0, chars: 0 }));
    let file_info = a_file_info();
    assert_eq!(total.add_info(&file_info), Err(AddError::Overflow));
}

#[test]
fn single_source_never_prints_total() {
    let cli = Cli::new(vec!["only".to_string()], true, true, true, false);
    assert!(!TotalFilesInfo::new(&cli).should_print());
    let mut run = Run::new(cli);
    assert_eq!(run.next_source(), Some("only".to_string()));
    let line = run.counted(&counted(b"x y z\n")).unwrap();
    assert_eq!(line, "       1       3       6 only");
    assert_eq!(run.next_source(), None);
    assert_eq!(run.total_line(), None);
}

#[test]
fn failed_open_adds_nothing_to_total() {
    let cli = Cli::new(
        vec!["a".to_string(), "missing".to_string(), "b".to_string()],
        true,
        true,
        true,
        false,
    );
    let mut run = Run::new(cli);
    assert_eq!(run.next_source(), Some("a".to_string()));
    run.counted(&counted(b"one two\n")).unwrap();
    assert_eq!(run.next_source(), Some("missing".to_string()));
    assert_eq!(run.open_failed("No such file or directory"), "missing: No such file or directory");
    assert_eq!(run.next_source(), Some("b".to_string()));
    run.counted(&counted(b"three\nfour\n")).unwrap();
    assert_eq!(run.next_source(), None);
    assert_eq!(run.total_line(), Some("       3       4      19 total".to_string()));
}

#[test]
fn total_printed_even_when_sources_fail() {
    let cli = Cli::new(vec!["x".to_string(), "y".to_string()], true, false, false, false);
    let mut run = Run::new(cli);
    run.open_failed("denied");
    run.open_failed("denied");
    assert_eq!(run.total_line(), Some("       0 total".to_string()));
}

#[test]
fn read_error_on_second_source_aborts_run() {
    let cli = Cli::new(
        vec!["first".to_string(), "second".to_string(), "third".to_string()],
        true,
        true,
        true,
        true,
    );
    let mut run = Run::new(cli);
    let mut printed = Vec::new();
    assert_eq!(run.next_source(), Some("first".to_string()));
    printed.push(run.counted(&a_file_info()).unwrap());
    assert_eq!(run.next_source(), Some("second".to_string()));
    let mut partial = FileInfo::new();
    assert!(partial.count_line(b"partial line\n"));
    run.read_failed();
    assert!(run.is_aborted());
    assert_eq!(run.next_source(), None);
    assert_eq!(run.total_line(), None);
    assert_eq!(printed, vec!["       1       3      13      13 first".to_string()]);
}
