//! Concatenating sources, with optional line numbers.
use vstd::prelude::*;
use crate::format::{decimal, push_right_aligned, right_aligned};
use crate::selection::effective_sources;

verus! {

/// The width of a line number.
pub const NUMBER_WIDTH: usize = 6;

/// A numbered line: the number right-aligned in `NUMBER_WIDTH` characters, a
/// tab, then the text.
pub open spec fn numbered(number: nat, text: Seq<char>) -> Seq<char> {
    right_aligned(decimal(number), NUMBER_WIDTH as nat) + seq!['\t'] + text
}

/// The resolved configuration of one concatenation.
pub struct Cli {
    files: Vec<String>,
    number_lines: bool,
    number_nonblank_lines: bool,
}

impl Cli {
    pub closed spec fn sources(&self) -> Seq<Seq<char>> {
        self.files.deep_view()
    }

    pub closed spec fn numbers_all(&self) -> bool {
        self.number_lines
    }

    pub closed spec fn numbers_nonblank(&self) -> bool {
        self.number_nonblank_lines
    }

    /// A configuration; standard input where no source is named.
    pub fn new(files: Vec<String>, number_lines: bool, number_nonblank_lines: bool) -> (r: Cli)
        ensures
            r.sources() == effective_sources(files.deep_view()),
            r.numbers_all() == number_lines,
            r.numbers_nonblank() == number_nonblank_lines,
    {
        let mut files = files;
        if files.len() == 0 {
            let stdin = String::from_str("-");
            proof {
                reveal_strlit("-");
            }
            assert(stdin@ =~= seq!['-']);
            files.push(stdin);
            assert(files.deep_view()[0] == files@[0].deep_view());
            assert(files.deep_view() =~= effective_sources(Seq::empty()));
        }
        Cli { files, number_lines, number_nonblank_lines }
    }

    pub fn files(&self) -> (r: &Vec<String>)
        ensures
            r.deep_view() == self.sources(),
    {
        &self.files
    }

    pub fn number_lines(&self) -> (r: bool)
        ensures
            r == self.numbers_all(),
    {
        self.number_lines
    }

    pub fn number_nonblank_lines(&self) -> (r: bool)
        ensures
            r == self.numbers_nonblank(),
    {
        self.number_nonblank_lines
    }
}

/// A line printed as it is.
pub struct Line {
    a_line: String,
}

impl Line {
    pub closed spec fn text(&self) -> Seq<char> {
        self.a_line@
    }

    pub fn new(a_line: &str) -> (r: Line)
        ensures
            r.text() == a_line@,
    {
        Line { a_line: a_line.to_string() }
    }

    /// What is printed for the line.
    pub fn as_string(&self) -> (r: String)
        ensures
            r@ == self.text(),
    {
        self.a_line.clone()
    }
}

/// A line with its zero-based index; it is printed with the index plus one.
pub struct NumberedLine {
    a_line_number: usize,
    a_line: String,
}

impl NumberedLine {
    pub closed spec fn text(&self) -> Seq<char> {
        self.a_line@
    }

    pub closed spec fn index(&self) -> nat {
        self.a_line_number as nat
    }

    pub fn new(a_line: &str, a_line_number: usize) -> (r: NumberedLine)
        ensures
            r.text() == a_line@,
            r.index() == a_line_number,
    {
        NumberedLine { a_line_number, a_line: a_line.to_string() }
    }

    pub fn line(&self) -> (r: &str)
        ensures
            r@ == self.text(),
    {
        self.a_line.as_str()
    }

    /// What is printed for the line: its number, a tab, its text. The index
    /// must leave room for the number.
    pub fn as_string(&self) -> (r: String)
        requires
            self.index() < usize::MAX,
        ensures
            r@ == numbered(self.index() + 1, self.text()),
    {
        let mut out = String::new();
        push_right_aligned(&mut out, self.a_line_number + 1, NUMBER_WIDTH);
        proof {
            reveal_strlit("\t");
        }
        out.append("\t");
        out.append(self.a_line.as_str());
        assert(out@ =~= numbered(self.index() + 1, self.text()));
        out
    }
}

/// A numbered line whose number only counts where the line is not blank.
pub struct NumberedNonblankLine {
    a_numbered_line: NumberedLine,
}

impl NumberedNonblankLine {
    pub closed spec fn inner(&self) -> NumberedLine {
        self.a_numbered_line
    }

    pub fn new(a_numbered_line: NumberedLine) -> (r: NumberedNonblankLine)
        ensures
            r.inner() == a_numbered_line,
    {
        NumberedNonblankLine { a_numbered_line }
    }

    /// How much the line adds to the count of non-blank lines.
    pub fn counted(&self) -> (r: usize)
        ensures
            r == if self.inner().text().len() == 0 { 0usize } else { 1usize },
    {
        if self.a_numbered_line.line().is_empty() {
            0
        } else {
            1
        }
    }

    /// What is printed: nothing for a blank line, else the numbered line.
    pub fn as_string(&self) -> (r: String)
        requires
            self.inner().index() < usize::MAX,
        ensures
            self.inner().text().len() == 0 ==> r@ == Seq::<char>::empty(),
            self.inner().text().len() > 0 ==> r@ == numbered(
                self.inner().index() + 1,
                self.inner().text(),
            ),
    {
        if self.a_numbered_line.line().is_empty() {
            String::new()
        } else {
            self.a_numbered_line.as_string()
        }
    }
}

/// What is printed for one line of input, and the count of non-blank lines
/// after it. `line_num` is the line's zero-based index in its source and
/// `prev_num` the count of non-blank lines before it.
pub fn render_line(cli: &Cli, raw_line: &str, line_num: usize, prev_num: usize) -> (r: (String, usize))
    requires
        line_num < usize::MAX,
        prev_num < usize::MAX,
    ensures
        cli.numbers_all() ==> r.0@ == numbered((line_num + 1) as nat, raw_line@) && r.1 == prev_num,
        !cli.numbers_all() && cli.numbers_nonblank() ==> {
            &&& raw_line@.len() == 0 ==> r.0@ == Seq::<char>::empty() && r.1 == prev_num
            &&& raw_line@.len() > 0 ==> r.0@ == numbered((prev_num + 1) as nat, raw_line@) && r.1 == prev_num + 1
        },
        !cli.numbers_all() && !cli.numbers_nonblank() ==> r.0@ == raw_line@ && r.1 == prev_num,
{
    if cli.number_lines() {
        (NumberedLine::new(raw_line, line_num).as_string(), prev_num)
    } else if cli.number_nonblank_lines() {
        let a_line = NumberedNonblankLine::new(NumberedLine::new(raw_line, prev_num));
        let text = a_line.as_string();
        let next = prev_num + a_line.counted();
        (text, next)
    } else {
        (Line::new(raw_line).as_string(), prev_num)
    }
}

} // verus!
