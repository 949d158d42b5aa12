//! The run-wide choice of sources and of the counts that are shown.
use vstd::prelude::*;

verus! {

/// Which of the four counts a report shows.
#[derive(Clone, Copy, Debug, PartialEq, Eq, Structural)]
pub struct DisplaySelection {
    pub lines: bool,
    pub words: bool,
    pub bytes: bool,
    pub chars: bool,
}

/// The selection in effect for the flags given: the flags themselves, or
/// lines, words and bytes where no flag is set.
pub open spec fn effective_selection(lines: bool, words: bool, bytes: bool, chars: bool) -> DisplaySelection {
    if !lines && !words && !bytes && !chars {
        DisplaySelection { lines: true, words: true, bytes: true, chars: false }
    } else {
        DisplaySelection { lines, words, bytes, chars }
    }
}

/// The label that stands for standard input.
pub open spec fn stdin_label() -> Seq<char> {
    seq!['-']
}

/// The sources of a run: those named, or standard input where none is.
pub open spec fn effective_sources(files: Seq<Seq<char>>) -> Seq<Seq<char>> {
    if files.len() == 0 {
        seq![stdin_label()]
    } else {
        files
    }
}

/// The resolved configuration of one counting run.
pub struct Cli {
    files: Vec<String>,
    lines: bool,
    words: bool,
    bytes: bool,
    chars: bool,
}

impl Cli {
    /// The labels of the sources, in order.
    pub closed spec fn sources(&self) -> Seq<Seq<char>> {
        self.files.deep_view()
    }

    /// The counts shown.
    pub closed spec fn shown(&self) -> DisplaySelection {
        DisplaySelection {
            lines: self.lines,
            words: self.words,
            bytes: self.bytes,
            chars: self.chars,
        }
    }

    /// A configuration from the source labels and the four flags, with the
    /// defaults applied: standard input where no source is named, and lines,
    /// words and bytes where no flag is set.
    pub fn new(files: Vec<String>, lines: bool, words: bool, bytes: bool, chars: bool) -> (r: Cli)
        ensures
            r.sources() == effective_sources(files.deep_view()),
            r.shown() == effective_selection(lines, words, bytes, chars),
    {
        let mut files = files;
        if files.len() == 0 {
            let stdin = String::from_str("-");
            proof {
                reveal_strlit("-");
            }
            assert(stdin@ =~= stdin_label());
            files.push(stdin);
            assert(files.deep_view().len() == 1);
            assert(files.deep_view()[0] == files@[0].deep_view());
            assert(files.deep_view() =~= seq![stdin_label()]);
        }
        if !lines && !words && !bytes && !chars {
            Cli { files, lines: true, words: true, bytes: true, chars: false }
        } else {
            Cli { files, lines, words, bytes, chars }
        }
    }

    pub fn files(&self) -> (r: &Vec<String>)
        ensures
            r.deep_view() == self.sources(),
    {
        &self.files
    }

    pub fn lines(&self) -> (r: bool)
        ensures
            r == self.shown().lines,
    {
        self.lines
    }

    pub fn words(&self) -> (r: bool)
        ensures
            r == self.shown().words,
    {
        self.words
    }

    pub fn bytes(&self) -> (r: bool)
        ensures
            r == self.shown().bytes,
    {
        self.bytes
    }

    pub fn chars(&self) -> (r: bool)
        ensures
            r == self.shown().chars,
    {
        self.chars
    }

    /// The counts shown, as one value.
    pub fn selection(&self) -> (r: DisplaySelection)
        ensures
            r == self.shown(),
    {
        DisplaySelection { lines: self.lines, words: self.words, bytes: self.bytes, chars: self.chars }
    }
}

} // verus!
