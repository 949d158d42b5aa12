//! The first lines or bytes of each source.
use vstd::prelude::*;
use crate::selection::effective_sources;

verus! {

/// The header before a source's output where there are several sources: a
/// blank line between sources, then `==> label <==`.
pub open spec fn header_line(file_num: nat, label: Seq<char>) -> Seq<char> {
    (if file_num > 0 {
        seq!['\n']
    } else {
        Seq::empty()
    }) + seq!['=', '=', '>', ' '] + label + seq![' ', '<', '=', '=']
}

/// The resolved configuration of one run.
pub struct Cli {
    files: Vec<String>,
    lines: u64,
    bytes: Option<u64>,
}

impl Cli {
    pub closed spec fn sources(&self) -> Seq<Seq<char>> {
        self.files.deep_view()
    }

    pub closed spec fn line_limit(&self) -> u64 {
        self.lines
    }

    pub closed spec fn byte_limit(&self) -> Option<u64> {
        self.bytes
    }

    /// A configuration; standard input where no source is named. Where a
    /// byte limit is given it applies instead of the line limit.
    pub fn new(files: Vec<String>, lines: u64, bytes: Option<u64>) -> (r: Cli)
        ensures
            r.sources() == effective_sources(files.deep_view()),
            r.line_limit() == lines,
            r.byte_limit() == bytes,
    {
        let mut files = files;
        if files.len() == 0 {
            let stdin = String::from_str("-");
            proof {
                reveal_strlit("-");
            }
            assert(stdin@ =~= seq!['-']);
            files.push(stdin);
            assert(files.deep_view()[0] == files@[0].deep_view());
            assert(files.deep_view() =~= effective_sources(Seq::empty()));
        }
        Cli { files, lines, bytes }
    }

    pub fn files(&self) -> (r: &Vec<String>)
        ensures
            r.deep_view() == self.sources(),
    {
        &self.files
    }

    pub fn lines(&self) -> (r: u64)
        ensures
            r == self.line_limit(),
    {
        self.lines
    }

    pub fn bytes(&self) -> (r: Option<u64>)
        ensures
            r == self.byte_limit(),
    {
        self.bytes
    }
}

/// The header of one source among `num_files`.
pub struct FileHeader {
    num_files: usize,
    file_num: usize,
    filename: String,
}

impl FileHeader {
    pub closed spec fn count(&self) -> nat {
        self.num_files as nat
    }

    pub closed spec fn position(&self) -> nat {
        self.file_num as nat
    }

    pub closed spec fn label(&self) -> Seq<char> {
        self.filename@
    }

    pub fn new(num_files: usize, file_num: usize, filename: &str) -> (r: FileHeader)
        ensures
            r.count() == num_files,
            r.position() == file_num,
            r.label() == filename@,
    {
        FileHeader { num_files, file_num, filename: filename.to_string() }
    }

    /// The header, printed only where there is more than one source.
    pub fn as_string(&self) -> (r: Option<String>)
        ensures
            r is Some <==> self.count() > 1,
            r matches Some(s) ==> s@ == header_line(self.position(), self.label()),
    {
        if self.num_files <= 1 {
            return None;
        }
        let mut out = String::new();
        if self.file_num > 0 {
            proof {
                reveal_strlit("\n");
            }
            out.append("\n");
        }
        proof {
            reveal_strlit("==> ");
            reveal_strlit(" <==");
        }
        out.append("==> ");
        out.append(self.filename.as_str());
        out.append(" <==");
        assert(out@ =~= header_line(self.position(), self.label()));
        Some(out)
    }
}

/// The line limit of one source: how many lines are still to be printed.
pub struct LinesOf {
    lines: u64,
    printed: u64,
}

impl LinesOf {
    pub closed spec fn limit(&self) -> nat {
        self.lines as nat
    }

    pub closed spec fn done(&self) -> nat {
        self.printed as nat
    }

    /// A limit of `lines` lines, none printed yet.
    pub fn new(lines: u64) -> (r: LinesOf)
        ensures
            r.limit() == lines,
            r.done() == 0,
    {
        LinesOf { lines, printed: 0 }
    }

    /// Whether another line is to be printed.
    pub fn wants_line(&self) -> (r: bool)
        ensures
            r == (self.done() < self.limit()),
    {
        self.printed < self.lines
    }

    /// Records one printed line; past the limit nothing changes.
    pub fn took_line(&mut self)
        ensures
            final(self).limit() == old(self).limit(),
            final(self).done() == if old(self).done() < old(self).limit() {
                old(self).done() + 1
            } else {
                old(self).done()
            },
    {
        if self.printed < self.lines {
            self.printed = self.printed + 1;
        }
    }
}

/// The byte limit of one source: how many bytes one read may take.
pub struct BytesOf {
    num_bytes: usize,
}

impl BytesOf {
    pub closed spec fn limit(&self) -> nat {
        self.num_bytes as nat
    }

    pub fn new(num_bytes: usize) -> (r: BytesOf)
        ensures
            r.limit() == num_bytes,
    {
        BytesOf { num_bytes }
    }

    /// The size of the buffer to read into.
    pub fn num_bytes(&self) -> (r: usize)
        ensures
            r == self.limit(),
    {
        self.num_bytes
    }
}

} // verus!
