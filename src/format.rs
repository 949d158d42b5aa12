//! Rendering counts as fixed-width columns, and a source's report line.
use vstd::prelude::*;
use crate::counter::{FileInfo, MetricTuple, counts_of};
use crate::selection::{Cli, DisplaySelection, stdin_label};

verus! {

/// The width of one column.
pub const FIELD_WIDTH: usize = 8;

/// The decimal digit for `d`.
pub open spec fn digit(d: nat) -> char {
    seq!['0', '1', '2', '3', '4', '5', '6', '7', '8', '9'][d as int]
}

/// The decimal digits of `n`, most significant first, with no leading zero.
pub open spec fn decimal(n: nat) -> Seq<char>
    decreases n,
{
    if n < 10 {
        seq![digit(n)]
    } else {
        decimal(n / 10).push(digit(n % 10))
    }
}

/// `s` with spaces before it up to `width` characters; `s` itself where it is
/// that long already.
pub open spec fn right_aligned(s: Seq<char>, width: nat) -> Seq<char> {
    if s.len() < width {
        Seq::new((width - s.len()) as nat, |i: int| ' ') + s
    } else {
        s
    }
}

/// One column: `v` right-aligned in `FIELD_WIDTH` characters when shown,
/// nothing at all otherwise.
pub open spec fn field(v: nat, show: bool) -> Seq<char> {
    if show {
        right_aligned(decimal(v), FIELD_WIDTH as nat)
    } else {
        Seq::empty()
    }
}

/// The four columns of `t`, in the order lines, words, bytes, characters.
pub open spec fn fields(t: MetricTuple, sel: DisplaySelection) -> Seq<char> {
    field(t.lines as nat, sel.lines) + field(t.words as nat, sel.words) + field(
        t.bytes as nat,
        sel.bytes,
    ) + field(t.chars as nat, sel.chars)
}

/// What follows the columns: nothing for standard input, else a space and
/// the label.
pub open spec fn label_suffix(label: Seq<char>) -> Seq<char> {
    if label == stdin_label() {
        Seq::empty()
    } else {
        seq![' '] + label
    }
}

/// The report line of one source.
pub open spec fn report_line(t: MetricTuple, sel: DisplaySelection, label: Seq<char>) -> Seq<char> {
    fields(t, sel) + label_suffix(label)
}

/// Relies on `usize`'s `Display`, which writes the decimal digits of the
/// value with no sign and no separators.
#[verifier::external_body]
fn decimal_string(v: usize) -> (r: String)
    ensures
        r@ == decimal(v as nat),
{
    v.to_string()
}

/// Whether `label` names standard input.
pub fn is_stdin_label(label: &str) -> (r: bool)
    ensures
        r == (label@ == stdin_label()),
{
    proof {
        reveal_strlit("-");
    }
    let n = label.unicode_len();
    if n != 1 {
        assert(label@.len() != stdin_label().len());
        return false;
    }
    let c = label.get_char(0);
    if c == '-' {
        assert(label@ =~= stdin_label());
        true
    } else {
        assert(label@[0] != stdin_label()[0]);
        false
    }
}

/// Appends `n` spaces to `out`.
fn push_spaces(out: &mut String, n: usize)
    ensures
        final(out)@ == old(out)@ + Seq::new(n as nat, |i: int| ' '),
{
    let ghost start = out@;
    let mut i: usize = 0;
    while i < n
        invariant
            i <= n,
            out@ == start + Seq::new(i as nat, |j: int| ' '),
        decreases n - i,
    {
        let ghost before = out@;
        out.append(" ");
        proof {
            reveal_strlit(" ");
        }
        assert(out@ == before + " "@);
        i = i + 1;
        assert(out@ =~= start + Seq::new(i as nat, |j: int| ' '));
    }
}

/// Appends the digits of `v` to `out`, right-aligned in `width` characters.
pub(crate) fn push_right_aligned(out: &mut String, v: usize, width: usize)
    ensures
        final(out)@ == old(out)@ + right_aligned(decimal(v as nat), width as nat),
{
    let digits = decimal_string(v);
    let ghost start = out@;
    let len = digits.as_str().unicode_len();
    if len < width {
        push_spaces(out, width - len);
    }
    out.append(digits.as_str());
    assert(out@ =~= start + right_aligned(decimal(v as nat), width as nat));
}

/// Appends the column of `v` to `out`.
fn push_field(out: &mut String, v: usize, show: bool)
    ensures
        final(out)@ == old(out)@ + field(v as nat, show),
{
    if show {
        push_right_aligned(out, v, FIELD_WIDTH);
    } else {
        assert(out@ =~= old(out)@ + field(v as nat, show));
    }
}

/// Appends the four columns of `t` to `out`.
pub(crate) fn push_fields(out: &mut String, t: MetricTuple, sel: DisplaySelection)
    ensures
        final(out)@ == old(out)@ + fields(t, sel),
{
    let ghost start = out@;
    push_field(out, t.lines, sel.lines);
    push_field(out, t.words, sel.words);
    push_field(out, t.bytes, sel.bytes);
    push_field(out, t.chars, sel.chars);
    assert(out@ =~= start + fields(t, sel));
}

/// One value with the choice of whether its column is shown.
pub struct FmtValue {
    a_value: usize,
    show: bool,
}

impl FmtValue {
    /// What this value renders to.
    pub closed spec fn rendered(&self) -> Seq<char> {
        field(self.a_value as nat, self.show)
    }

    pub fn new(a_value: usize, show: bool) -> (r: FmtValue)
        ensures
            r.rendered() == field(a_value as nat, show),
    {
        FmtValue { a_value, show }
    }

    /// The column: eight characters, right-aligned, when shown; else empty.
    pub fn as_string(&self) -> (r: String)
        ensures
            r@ == self.rendered(),
    {
        let mut out = String::new();
        push_field(&mut out, self.a_value, self.show);
        assert(out@ =~= self.rendered());
        out
    }
}

/// The report of one source: its counts, its label and the selection.
pub struct FmtFileInfo {
    metrics: Option<MetricTuple>,
    a_filename: String,
    selection: DisplaySelection,
}

impl FmtFileInfo {
    /// The report line, or `None` while the source has not ended.
    pub closed spec fn line(&self) -> Option<Seq<char>> {
        match self.metrics {
            Some(t) => Some(report_line(t, self.selection, self.a_filename@)),
            None => None,
        }
    }

    /// The label as given.
    pub closed spec fn label(&self) -> Seq<char> {
        self.a_filename@
    }

    pub fn new(a_file_info: &FileInfo, a_filename: &str, a_cli: &Cli) -> (r: FmtFileInfo)
        requires
            a_file_info.wf(),
        ensures
            a_file_info.is_complete() ==> r.line() == Some(
                report_line(a_file_info.counts(), a_cli.shown(), a_filename@),
            ),
            a_file_info.is_complete() ==> counts_of(a_file_info.counts(), a_file_info.lines_seen()),
            !a_file_info.is_complete() ==> r.line() is None,
            r.label() == a_filename@,
    {
        FmtFileInfo {
            metrics: a_file_info.metrics(),
            a_filename: a_filename.to_string(),
            selection: a_cli.selection(),
        }
    }

    /// The report line: the shown columns, then the label suffix; `None`
    /// while the source has not ended.
    pub fn as_string(&self) -> (r: Option<String>)
        ensures
            match r {
                Some(s) => self.line() == Some(s@),
                None => self.line() is None,
            },
    {
        match self.metrics {
            Some(t) => {
                let mut out = String::new();
                push_fields(&mut out, t, self.selection);
                let suffix = self.filename();
                out.append(suffix.as_str());
                assert(out@ =~= report_line(t, self.selection, self.a_filename@));
                Some(out)
            },
            None => None,
        }
    }

    /// The label suffix: empty for standard input, else a space and the label.
    pub fn filename(&self) -> (r: String)
        ensures
            r@ == label_suffix(self.label()),
    {
        if is_stdin_label(self.a_filename.as_str()) {
            String::new()
        } else {
            let mut out = String::from_str(" ");
            proof {
                reveal_strlit(" ");
            }
            out.append(self.a_filename.as_str());
            assert(out@ =~= label_suffix(self.label()));
            out
        }
    }
}

} // verus!
