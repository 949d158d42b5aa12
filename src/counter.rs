//! The metrics counter: one forward pass over the lines of a source.
use vstd::prelude::*;
use vstd::utf8::*;

verus! {

/// The Unicode `White_Space` property.
pub open spec fn is_white_space(c: char) -> bool {
    ('\u{9}' <= c && c <= '\u{d}') || c == ' ' || c == '\u{85}' || c == '\u{a0}'
        || c == '\u{1680}' || ('\u{2000}' <= c && c <= '\u{200a}') || c == '\u{2028}'
        || c == '\u{2029}' || c == '\u{202f}' || c == '\u{205f}' || c == '\u{3000}'
}

/// Whether a word starts at position `i` of `s`.
pub open spec fn starts_word(s: Seq<char>, i: int) -> bool {
    !is_white_space(s[i]) && (i == 0 || is_white_space(s[i - 1]))
}

/// The number of maximal runs of non-white-space characters in `s`.
pub open spec fn word_count(s: Seq<char>) -> nat
    decreases s.len(),
{
    if s.len() == 0 {
        0
    } else {
        word_count(s.drop_last()) + if starts_word(s, s.len() - 1) {
            1nat
        } else {
            0nat
        }
    }
}

/// The characters that a lossy UTF-8 decoding gives for `b`.
pub uninterp spec fn lossy_text(b: Seq<u8>) -> Seq<char>;

/// The characters of a line: its UTF-8 decoding where it is valid, else the
/// lossy decoding.
pub open spec fn line_text(b: Seq<u8>) -> Seq<char> {
    if valid_utf8(b) {
        decode_utf8(b)
    } else {
        lossy_text(b)
    }
}

/// Relies on `char::is_whitespace`, which tests the Unicode `White_Space` property.
#[verifier::external_body]
fn is_space(c: char) -> (r: bool)
    ensures
        r == is_white_space(c),
{
    c.is_whitespace()
}

/// Relies on `String::from_utf8_lossy`: valid UTF-8 decodes unchanged, and each
/// invalid sequence becomes U+FFFD.
#[verifier::external_body]
fn decode_lossy(b: &[u8]) -> (r: Vec<char>)
    ensures
        valid_utf8(b@) ==> r@ == decode_utf8(b@),
        !valid_utf8(b@) ==> r@ == lossy_text(b@),
{
    String::from_utf8_lossy(b).chars().collect()
}

/// Counts the words of `s`.
pub fn count_words(s: &Vec<char>) -> (r: usize)
    ensures
        r == word_count(s@),
{
    let mut n: usize = 0;
    let mut i: usize = 0;
    let mut prev_space = true;
    while i < s.len()
        invariant
            i <= s@.len(),
            n == word_count(s@.subrange(0, i as int)),
            n <= i,
            i > 0 ==> prev_space == is_white_space(s@[i - 1]),
            i == 0 ==> prev_space,
        decreases s@.len() - i,
    {
        let space = is_space(s[i]);
        assert(s@.subrange(0, i + 1).drop_last() =~= s@.subrange(0, i as int));
        if !space && prev_space {
            n = n + 1;
        }
        prev_space = space;
        i = i + 1;
    }
    assert(s@.subrange(0, i as int) =~= s@);
    n
}

/// The four counts of one source, or of several sources together.
#[derive(Clone, Copy, Debug, PartialEq, Eq, Structural)]
pub struct MetricTuple {
    pub lines: usize,
    pub words: usize,
    pub bytes: usize,
    pub chars: usize,
}

/// The number of characters of one line.
pub open spec fn line_chars(line: Seq<u8>) -> nat {
    line_text(line).len()
}

/// The number of words of one line.
pub open spec fn line_words(line: Seq<u8>) -> nat {
    word_count(line_text(line))
}

/// The bytes of all `lines`, terminators included.
pub open spec fn total_bytes(lines: Seq<Seq<u8>>) -> nat
    decreases lines.len(),
{
    if lines.len() == 0 {
        0
    } else {
        total_bytes(lines.drop_last()) + lines.last().len()
    }
}

/// The words of all `lines`.
pub open spec fn total_words(lines: Seq<Seq<u8>>) -> nat
    decreases lines.len(),
{
    if lines.len() == 0 {
        0
    } else {
        total_words(lines.drop_last()) + line_words(lines.last())
    }
}

/// The characters of all `lines`.
pub open spec fn total_chars(lines: Seq<Seq<u8>>) -> nat
    decreases lines.len(),
{
    if lines.len() == 0 {
        0
    } else {
        total_chars(lines.drop_last()) + line_chars(lines.last())
    }
}

/// Whether `t` holds the four counts of `lines`.
pub open spec fn counts_of(t: MetricTuple, lines: Seq<Seq<u8>>) -> bool {
    &&& t.lines == lines.len()
    &&& t.words == total_words(lines)
    &&& t.bytes == total_bytes(lines)
    &&& t.chars == total_chars(lines)
}

/// Whether the counts of `lines` all fit in a `usize`.
pub open spec fn counts_fit(lines: Seq<Seq<u8>>) -> bool {
    &&& lines.len() <= usize::MAX
    &&& total_words(lines) <= usize::MAX
    &&& total_bytes(lines) <= usize::MAX
    &&& total_chars(lines) <= usize::MAX
}

/// The counter of one source. It is fed the source's lines one by one, each
/// with its terminator, and then told that the source has ended; from then on
/// its counts are final and no more lines are taken.
pub struct FileInfo {
    counts: MetricTuple,
    complete: bool,
    seen: Ghost<Seq<Seq<u8>>>,
}

impl FileInfo {
    /// The lines counted so far.
    pub closed spec fn lines_seen(&self) -> Seq<Seq<u8>> {
        self.seen@
    }

    /// Whether the source has ended.
    pub closed spec fn is_complete(&self) -> bool {
        self.complete
    }

    /// The counts so far.
    pub closed spec fn counts(&self) -> MetricTuple {
        self.counts
    }

    pub closed spec fn wf(&self) -> bool {
        counts_of(self.counts, self.seen@)
    }

    /// A counter that has seen no line yet.
    pub fn new() -> (r: FileInfo)
        ensures
            r.wf(),
            r.lines_seen() == Seq::<Seq<u8>>::empty(),
            !r.is_complete(),
    {
        FileInfo {
            counts: MetricTuple { lines: 0, words: 0, bytes: 0, chars: 0 },
            complete: false,
            seen: Ghost(Seq::empty()),
        }
    }

    /// Counts one line. The line is refused, and nothing changes, once the
    /// source has ended or where a count would overflow.
    pub fn count_line(&mut self, line: &[u8]) -> (r: bool)
        requires
            old(self).wf(),
        ensures
            final(self).wf(),
            r == (!old(self).is_complete() && counts_fit(old(self).lines_seen().push(line@))),
            r ==> final(self).lines_seen() == old(self).lines_seen().push(line@),
            !r ==> final(self).lines_seen() == old(self).lines_seen(),
            final(self).is_complete() == old(self).is_complete(),
    {
        let ghost next = self.seen@.push(line@);
        assert(next.drop_last() =~= self.seen@);
        if self.complete {
            return false;
        }
        let text = decode_lossy(line);
        let words = count_words(&text);
        let c = self.counts;
        if c.lines == usize::MAX || c.words > usize::MAX - words || c.bytes > usize::MAX
            - line.len() || c.chars > usize::MAX - text.len() {
            return false;
        }
        self.counts = MetricTuple {
            lines: c.lines + 1,
            words: c.words + words,
            bytes: c.bytes + line.len(),
            chars: c.chars + text.len(),
        };
        self.seen = Ghost(next);
        true
    }

    /// Marks the end of the source: the counts are final from here on.
    pub fn end_of_input(&mut self)
        requires
            old(self).wf(),
        ensures
            final(self).wf(),
            final(self).is_complete(),
            final(self).lines_seen() == old(self).lines_seen(),
    {
        self.complete = true;
    }

    /// Whether the source has ended, so that no more lines are needed.
    pub fn is_counted(&self) -> (r: bool)
        ensures
            r == self.is_complete(),
    {
        self.complete
    }

    /// The number of words, once the source has ended.
    pub fn num_words(&self) -> (r: Option<usize>)
        requires
            self.wf(),
        ensures
            self.is_complete() ==> r == Some(total_words(self.lines_seen()) as usize),
            !self.is_complete() ==> r is None,
    {
        if self.complete {
            Some(self.counts.words)
        } else {
            None
        }
    }

    /// The number of chars, once the source has ended.
    pub fn num_chars(&self) -> (r: Option<usize>)
        requires
            self.wf(),
        ensures
            self.is_complete() ==> r == Some(total_chars(self.lines_seen()) as usize),
            !self.is_complete() ==> r is None,
    {
        if self.complete {
            Some(self.counts.chars)
        } else {
            None
        }
    }

    /// The number of bytes, once the source has ended.
    pub fn num_bytes(&self) -> (r: Option<usize>)
        requires
            self.wf(),
        ensures
            self.is_complete() ==> r == Some(total_bytes(self.lines_seen()) as usize),
            !self.is_complete() ==> r is None,
    {
        if self.complete {
            Some(self.counts.bytes)
        } else {
            None
        }
    }

    /// The number of lines, once the source has ended.
    pub fn num_lines(&self) -> (r: Option<usize>)
        requires
            self.wf(),
        ensures
            self.is_complete() ==> r == Some(self.lines_seen().len() as usize),
            !self.is_complete() ==> r is None,
    {
        if self.complete {
            Some(self.counts.lines)
        } else {
            None
        }
    }

    /// The four counts, once the source has ended.
    pub fn metrics(&self) -> (r: Option<MetricTuple>)
        requires
            self.wf(),
        ensures
            self.is_complete() ==> r == Some(self.counts()) && counts_of(self.counts(), self.lines_seen()),
            !self.is_complete() ==> r is None,
    {
        if self.complete {
            Some(self.counts)
        } else {
            None
        }
    }
}

/// Whether every character of `cs` has a one-byte UTF-8 encoding.
pub open spec fn single_byte_chars(cs: Seq<char>) -> bool {
    forall|i| 0 <= i < cs.len() ==> has_width_1_encoding(#[trigger] cs[i] as u32)
}

/// Encoding a character sequence in UTF-8 takes at least one byte per
/// character, and exactly one each only where every character has a one-byte
/// encoding.
pub proof fn lemma_encode_utf8_len(cs: Seq<char>)
    ensures
        cs.len() <= encode_utf8(cs).len(),
        cs.len() == encode_utf8(cs).len() <==> single_byte_chars(cs),
    decreases cs.len(),
{
    if cs.len() > 0 {
        let rest = cs.drop_first();
        lemma_encode_utf8_len(rest);
        char_is_scalar(cs[0]);
        let v = cs[0] as u32;
        assert(encode_utf8(cs) == encode_scalar(v) + encode_utf8(rest));
        assert(has_width_1_encoding(v) ==> encode_scalar(v).len() == 1);
        assert(!has_width_1_encoding(v) ==> encode_scalar(v).len() >= 2);
        if single_byte_chars(cs) {
            assert forall|i| 0 <= i < rest.len() implies has_width_1_encoding(
                #[trigger] rest[i] as u32,
            ) by {
                assert(rest[i] == cs[i + 1]);
            }
        }
        if has_width_1_encoding(v) && single_byte_chars(rest) {
            assert forall|i| 0 <= i < cs.len() implies has_width_1_encoding(
                #[trigger] cs[i] as u32,
            ) by {
                if i > 0 {
                    assert(cs[i] == rest[i - 1]);
                }
            }
        }
    }
}

/// For a line that is valid UTF-8, the characters never outnumber the bytes,
/// and they are as many exactly when every character is encoded in one byte.
pub proof fn lemma_line_chars_le_bytes(line: Seq<u8>)
    requires
        valid_utf8(line),
    ensures
        line_chars(line) <= line.len(),
        line_chars(line) == line.len() <==> single_byte_chars(line_text(line)),
{
    decode_utf8_encode_utf8(line);
    lemma_encode_utf8_len(decode_utf8(line));
}

/// For a source of valid UTF-8 lines, the characters never outnumber the
/// bytes, and they are as many exactly when every character of every line is
/// encoded in one byte.
pub proof fn lemma_chars_le_bytes(lines: Seq<Seq<u8>>)
    requires
        forall|i| 0 <= i < lines.len() ==> valid_utf8(#[trigger] lines[i]),
    ensures
        total_chars(lines) <= total_bytes(lines),
        total_chars(lines) == total_bytes(lines) <==> forall|i|
            0 <= i < lines.len() ==> single_byte_chars(line_text(#[trigger] lines[i])),
    decreases lines.len(),
{
    if lines.len() > 0 {
        let init = lines.drop_last();
        assert forall|i| 0 <= i < init.len() implies valid_utf8(#[trigger] init[i]) by {
            assert(init[i] == lines[i]);
        }
        lemma_chars_le_bytes(init);
        lemma_line_chars_le_bytes(lines.last());
        if total_chars(lines) == total_bytes(lines) {
            assert forall|i| 0 <= i < lines.len() implies single_byte_chars(line_text(#[trigger] lines[i])) by {
                if i < init.len() {
                    assert(init[i] == lines[i]);
                }
            }
        }
        if forall|i| 0 <= i < lines.len() ==> single_byte_chars(line_text(#[trigger] lines[i])) {
            assert forall|i| 0 <= i < init.len() implies single_byte_chars(line_text(#[trigger] init[i])) by {
                assert(init[i] == lines[i]);
            }
            assert(single_byte_chars(line_text(lines[lines.len() - 1])));
        }
    }
}

} // verus!
