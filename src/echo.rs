//! Echoing words back.
use vstd::prelude::*;

verus! {

/// `parts` joined with a single space between each two.
pub open spec fn joined(parts: Seq<Seq<char>>) -> Seq<char>
    decreases parts.len(),
{
    if parts.len() == 0 {
        Seq::empty()
    } else if parts.len() == 1 {
        parts[0]
    } else {
        joined(parts.drop_last()) + seq![' '] + parts.last()
    }
}

/// The words to echo and whether the final newline is left out.
pub struct Echor {
    text: Vec<String>,
    omit_newline: bool,
}

impl Echor {
    pub closed spec fn words(&self) -> Seq<Seq<char>> {
        self.text.deep_view()
    }

    pub closed spec fn omits_newline(&self) -> bool {
        self.omit_newline
    }

    pub fn new(text: Vec<String>, omit_newline: bool) -> (r: Echor)
        ensures
            r.words() == text.deep_view(),
            r.omits_newline() == omit_newline,
    {
        Echor { text, omit_newline }
    }

    /// The words joined by single spaces.
    pub fn text(&self) -> (r: String)
        ensures
            r@ == joined(self.words()),
    {
        let mut out = String::new();
        let mut i: usize = 0;
        while i < self.text.len()
            invariant
                i <= self.text@.len(),
                out@ == joined(self.text.deep_view().subrange(0, i as int)),
            decreases self.text@.len() - i,
        {
            let ghost parts = self.text.deep_view().subrange(0, i + 1);
            assert(parts.drop_last() =~= self.text.deep_view().subrange(0, i as int));
            assert(parts.last() == self.text@[i as int]@);
            if i > 0 {
                proof {
                    reveal_strlit(" ");
                }
                out.append(" ");
            } else {
                assert(out@ =~= Seq::<char>::empty());
            }
            out.append(self.text[i].as_str());
            i = i + 1;
            assert(out@ =~= joined(self.text.deep_view().subrange(0, i as int)));
        }
        assert(self.text.deep_view().subrange(0, i as int) =~= self.text.deep_view());
        out
    }

    /// What ends the output: a newline, or nothing where it is left out.
    pub fn newline(&self) -> (r: &str)
        ensures
            self.omits_newline() ==> r@ == Seq::<char>::empty(),
            !self.omits_newline() ==> r@ == seq!['\n'],
    {
        proof {
            reveal_strlit("");
            reveal_strlit("\n");
        }
        if self.omit_newline {
            ""
        } else {
            "\n"
        }
    }
}

} // verus!
