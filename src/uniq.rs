//! Configuration of the adjacent-duplicate filter.
use vstd::prelude::*;

verus! {

/// The resolved configuration of one run.
pub struct Cli {
    in_file: String,
    out_file: Option<String>,
    count: bool,
}

impl Cli {
    pub closed spec fn input(&self) -> Seq<char> {
        self.in_file@
    }

    pub closed spec fn output(&self) -> Option<Seq<char>> {
        match self.out_file {
            Some(s) => Some(s@),
            None => None,
        }
    }

    pub closed spec fn counts(&self) -> bool {
        self.count
    }

    pub fn new(in_file: String, out_file: Option<String>, count: bool) -> (r: Cli)
        ensures
            r.input() == in_file@,
            r.output() == (match out_file {
                Some(s) => Some(s@),
                None => None::<Seq<char>>,
            }),
            r.counts() == count,
    {
        Cli { in_file, out_file, count }
    }

    pub fn in_file(&self) -> (r: &str)
        ensures
            r@ == self.input(),
    {
        self.in_file.as_str()
    }

    pub fn out_file(&self) -> (r: Option<&str>)
        ensures
            match r {
                Some(s) => self.output() == Some(s@),
                None => self.output() is None,
            },
    {
        match &self.out_file {
            Some(s) => Some(s.as_str()),
            None => None,
        }
    }

    pub fn count(&self) -> (r: bool)
        ensures
            r == self.counts(),
    {
        self.count
    }
}

/// The number of bytes that one read returned.
pub struct ReadBytes {
    raw_bytes: usize,
}

impl ReadBytes {
    pub closed spec fn amount(&self) -> nat {
        self.raw_bytes as nat
    }

    pub fn new(raw_bytes: usize) -> (r: ReadBytes)
        ensures
            r.amount() == raw_bytes,
    {
        ReadBytes { raw_bytes }
    }

    /// Whether the read returned nothing, which marks the end of the input.
    pub fn is_zero(&self) -> (r: bool)
        ensures
            r == (self.amount() == 0),
    {
        self.raw_bytes == 0
    }
}

} // verus!
