//! The keywords of the language and what each of them opens.

use vstd::prelude::*;
use vstd::string::StringSliceAdditionalSpecFns;
use vstd::utf8::encode_utf8_decode_utf8;

verus! {

/// What a keyword opens.
#[derive(Clone, Copy, Debug, PartialEq, Eq, Structural)]
pub enum ClauseKind {
    /// `describe` or `context`.
    Group,
    /// `it` or `test`.
    Example,
    /// `bench`.
    Benchmark,
    /// `before`.
    Before,
    /// `after`.
    After,
}

impl View for ClauseKind {
    type V = ClauseKind;

    open spec fn view(&self) -> ClauseKind {
        *self
    }
}

/// The kind of clause that the identifier `text` opens, if it is a keyword.
/// The match is on the whole text, letter for letter.
pub open spec fn clause_kind(text: Seq<char>) -> Option<ClauseKind> {
    if text == "describe"@ || text == "context"@ {
        Some(ClauseKind::Group)
    } else if text == "it"@ || text == "test"@ {
        Some(ClauseKind::Example)
    } else if text == "bench"@ {
        Some(ClauseKind::Benchmark)
    } else if text == "before"@ {
        Some(ClauseKind::Before)
    } else if text == "after"@ {
        Some(ClauseKind::After)
    } else {
        None
    }
}

/// The number of tokens that a clause of this kind takes.
pub open spec fn clause_len(kind: ClauseKind) -> nat {
    match kind {
        ClauseKind::Group => 3,
        ClauseKind::Example => 3,
        ClauseKind::Benchmark => 6,
        ClauseKind::Before => 2,
        ClauseKind::After => 2,
    }
}

/// Whether two texts hold the same characters.
pub fn text_eq(a: &str, b: &str) -> (same: bool)
    ensures
        same == (a@ == b@),
{
    let x = a.as_bytes();
    let y = b.as_bytes();
    proof {
        // Two texts with the same bytes decode to the same characters.
        encode_utf8_decode_utf8(a@);
        encode_utf8_decode_utf8(b@);
    }
    if x.len() != y.len() {
        return false;
    }
    let mut i: usize = 0;
    while i < x.len()
        invariant
            i <= x.len(),
            x.len() == y.len(),
            x@ == a.spec_bytes(),
            y@ == b.spec_bytes(),
            forall|j: int| 0 <= j < i ==> x@[j] == y@[j],
        decreases x.len() - i,
    {
        if x[i] != y[i] {
            return false;
        }
        i += 1;
    }
    assert(x@ =~= y@);
    true
}

impl ClauseKind {
    /// The number of tokens that a clause of this kind takes.
    pub fn len(self) -> (n: usize)
        ensures
            n == clause_len(self),
    {
        match self {
            ClauseKind::Group => 3,
            ClauseKind::Example => 3,
            ClauseKind::Benchmark => 6,
            ClauseKind::Before => 2,
            ClauseKind::After => 2,
        }
    }

    /// The kind of clause that the identifier `text` opens, if it is a
    /// keyword.
    pub fn from_keyword(text: &str) -> (kind: Option<ClauseKind>)
        ensures
            kind == clause_kind(text@),
    {
        if text_eq(text, "describe") || text_eq(text, "context") {
            Some(ClauseKind::Group)
        } else if text_eq(text, "it") || text_eq(text, "test") {
            Some(ClauseKind::Example)
        } else if text_eq(text, "bench") {
            Some(ClauseKind::Benchmark)
        } else if text_eq(text, "before") {
            Some(ClauseKind::Before)
        } else if text_eq(text, "after") {
            Some(ClauseKind::After)
        } else {
            None
        }
    }
}

} // verus!
