//! Byte signatures with wildcards, and the scanner that finds them.

use vstd::prelude::*;

verus! {

/// One position of a signature: a fixed byte, or any byte.
#[derive(Clone, Copy, Debug, PartialEq, Eq, Structural)]
pub enum Matcher {
    Exact(u8),
    Any,
}

impl Matcher {
    /// Whether this position accepts the byte `b`.
    pub open spec fn accepts(self, b: u8) -> bool {
        match self {
            Matcher::Exact(x) => x == b,
            Matcher::Any => true,
        }
    }

    /// Tests one byte against this position.
    pub fn test(&self, b: u8) -> (ok: bool)
        ensures
            ok == self.accepts(b),
    {
        match self {
            Matcher::Exact(x) => *x == b,
            Matcher::Any => true,
        }
    }
}

/// Whether `pattern` matches `haystack` in full, starting at offset `at`.
pub open spec fn matches_at(haystack: Seq<u8>, pattern: Seq<Matcher>, at: int) -> bool {
    &&& 0 <= at
    &&& at + pattern.len() <= haystack.len()
    &&& forall|k: int| 0 <= k < pattern.len() ==> (#[trigger] pattern[k]).accepts(haystack[at + k])
}

/// Whether `at` is the lowest offset at which `pattern` matches `haystack`.
pub open spec fn is_first_match(haystack: Seq<u8>, pattern: Seq<Matcher>, at: int) -> bool {
    &&& matches_at(haystack, pattern, at)
    &&& forall|j: int| 0 <= j < at ==> !matches_at(haystack, pattern, j)
}

/// Whether `pattern` matches nowhere in `haystack`.
pub open spec fn matches_nowhere(haystack: Seq<u8>, pattern: Seq<Matcher>) -> bool {
    forall|j: int| !matches_at(haystack, pattern, j)
}

/// An ordered sequence of matchers.
pub struct SignaturePattern {
    pub matchers: Vec<Matcher>,
}

impl View for SignaturePattern {
    type V = Seq<Matcher>;

    open spec fn view(&self) -> Seq<Matcher> {
        self.matchers@
    }
}

impl SignaturePattern {
    /// A pattern made of the given matchers, in order.
    pub fn new(matchers: Vec<Matcher>) -> (pattern: Self)
        ensures
            pattern@ == matchers@,
    {
        SignaturePattern { matchers }
    }

    /// Number of bytes that a match covers.
    pub fn len(&self) -> (n: usize)
        ensures
            n == self@.len(),
    {
        self.matchers.len()
    }

    /// Whether the pattern matches `haystack` at offset `at`.
    pub fn matches(&self, haystack: &[u8], at: usize) -> (ok: bool)
        ensures
            ok == matches_at(haystack@, self@, at as int),
    {
        let n: usize = self.matchers.len();
        let total: usize = haystack.len();
        if at > total || n > total - at {
            return false;
        }
        let mut k: usize = 0;
        while k < n
            invariant
                n == self@.len(),
                total == haystack@.len(),
                at + n <= total,
                k <= n,
                forall|i: int| 0 <= i < k ==> (#[trigger] self@[i]).accepts(haystack@[at + i]),
            decreases n - k,
        {
            if !self.matchers[k].test(haystack[at + k]) {
                return false;
            }
            k += 1;
        }
        true
    }

    /// Searches `haystack` from left to right and returns the offset of the
    /// first full match, or `None` where the pattern matches nowhere.
    pub fn scan(&self, haystack: &[u8]) -> (found: Option<usize>)
        ensures
            match found {
                Some(at) => is_first_match(haystack@, self@, at as int),
                None => matches_nowhere(haystack@, self@),
            },
    {
        let n: usize = self.matchers.len();
        if n > haystack.len() {
            return None;
        }
        let last: usize = haystack.len() - n;
        let mut at: usize = 0;
        loop
            invariant
                n == self@.len(),
                last + n == haystack@.len(),
                at <= last,
                forall|j: int| 0 <= j < at ==> !matches_at(haystack@, self@, j),
            decreases last - at,
        {
            if self.matches(haystack, at) {
                return Some(at);
            }
            if at == last {
                return None;
            }
            at += 1;
        }
    }
}

/// The lowest matching offset is unique: two offsets that both are the first
/// match are the same offset.
pub proof fn lemma_first_match_unique(haystack: Seq<u8>, pattern: Seq<Matcher>, a: int, b: int)
    requires
        is_first_match(haystack, pattern, a),
        is_first_match(haystack, pattern, b),
    ensures
        a == b,
{
    if a < b {
        assert(!matches_at(haystack, pattern, a));
    } else if b < a {
        assert(!matches_at(haystack, pattern, b));
    }
}

/// A buffer of `before` zero bytes, then `bytes`, then `after` zero bytes.
pub open spec fn planted(before: nat, bytes: Seq<u8>, after: nat) -> Seq<u8> {
    Seq::new(before, |i: int| 0u8) + bytes + Seq::new(after, |i: int| 0u8)
}

/// Whether every position of `pattern` accepts the byte of `bytes` at its place.
pub open spec fn describes(pattern: Seq<Matcher>, bytes: Seq<u8>) -> bool {
    &&& pattern.len() == bytes.len()
    &&& forall|k: int| 0 <= k < pattern.len() ==> (#[trigger] pattern[k]).accepts(bytes[k])
}

/// Bytes that a pattern describes, planted into a zero-filled buffer at a
/// known offset, are matched by the pattern at that offset; where the
/// pattern matches at no lower offset, that offset is the first match.
pub proof fn lemma_planted_is_found(
    pattern: Seq<Matcher>,
    bytes: Seq<u8>,
    before: nat,
    after: nat,
)
    requires
        describes(pattern, bytes),
    ensures
        matches_at(planted(before, bytes, after), pattern, before as int),
        (forall|j: int| 0 <= j < before ==> !matches_at(planted(before, bytes, after), pattern, j))
            ==> is_first_match(planted(before, bytes, after), pattern, before as int),
{
    let h = planted(before, bytes, after);
    assert(h.len() == before + bytes.len() + after);
    assert forall|k: int| 0 <= k < pattern.len() implies (#[trigger] pattern[k]).accepts(
        h[before + k],
    ) by {
        assert(h[before + k] == bytes[k]);
    }
}

} // verus!
