//! The anchored match engine: classifies one match attempt against the
//! currently buffered suffix of a stream as a confirmed match, a confirmed
//! non-match, or incomplete, and proves the classification laws.

use vstd::prelude::*;

verus! {

use crate::regex_trait::{CaptureLocations, Regex};

/// The classification of one anchored match attempt.
#[derive(Debug, PartialEq, Eq, Structural, Clone, Copy)]
pub enum Outcome {
    /// An offset-0 match of the given byte length is confirmed; the stream
    /// may consume that many bytes.
    Matched(usize),
    /// No offset-0 match exists, definitively.
    NoMatch,
    /// The current buffer can neither confirm nor deny an offset-0 match;
    /// more input is needed.
    Incomplete,
}

/// How one match attempt is classified, as a function of the engine's search
/// result (the leftmost match's bounds, if any), the stream's partial mode,
/// and the buffered length.
///
/// A found match counts only if anchored (start 0).  Under partial input, a
/// missing or unanchored match may still become an offset-0 match once more
/// bytes arrive, and an anchored match that reaches the end of the buffer may
/// still grow, so both are `Incomplete`.
pub open spec fn classify_spec(found: Option<(usize, usize)>, partial: bool, hay_len: nat) -> Outcome {
    match found {
        Some(m) => if m.0 != 0 {
            if partial {
                Outcome::Incomplete
            } else {
                Outcome::NoMatch
            }
        } else if partial && m.1 == hay_len {
            Outcome::Incomplete
        } else {
            Outcome::Matched(m.1)
        },
        None => if partial {
            Outcome::Incomplete
        } else {
            Outcome::NoMatch
        },
    }
}

/// The overall match bounds within an engine's search result: the bounds
/// recorded for group 0, if the search succeeded.
pub open spec fn overall_bounds(caps: Option<Seq<Option<(usize, usize)>>>) -> Option<
    (usize, usize),
> {
    match caps {
        Some(g) => if g.len() >= 1 {
            g[0]
        } else {
            None
        },
        None => None,
    }
}

/// The classification of a whole anchored match attempt, as a function of
/// the engine's search result alone.
pub open spec fn anchored_outcome(
    caps: Option<Seq<Option<(usize, usize)>>>,
    partial: bool,
    hay_len: nat,
) -> Outcome {
    classify_spec(overall_bounds(caps), partial, hay_len)
}

/// The classification an engine's anchored match attempt must receive for
/// the given haystack bytes and partial mode.
pub open spec fn outcome_of<R: Regex>(re: &R, hay: Seq<u8>, partial: bool) -> Outcome {
    anchored_outcome(re.captures_spec(hay), partial, hay.len())
}

/// Classifies one search result against a buffer of `hay_len` bytes.
pub fn classify(found: Option<(usize, usize)>, partial: bool, hay_len: usize) -> (r: Outcome)
    ensures
        r == classify_spec(found, partial, hay_len as nat),
{
    match found {
        Some((s, e)) => {
            if s != 0 {
                if partial {
                    Outcome::Incomplete
                } else {
                    Outcome::NoMatch
                }
            } else if partial && e == hay_len {
                Outcome::Incomplete
            } else {
                Outcome::Matched(e)
            }
        },
        None => {
            if partial {
                Outcome::Incomplete
            } else {
                Outcome::NoMatch
            }
        },
    }
}

/// One anchored match attempt: allocates fresh capture storage, searches the
/// buffered suffix, and classifies the result.  On `Matched(e)` the returned
/// storage holds the bounds of every group of the confirmed match.
pub fn match_anchored<R: Regex>(re: &R, hay: &R::Hay, hay_len: usize, partial: bool) -> (r: (
    Outcome,
    R::Locs,
))
    requires
        hay_len == R::hay_bytes(hay).len(),
    ensures
        r.0 == anchored_outcome(re.captures_spec(R::hay_bytes(hay)), partial, R::hay_bytes(hay).len()),
        match r.0 {
            Outcome::Matched(e) => {
                &&& re.captures_spec(R::hay_bytes(hay)) == Some(r.1.group_bounds())
                &&& r.1.group_bounds().len() >= 1
                &&& r.1.group_bounds()[0] == Some((0usize, e))
                &&& e <= R::hay_bytes(hay).len()
                &&& forall|i: int|
                    0 <= i < r.1.group_bounds().len() ==> match (
                    #[trigger] r.1.group_bounds()[i]) {
                        Some(b) => {
                            &&& b.0 <= b.1 <= e
                            &&& R::splittable(R::hay_bytes(hay), b.0 as int)
                            &&& R::splittable(R::hay_bytes(hay), b.1 as int)
                        },
                        None => true,
                    }
            },
            _ => true,
        },
{
    let mut locs = re.capture_locations();
    let found = re.captures_read(&mut locs, hay);
    let out = classify(found, partial, hay_len);
    (out, locs)
}

/// Law: on complete input whose search result is an anchored match of byte
/// length `m_end`, the attempt is classified as a confirmed match of that
/// length, so the adapter succeeds, yields the first `m_end` bytes, and the
/// cursor advances by `m_end`.
pub proof fn lemma_complete_match(
    caps: Option<Seq<Option<(usize, usize)>>>,
    hay_len: nat,
    m_end: usize,
)
    requires
        overall_bounds(caps) == Some((0usize, m_end)),
    ensures
        anchored_outcome(caps, false, hay_len) == Outcome::Matched(m_end),
{
}

/// Law: on complete input with no anchored match (the search fails, or its
/// leftmost match starts past offset 0), the attempt is classified as a
/// definitive non-match, so the adapter fails and the cursor is unchanged.
pub proof fn lemma_complete_no_match(caps: Option<Seq<Option<(usize, usize)>>>, hay_len: nat)
    requires
        match overall_bounds(caps) {
            Some(m) => m.0 != 0,
            None => true,
        },
    ensures
        anchored_outcome(caps, false, hay_len) == Outcome::NoMatch,
{
}

/// Law: against a partial buffer whose only anchored match (or absence of a
/// match) reaches exactly the buffered end, the attempt is classified as
/// incomplete, so the adapter asks for more input and the cursor is
/// unchanged.  An empty partial buffer falls under this law: a zero-length
/// match there ends at the buffered length 0.
pub proof fn lemma_partial_undecidable(caps: Option<Seq<Option<(usize, usize)>>>, hay_len: nat)
    requires
        match overall_bounds(caps) {
            Some(m) => m.0 != 0 || m.1 == hay_len,
            None => true,
        },
    ensures
        anchored_outcome(caps, true, hay_len) == Outcome::Incomplete,
{
}

/// Law: against a partial buffer whose anchored match ends strictly before
/// the buffered end, the attempt is classified exactly as it would be on
/// complete input: a confirmed match of the same length.
pub proof fn lemma_partial_early_match(
    caps: Option<Seq<Option<(usize, usize)>>>,
    hay_len: nat,
    m_end: usize,
)
    requires
        overall_bounds(caps) == Some((0usize, m_end)),
        (m_end as nat) < hay_len,
    ensures
        anchored_outcome(caps, true, hay_len) == Outcome::Matched(m_end),
        anchored_outcome(caps, true, hay_len) == anchored_outcome(caps, false, hay_len),
{
}

/// Law: the classification is a pure function of the search result, the
/// partial mode, and the buffered length, so re-invoking an adapter against
/// an unchanged buffer reproduces the same classification and bounds.
pub proof fn lemma_deterministic(
    o1: Outcome,
    o2: Outcome,
    caps: Option<Seq<Option<(usize, usize)>>>,
    partial: bool,
    hay_len: nat,
)
    requires
        o1 == anchored_outcome(caps, partial, hay_len),
        o2 == anchored_outcome(caps, partial, hay_len),
    ensures
        o1 == o2,
{
}

} // verus!
