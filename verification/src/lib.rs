//! Anchored regular-expression parsing over possibly-incomplete input.
//!
//! A compiled regular expression becomes an ordinary parsing step: try to
//! match anchored at the current position, and on success consume the matched
//! span, optionally exposing its capture groups.  The core decides, for a
//! match attempt against a possibly-truncated buffer, whether the outcome is
//! a confirmed match, a confirmed non-match, or undecidable until more bytes
//! arrive — without false rejections and without blocking.

pub mod bytes;
pub mod engine;
pub mod regex_trait;

use vstd::prelude::*;

verus! {

use vstd::string::StringSliceAdditionalSpecFns;
use vstd::utf8::{
    decode_utf8_split, encode_utf8, encode_utf8_decode_utf8, encode_utf8_valid_utf8,
    is_char_boundary, is_char_boundary_iff_not_is_continuation_byte,
    is_char_boundary_start_end_of_seq, valid_utf8, valid_utf8_split,
};
use crate::engine::{match_anchored, outcome_of, Outcome};
use crate::regex_trait::{
    compile_text, text_captures_of, text_compiles, CaptureLocations, Regex,
};

/// An error from building a parser adapter.
#[derive(Debug)]
pub enum Error {
    /// The matching engine rejected the pattern's syntax.
    Regex(regex::Error),
}

/// The failure channel of one parse step: a definitive non-match, or a
/// request for more input.
#[derive(Debug, Clone, Copy, PartialEq, Eq, Structural)]
pub enum MatchError {
    /// No anchored match exists at the current position, definitively.
    NoMatch,
    /// The buffer is incomplete and cannot yet confirm or deny an anchored
    /// match; obtain more input and re-invoke.
    Incomplete,
}

/// A pattern that can be turned into a compiled text matcher: literal text,
/// owned text, or an already-compiled matcher.
pub trait RegexPattern: Sized {
    type Output;

    type Error;

    /// True when this pattern value yields a compiled matcher.
    spec fn compiles(self) -> bool;

    /// The compiled matcher this value yields, where that is already pinned
    /// (a precompiled pattern); `None` where the engine decides.
    spec fn compiled(self) -> Option<Self::Output>;

    /// Compiles or converts this value into a matcher, failing exactly when
    /// `compiles` is false.
    fn try_into_regex(self) -> (r: Result<Self::Output, Self::Error>)
        ensures
            r is Ok <==> self.compiles(),
            match self.compiled() {
                Some(o) => r is Ok && r->Ok_0 == o,
                None => true,
            },
    ;
}

impl<'a> RegexPattern for &'a str {
    type Output = regex::Regex;

    type Error = Error;

    open spec fn compiles(self) -> bool {
        text_compiles(self@)
    }

    open spec fn compiled(self) -> Option<regex::Regex> {
        None
    }

    fn try_into_regex(self) -> (r: Result<regex::Regex, Error>) {
        match compile_text(self) {
            Ok(re) => Ok(re),
            Err(e) => Err(Error::Regex(e)),
        }
    }
}

impl RegexPattern for String {
    type Output = regex::Regex;

    type Error = Error;

    open spec fn compiles(self) -> bool {
        text_compiles(self@)
    }

    open spec fn compiled(self) -> Option<regex::Regex> {
        None
    }

    fn try_into_regex(self) -> (r: Result<regex::Regex, Error>) {
        match compile_text(self.as_str()) {
            Ok(re) => Ok(re),
            Err(e) => Err(Error::Regex(e)),
        }
    }
}

impl RegexPattern for regex::Regex {
    type Output = regex::Regex;

    type Error = Error;

    open spec fn compiles(self) -> bool {
        true
    }

    open spec fn compiled(self) -> Option<regex::Regex> {
        Some(self)
    }

    fn try_into_regex(self) -> (r: Result<regex::Regex, Error>) {
        Ok(self)
    }
}

impl RegexPattern for regex::bytes::Regex {
    type Output = regex::bytes::Regex;

    type Error = Error;

    open spec fn compiles(self) -> bool {
        true
    }

    open spec fn compiled(self) -> Option<regex::bytes::Regex> {
        Some(self)
    }

    fn try_into_regex(self) -> (r: Result<regex::bytes::Regex, Error>) {
        Ok(self)
    }
}

/// A stream of text: the buffered, unconsumed suffix, and whether more input
/// may still arrive after it.
pub struct TextInput<'i> {
    /// The buffered, unconsumed suffix.
    pub rest: &'i str,
    /// True when the buffer is incomplete: more input may still arrive.
    pub partial: bool,
}

impl<'i> TextInput<'i> {
    /// The byte-level content (UTF-8 encoding) of the buffered suffix; all
    /// offsets index into this sequence.
    pub open spec fn bytes(&self) -> Seq<u8> {
        self.rest.spec_bytes()
    }

    /// A complete input: what is buffered is all there will ever be.
    pub fn new_complete(rest: &'i str) -> (r: Self)
        ensures
            r.rest@ == rest@,
            !r.partial,
    {
        TextInput { rest, partial: false }
    }

    /// A partial buffer: more input may arrive after what is buffered.
    pub fn new_partial(rest: &'i str) -> (r: Self)
        ensures
            r.rest@ == rest@,
            r.partial,
    {
        TextInput { rest, partial: true }
    }

    /// The buffered suffix, without advancing.
    pub fn peek(&self) -> (r: &'i str)
        ensures
            r@ == self.rest@,
    {
        self.rest
    }

    /// True when more input may still arrive.
    pub fn is_partial(&self) -> (r: bool)
        ensures
            r == self.partial,
    {
        self.partial
    }

    /// The buffered length in bytes.
    pub fn eof_offset(&self) -> (r: usize)
        ensures
            r == self.bytes().len(),
    {
        crate::regex_trait::text_len(self.rest)
    }

    /// Consumes the first `n` buffered bytes, returning them and advancing
    /// the cursor past them.
    pub fn next_slice(&mut self, n: usize) -> (r: &'i str)
        requires
            n <= old(self).bytes().len(),
            is_char_boundary(old(self).bytes(), n as int),
        ensures
            r.spec_bytes() == old(self).bytes().subrange(0, n as int),
            final(self).bytes() == old(self).bytes().subrange(
                n as int,
                old(self).bytes().len() as int,
            ),
            r@ + final(self).rest@ == old(self).rest@,
            final(self).partial == old(self).partial,
    {
        let (a, b) = self.rest.split_at(n);
        self.rest = b;
        proof {
            lemma_encoded_split(old(self).rest@, a@, b@, n as int);
        }
        a
    }
}

/// When a valid UTF-8 byte sequence is cut at a character boundary, the two
/// halves decode to character sequences that concatenate to the original.
proof fn lemma_encoded_split(s: Seq<char>, a: Seq<char>, b: Seq<char>, n: int)
    requires
        0 <= n <= encode_utf8(s).len(),
        is_char_boundary(encode_utf8(s), n),
        encode_utf8(a) == encode_utf8(s).subrange(0, n),
        encode_utf8(b) == encode_utf8(s).subrange(n, encode_utf8(s).len() as int),
    ensures
        a + b == s,
{
    let h = encode_utf8(s);
    encode_utf8_valid_utf8(s);
    decode_utf8_split(h, n);
    encode_utf8_decode_utf8(s);
    encode_utf8_decode_utf8(a);
    encode_utf8_decode_utf8(b);
    assert(a + b =~= s);
}

/// A character boundary of a byte sequence, at or before a boundary cut, is
/// still a character boundary of the prefix up to that cut.
proof fn lemma_boundary_of_prefix(h: Seq<u8>, e: int, i: int)
    requires
        valid_utf8(h),
        is_char_boundary(h, e),
        is_char_boundary(h, i),
        0 <= i <= e <= h.len(),
    ensures
        is_char_boundary(h.subrange(0, e), i),
{
    valid_utf8_split(h, e);
    let p = h.subrange(0, e);
    if i == e {
        is_char_boundary_start_end_of_seq(p);
    } else if i == 0 {
        is_char_boundary_start_end_of_seq(p);
    } else {
        is_char_boundary_iff_not_is_continuation_byte(h, i);
        is_char_boundary_iff_not_is_continuation_byte(p, i);
        assert(p[i] == h[i]);
    }
}

/// A successful match's yield: the matched slice, and the capture storage
/// recording each group's bounds as byte offsets into that slice.
pub struct Captures<Slice, L: CaptureLocations> {
    /// The whole matched slice (group 0's span).
    pub slice: Slice,
    /// The bounds of every capture group of the match.
    pub locs: L,
}

/// A distinct failure for each way a capture-group access can go wrong.
#[derive(Debug, Clone, Copy, PartialEq, Eq, Structural)]
pub enum GroupError {
    /// The index is at least the group count.
    OutOfRange,
    /// The group exists but did not participate in this match.
    DidNotParticipate,
}

impl<Slice, L: CaptureLocations> Captures<Slice, L> {
    /// The bounds of group `i`, or `None` when `i` is out of range or the
    /// group did not participate.
    pub fn group(&self, i: usize) -> (r: Option<(usize, usize)>)
        ensures
            r == if (i as int) < self.locs.group_bounds().len() {
                self.locs.group_bounds()[i as int]
            } else {
                None::<(usize, usize)>
            },
    {
        self.locs.get(i)
    }

    /// The total number of groups, including group 0 for the whole match.
    pub fn group_count(&self) -> (r: usize)
        ensures
            r == self.locs.group_bounds().len(),
    {
        self.locs.len()
    }

    /// The bounds of group `i`, distinguishing an out-of-range index from a
    /// group that did not participate in this match.
    pub fn try_group(&self, i: usize) -> (r: Result<(usize, usize), GroupError>)
        ensures
            (i as int) >= self.locs.group_bounds().len() ==> r == Err::<
                (usize, usize),
                GroupError,
            >(GroupError::OutOfRange),
            (i as int) < self.locs.group_bounds().len() ==> match self.locs.group_bounds()[i as int] {
                Some(b) => r == Ok::<(usize, usize), GroupError>(b),
                None => r == Err::<(usize, usize), GroupError>(GroupError::DidNotParticipate),
            },
    {
        if i >= self.locs.len() {
            Err(GroupError::OutOfRange)
        } else {
            match self.locs.get(i) {
                Some(b) => Ok(b),
                None => Err(GroupError::DidNotParticipate),
            }
        }
    }
}

impl<'i> Captures<&'i str, regex::CaptureLocations> {
    /// Well-formedness: group 0 spans the whole owned slice, and every
    /// participating group lies within it on UTF-8 character boundaries.
    pub open spec fn wf(&self) -> bool {
        &&& self.locs.group_bounds().len() >= 1
        &&& match self.locs.group_bounds()[0] {
            Some(b0) => b0.0 == 0 && b0.1 == self.slice.spec_bytes().len(),
            None => false,
        }
        &&& forall|i: int|
            0 <= i < self.locs.group_bounds().len() ==> match (
            #[trigger] self.locs.group_bounds()[i]) {
                Some(b) => {
                    &&& b.0 <= b.1 <= self.slice.spec_bytes().len()
                    &&& is_char_boundary(self.slice.spec_bytes(), b.0 as int)
                    &&& is_char_boundary(self.slice.spec_bytes(), b.1 as int)
                },
                None => true,
            }
    }

    /// The whole matched slice (the span of group 0).
    pub fn as_str(&self) -> (r: &'i str)
        ensures
            r@ == self.slice@,
    {
        self.slice
    }

    /// The substring of group `i`; group 0 is the whole match.
    pub fn index(&self, i: usize) -> (r: &'i str)
        requires
            self.wf(),
            (i as int) < self.locs.group_bounds().len(),
            self.locs.group_bounds()[i as int] is Some,
        ensures
            match self.locs.group_bounds()[i as int] {
                Some(b) => r.spec_bytes() == self.slice.spec_bytes().subrange(
                    b.0 as int,
                    b.1 as int,
                ),
                None => false,
            },
            i == 0 ==> r@ == self.slice@,
    {
        let b = match CaptureLocations::get(&self.locs, i) {
            Some(b) => b,
            None => vstd::pervasive::unreached(),
        };
        proof {
            encode_utf8_valid_utf8(self.slice@);
            lemma_boundary_of_prefix(self.slice.spec_bytes(), b.1 as int, b.0 as int);
        }
        let (head, _) = self.slice.split_at(b.1);
        let (_, mid) = head.split_at(b.0);
        proof {
            assert(head.spec_bytes() == self.slice.spec_bytes().subrange(0, b.1 as int));
            assert(mid.spec_bytes() =~= self.slice.spec_bytes().subrange(b.0 as int, b.1 as int));
            if i == 0 {
                assert(mid.spec_bytes() =~= self.slice.spec_bytes());
                encode_utf8_decode_utf8(mid@);
                encode_utf8_decode_utf8(self.slice@);
            }
        }
        mid
    }
}

/// A parser adapter that yields the whole matched span of an anchored match.
pub struct RegexParser<R> {
    /// The compiled pattern, built once at construction.
    pub re: R,
}

impl<R> RegexParser<R> {
    /// Wraps an already-compiled matcher.
    pub fn new(re: R) -> (r: Self)
        ensures
            r.re == re,
    {
        RegexParser { re }
    }
}

/// A parser adapter that yields a [`Captures`] result for an anchored match.
pub struct CapturesParser<R> {
    /// The compiled pattern, built once at construction.
    pub re: R,
}

impl<R> CapturesParser<R> {
    /// Wraps an already-compiled matcher.
    pub fn new(re: R) -> (r: Self)
        ensures
            r.re == re,
    {
        CapturesParser { re }
    }
}

impl RegexParser<regex::Regex> {
    /// One anchored match attempt against the buffered suffix: on a
    /// confirmed match, consumes the matched span and returns it; otherwise
    /// reports `NoMatch` or `Incomplete` and leaves the stream unchanged.
    pub fn parse_next<'i>(&self, input: &mut TextInput<'i>) -> (r: Result<&'i str, MatchError>)
        ensures
            match outcome_of(&self.re, old(input).bytes(), old(input).partial) {
                Outcome::Matched(e) => {
                    &&& r is Ok
                    &&& r->Ok_0.spec_bytes() == old(input).bytes().subrange(0, e as int)
                    &&& r->Ok_0@ + final(input).rest@ == old(input).rest@
                    &&& final(input).bytes() == old(input).bytes().subrange(
                        e as int,
                        old(input).bytes().len() as int,
                    )
                    &&& final(input).partial == old(input).partial
                },
                Outcome::NoMatch => {
                    &&& r is Err && r->Err_0 == MatchError::NoMatch
                    &&& final(input).rest@ == old(input).rest@
                    &&& final(input).partial == old(input).partial
                },
                Outcome::Incomplete => {
                    &&& r is Err && r->Err_0 == MatchError::Incomplete
                    &&& final(input).rest@ == old(input).rest@
                    &&& final(input).partial == old(input).partial
                },
            },
    {
        let hay = input.peek();
        let hay_len = crate::regex_trait::text_len(hay);
        let partial = input.is_partial();
        let (out, locs) = match_anchored(&self.re, hay, hay_len, partial);
        match out {
            Outcome::Matched(e) => {
                proof {
                    assert(locs.group_bounds()[0] == Some((0usize, e)));
                }
                Ok(input.next_slice(e))
            },
            Outcome::NoMatch => Err(MatchError::NoMatch),
            Outcome::Incomplete => Err(MatchError::Incomplete),
        }
    }
}

impl CapturesParser<regex::Regex> {
    /// As [`RegexParser::parse_next`], but a confirmed match yields the
    /// matched span together with every capture group's bounds.
    pub fn parse_next<'i>(&self, input: &mut TextInput<'i>) -> (r: Result<
        Captures<&'i str, regex::CaptureLocations>,
        MatchError,
    >)
        ensures
            match outcome_of(&self.re, old(input).bytes(), old(input).partial) {
                Outcome::Matched(e) => {
                    &&& r is Ok
                    &&& r->Ok_0.slice.spec_bytes() == old(input).bytes().subrange(0, e as int)
                    &&& r->Ok_0.slice@ + final(input).rest@ == old(input).rest@
                    &&& text_captures_of(self.re, old(input).bytes()) == Some(
                        r->Ok_0.locs.group_bounds(),
                    )
                    &&& r->Ok_0.wf()
                    &&& final(input).bytes() == old(input).bytes().subrange(
                        e as int,
                        old(input).bytes().len() as int,
                    )
                    &&& final(input).partial == old(input).partial
                },
                Outcome::NoMatch => {
                    &&& r is Err && r->Err_0 == MatchError::NoMatch
                    &&& final(input).rest@ == old(input).rest@
                    &&& final(input).partial == old(input).partial
                },
                Outcome::Incomplete => {
                    &&& r is Err && r->Err_0 == MatchError::Incomplete
                    &&& final(input).rest@ == old(input).rest@
                    &&& final(input).partial == old(input).partial
                },
            },
    {
        let hay = input.peek();
        let hay_len = crate::regex_trait::text_len(hay);
        let partial = input.is_partial();
        let (out, locs) = match_anchored(&self.re, hay, hay_len, partial);
        match out {
            Outcome::Matched(e) => {
                let ghost h = old(input).bytes();
                let ghost g = locs.group_bounds();
                proof {
                    assert(g[0] == Some((0usize, e)));
                    encode_utf8_valid_utf8(old(input).rest@);
                }
                let s = input.next_slice(e);
                proof {
                    assert(s.spec_bytes() == h.subrange(0, e as int));
                    assert forall|i: int| 0 <= i < g.len() implies match (#[trigger] g[i]) {
                        Some(b) => {
                            &&& b.0 <= b.1 <= s.spec_bytes().len()
                            &&& is_char_boundary(s.spec_bytes(), b.0 as int)
                            &&& is_char_boundary(s.spec_bytes(), b.1 as int)
                        },
                        None => true,
                    } by {
                        match g[i] {
                            Some(b) => {
                                lemma_boundary_of_prefix(h, e as int, b.0 as int);
                                lemma_boundary_of_prefix(h, e as int, b.1 as int);
                            },
                            None => {},
                        }
                    }
                }
                Ok(Captures { slice: s, locs })
            },
            Outcome::NoMatch => Err(MatchError::NoMatch),
            Outcome::Incomplete => Err(MatchError::Incomplete),
        }
    }
}

/// Builds a parser adapter that matches input against `re` anchored at the
/// current position, yielding the matched span.  Compilation happens here,
/// once; an invalid pattern is excluded by precondition (the fallible
/// [`try_regex`] reports it as an error instead).
pub fn regex<Re: RegexPattern>(re: Re) -> (r: RegexParser<Re::Output>)
    requires
        re.compiles(),
    ensures
        match re.compiled() {
            Some(o) => r.re == o,
            None => true,
        },
{
    match re.try_into_regex() {
        Ok(c) => RegexParser { re: c },
        Err(_) => vstd::pervasive::unreached(),
    }
}

/// As [`regex`], but reports a pattern the engine rejects as an error.
pub fn try_regex<Re: RegexPattern>(re: Re) -> (r: Result<RegexParser<Re::Output>, Re::Error>)
    ensures
        r is Ok <==> re.compiles(),
        match re.compiled() {
            Some(o) => r is Ok && r->Ok_0.re == o,
            None => true,
        },
{
    match re.try_into_regex() {
        Ok(c) => Ok(RegexParser { re: c }),
        Err(e) => Err(e),
    }
}

/// Builds a parser adapter that matches input against `re` anchored at the
/// current position, yielding a [`Captures`] result.  Compilation happens
/// here, once; an invalid pattern is excluded by precondition (the fallible
/// [`try_captures`] reports it as an error instead).
pub fn captures<Re: RegexPattern>(re: Re) -> (r: CapturesParser<Re::Output>)
    requires
        re.compiles(),
    ensures
        match re.compiled() {
            Some(o) => r.re == o,
            None => true,
        },
{
    match re.try_into_regex() {
        Ok(c) => CapturesParser { re: c },
        Err(_) => vstd::pervasive::unreached(),
    }
}

/// As [`captures`], but reports a pattern the engine rejects as an error.
pub fn try_captures<Re: RegexPattern>(re: Re) -> (r: Result<
    CapturesParser<Re::Output>,
    Re::Error,
>)
    ensures
        r is Ok <==> re.compiles(),
        match re.compiled() {
            Some(o) => r is Ok && r->Ok_0.re == o,
            None => true,
        },
{
    match re.try_into_regex() {
        Ok(c) => Ok(CapturesParser { re: c }),
        Err(e) => Err(e),
    }
}

} // verus!
