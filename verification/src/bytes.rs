//! The byte-haystack variants of the parser adapters: the same anchored
//! match engine over raw byte buffers, with no text validity required.

use vstd::prelude::*;

verus! {

use crate::engine::{match_anchored, outcome_of, Outcome};
use crate::regex_trait::{bytes_captures_of, bytes_compiles, CaptureLocations, Regex};
use crate::{CapturesParser, Error, GroupError, MatchError, RegexParser};

pub use crate::Captures;

/// A pattern that can be turned into a compiled byte matcher.
pub trait BytesRegexPattern: Sized {
    type Output;

    type Error;

    /// True when this pattern value yields a compiled matcher.
    spec fn compiles(self) -> bool;

    /// The compiled matcher this value yields, where that is already pinned;
    /// `None` where the engine decides.
    spec fn compiled(self) -> Option<Self::Output>;

    /// Compiles or converts this value into a matcher, failing exactly when
    /// `compiles` is false.
    fn try_into_regex(self) -> (r: Result<Self::Output, Self::Error>)
        ensures
            r is Ok <==> self.compiles(),
            match self.compiled() {
                Some(o) => r is Ok && r->Ok_0 == o,
                None => true,
            },
    ;

    /// Converts the pattern into a regex; a pattern the engine rejects is
    /// excluded by precondition, where the unverified boundary would abort.
    fn into_regex(self) -> (r: Self::Output)
        requires
            self.compiles(),
        ensures
            match self.compiled() {
                Some(o) => r == o,
                None => true,
            },
    {
        match self.try_into_regex() {
            Ok(re) => re,
            Err(_) => vstd::pervasive::unreached(),
        }
    }
}

impl<'a> BytesRegexPattern for &'a str {
    type Output = regex::bytes::Regex;

    type Error = Error;

    open spec fn compiles(self) -> bool {
        bytes_compiles(self@)
    }

    open spec fn compiled(self) -> Option<regex::bytes::Regex> {
        None
    }

    fn try_into_regex(self) -> (r: Result<regex::bytes::Regex, Error>) {
        match crate::regex_trait::compile_bytes(self) {
            Ok(re) => Ok(re),
            Err(e) => Err(Error::Regex(e)),
        }
    }
}

impl BytesRegexPattern for regex::bytes::Regex {
    type Output = regex::bytes::Regex;

    type Error = Error;

    open spec fn compiles(self) -> bool {
        true
    }

    open spec fn compiled(self) -> Option<regex::bytes::Regex> {
        Some(self)
    }

    fn try_into_regex(self) -> (r: Result<regex::bytes::Regex, Error>) {
        Ok(self)
    }
}

/// A stream of raw bytes: the buffered, unconsumed suffix, and whether more
/// input may still arrive after it.
pub struct BytesInput<'i> {
    /// The buffered, unconsumed suffix.
    pub rest: &'i [u8],
    /// True when the buffer is incomplete: more input may still arrive.
    pub partial: bool,
}

impl<'i> BytesInput<'i> {
    /// The content of the buffered suffix; all offsets index into this
    /// sequence.
    pub open spec fn bytes(&self) -> Seq<u8> {
        self.rest@
    }

    /// A complete input: what is buffered is all there will ever be.
    pub fn new_complete(rest: &'i [u8]) -> (r: Self)
        ensures
            r.rest@ == rest@,
            !r.partial,
    {
        BytesInput { rest, partial: false }
    }

    /// A partial buffer: more input may arrive after what is buffered.
    pub fn new_partial(rest: &'i [u8]) -> (r: Self)
        ensures
            r.rest@ == rest@,
            r.partial,
    {
        BytesInput { rest, partial: true }
    }

    /// The buffered suffix, without advancing.
    pub fn peek(&self) -> (r: &'i [u8])
        ensures
            r@ == self.rest@,
    {
        self.rest
    }

    /// True when more input may still arrive.
    pub fn is_partial(&self) -> (r: bool)
        ensures
            r == self.partial,
    {
        self.partial
    }

    /// The buffered length in bytes.
    pub fn eof_offset(&self) -> (r: usize)
        ensures
            r == self.bytes().len(),
    {
        self.rest.len()
    }

    /// Consumes the first `n` buffered bytes, returning them and advancing
    /// the cursor past them.
    pub fn next_slice(&mut self, n: usize) -> (r: &'i [u8])
        requires
            n <= old(self).bytes().len(),
        ensures
            r@ == old(self).bytes().subrange(0, n as int),
            final(self).bytes() == old(self).bytes().subrange(
                n as int,
                old(self).bytes().len() as int,
            ),
            r@ + final(self).rest@ == old(self).rest@,
            final(self).partial == old(self).partial,
    {
        let (a, b) = self.rest.split_at(n);
        self.rest = b;
        proof {
            assert(a@ + b@ =~= old(self).rest@);
        }
        a
    }
}

impl<'i> Captures<&'i [u8], regex::bytes::CaptureLocations> {
    /// Well-formedness: group 0 spans the whole owned slice, and every
    /// participating group lies within it.
    pub open spec fn wf(&self) -> bool {
        &&& self.locs.group_bounds().len() >= 1
        &&& match self.locs.group_bounds()[0] {
            Some(b0) => b0.0 == 0 && b0.1 == self.slice@.len(),
            None => false,
        }
        &&& forall|i: int|
            0 <= i < self.locs.group_bounds().len() ==> match (
            #[trigger] self.locs.group_bounds()[i]) {
                Some(b) => b.0 <= b.1 <= self.slice@.len(),
                None => true,
            }
    }

    /// The whole matched slice (the span of group 0).
    pub fn as_bytes(&self) -> (r: &'i [u8])
        ensures
            r@ == self.slice@,
    {
        self.slice
    }

    /// The sub-slice of group `i`; group 0 is the whole match.
    pub fn index(&self, i: usize) -> (r: &'i [u8])
        requires
            self.wf(),
            (i as int) < self.locs.group_bounds().len(),
            self.locs.group_bounds()[i as int] is Some,
        ensures
            match self.locs.group_bounds()[i as int] {
                Some(b) => r@ == self.slice@.subrange(b.0 as int, b.1 as int),
                None => false,
            },
            i == 0 ==> r@ == self.slice@,
    {
        let b = match CaptureLocations::get(&self.locs, i) {
            Some(b) => b,
            None => vstd::pervasive::unreached(),
        };
        let (head, _) = self.slice.split_at(b.1);
        let (_, mid) = head.split_at(b.0);
        proof {
            assert(mid@ =~= self.slice@.subrange(b.0 as int, b.1 as int));
            if i == 0 {
                assert(mid@ =~= self.slice@);
            }
        }
        mid
    }
}

impl RegexParser<regex::bytes::Regex> {
    /// One anchored match attempt against the buffered suffix: on a
    /// confirmed match, consumes the matched span and returns it; otherwise
    /// reports `NoMatch` or `Incomplete` and leaves the stream unchanged.
    pub fn parse_next<'i>(&self, input: &mut BytesInput<'i>) -> (r: Result<&'i [u8], MatchError>)
        ensures
            match outcome_of(&self.re, old(input).bytes(), old(input).partial) {
                Outcome::Matched(e) => {
                    &&& r is Ok
                    &&& r->Ok_0@ == old(input).bytes().subrange(0, e as int)
                    &&& final(input).bytes() == old(input).bytes().subrange(
                        e as int,
                        old(input).bytes().len() as int,
                    )
                    &&& final(input).partial == old(input).partial
                },
                Outcome::NoMatch => {
                    &&& r is Err && r->Err_0 == MatchError::NoMatch
                    &&& final(input).rest@ == old(input).rest@
                    &&& final(input).partial == old(input).partial
                },
                Outcome::Incomplete => {
                    &&& r is Err && r->Err_0 == MatchError::Incomplete
                    &&& final(input).rest@ == old(input).rest@
                    &&& final(input).partial == old(input).partial
                },
            },
    {
        let hay = input.peek();
        let hay_len = hay.len();
        let partial = input.is_partial();
        let (out, _locs) = match_anchored(&self.re, hay, hay_len, partial);
        match out {
            Outcome::Matched(e) => Ok(input.next_slice(e)),
            Outcome::NoMatch => Err(MatchError::NoMatch),
            Outcome::Incomplete => Err(MatchError::Incomplete),
        }
    }
}

impl CapturesParser<regex::bytes::Regex> {
    /// As [`RegexParser::parse_next`] for bytes, but a confirmed match
    /// yields the matched span together with every capture group's bounds.
    pub fn parse_next<'i>(&self, input: &mut BytesInput<'i>) -> (r: Result<
        Captures<&'i [u8], regex::bytes::CaptureLocations>,
        MatchError,
    >)
        ensures
            match outcome_of(&self.re, old(input).bytes(), old(input).partial) {
                Outcome::Matched(e) => {
                    &&& r is Ok
                    &&& r->Ok_0.slice@ == old(input).bytes().subrange(0, e as int)
                    &&& bytes_captures_of(self.re, old(input).bytes()) == Some(
                        r->Ok_0.locs.group_bounds(),
                    )
                    &&& r->Ok_0.wf()
                    &&& final(input).bytes() == old(input).bytes().subrange(
                        e as int,
                        old(input).bytes().len() as int,
                    )
                    &&& final(input).partial == old(input).partial
                },
                Outcome::NoMatch => {
                    &&& r is Err && r->Err_0 == MatchError::NoMatch
                    &&& final(input).rest@ == old(input).rest@
                    &&& final(input).partial == old(input).partial
                },
                Outcome::Incomplete => {
                    &&& r is Err && r->Err_0 == MatchError::Incomplete
                    &&& final(input).rest@ == old(input).rest@
                    &&& final(input).partial == old(input).partial
                },
            },
    {
        let hay = input.peek();
        let hay_len = hay.len();
        let partial = input.is_partial();
        let (out, locs) = match_anchored(&self.re, hay, hay_len, partial);
        match out {
            Outcome::Matched(e) => {
                proof {
                    assert(locs.group_bounds()[0] == Some((0usize, e)));
                }
                let s = input.next_slice(e);
                Ok(Captures { slice: s, locs })
            },
            Outcome::NoMatch => Err(MatchError::NoMatch),
            Outcome::Incomplete => Err(MatchError::Incomplete),
        }
    }
}

/// Builds a parser adapter that matches a byte stream against `re` anchored
/// at the current position, yielding the matched span.  A pattern the engine
/// rejects is excluded by precondition (see [`try_regex`]).
pub fn regex<Re: BytesRegexPattern>(re: Re) -> (r: RegexParser<Re::Output>)
    requires
        re.compiles(),
    ensures
        match re.compiled() {
            Some(o) => r.re == o,
            None => true,
        },
{
    RegexParser { re: re.into_regex() }
}

/// As [`regex`], but reports a pattern the engine rejects as an error.
pub fn try_regex<Re: BytesRegexPattern>(re: Re) -> (r: Result<RegexParser<Re::Output>, Re::Error>)
    ensures
        r is Ok <==> re.compiles(),
        match re.compiled() {
            Some(o) => r is Ok && r->Ok_0.re == o,
            None => true,
        },
{
    match re.try_into_regex() {
        Ok(c) => Ok(RegexParser { re: c }),
        Err(e) => Err(e),
    }
}

/// Builds a parser adapter that matches a byte stream against `re` anchored
/// at the current position, yielding a [`Captures`] result.  A pattern the
/// engine rejects is excluded by precondition (see [`try_captures`]).
pub fn captures<Re: BytesRegexPattern>(re: Re) -> (r: CapturesParser<Re::Output>)
    requires
        re.compiles(),
    ensures
        match re.compiled() {
            Some(o) => r.re == o,
            None => true,
        },
{
    CapturesParser { re: re.into_regex() }
}

/// As [`captures`], but reports a pattern the engine rejects as an error.
pub fn try_captures<Re: BytesRegexPattern>(re: Re) -> (r: Result<
    CapturesParser<Re::Output>,
    Re::Error,
>)
    ensures
        r is Ok <==> re.compiles(),
        match re.compiled() {
            Some(o) => r is Ok && r->Ok_0.re == o,
            None => true,
        },
{
    match re.try_into_regex() {
        Ok(c) => Ok(CapturesParser { re: c }),
        Err(e) => Err(e),
    }
}

} // verus!
