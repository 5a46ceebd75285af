//! The engine capability boundary: the minimal contracts a matching engine
//! must satisfy, together with the two concrete engines (text and byte
//! haystacks) from the `regex` crate.

use vstd::prelude::*;

verus! {

use vstd::string::StringSliceAdditionalSpecFns;
use vstd::utf8::is_char_boundary;
use regex::Regex as TextRegexImpl;
use regex::CaptureLocations as TextLocsImpl;
use regex::Error as RegexErrorImpl;
use regex::bytes::Regex as BytesRegexImpl;
use regex::bytes::CaptureLocations as BytesLocsImpl;

#[verifier::external_type_specification]
#[verifier::external_body]
pub struct ExTextRegex(TextRegexImpl);

#[verifier::external_type_specification]
#[verifier::external_body]
pub struct ExBytesRegex(BytesRegexImpl);

#[verifier::external_type_specification]
#[verifier::external_body]
pub struct ExTextLocs(TextLocsImpl);

#[verifier::external_type_specification]
#[verifier::external_body]
pub struct ExBytesLocs(BytesLocsImpl);

#[verifier::external_type_specification]
#[verifier::external_body]
pub struct ExRegexError(RegexErrorImpl);

/// The group bounds held by a `regex::CaptureLocations` after its most recent
/// successful search: one `(start, end)` entry per group, `None` for a group
/// that did not participate.
pub uninterp spec fn text_locs_bounds(locs: TextLocsImpl) -> Seq<Option<(usize, usize)>>;

/// The group bounds held by a `regex::bytes::CaptureLocations`, as
/// `text_locs_bounds` for the byte engine.
pub uninterp spec fn bytes_locs_bounds(locs: BytesLocsImpl) -> Seq<Option<(usize, usize)>>;

/// True when `locs` was allocated by `re` (`regex::Regex::capture_locations`);
/// `regex::Regex::captures_read` is only defined for such storage.
pub uninterp spec fn text_locs_owner(re: TextRegexImpl, locs: TextLocsImpl) -> bool;

/// As `text_locs_owner`, for the byte engine.
pub uninterp spec fn bytes_locs_owner(re: BytesRegexImpl, locs: BytesLocsImpl) -> bool;

/// What `regex::Regex::captures_read` finds for this compiled pattern in a
/// text haystack with the given UTF-8 encoding: `None` when the pattern
/// matches nowhere, otherwise the bounds of every group for the leftmost
/// match, as byte offsets into the haystack.
pub uninterp spec fn text_captures_of(re: TextRegexImpl, hay: Seq<u8>) -> Option<
    Seq<Option<(usize, usize)>>,
>;

/// As `text_captures_of`, for `regex::bytes::Regex::captures_read` on a raw
/// byte haystack.
pub uninterp spec fn bytes_captures_of(re: BytesRegexImpl, hay: Seq<u8>) -> Option<
    Seq<Option<(usize, usize)>>,
>;

/// True when `regex::Regex::new` accepts this pattern text.
pub uninterp spec fn text_compiles(pattern: Seq<char>) -> bool;

/// True when `regex::bytes::Regex::new` accepts this pattern text.
pub uninterp spec fn bytes_compiles(pattern: Seq<char>) -> bool;

/// Relies on `regex::Regex::new`: compiles the pattern, failing exactly on
/// patterns the engine's syntax rejects.
#[verifier::external_body]
pub(crate) fn compile_text(pattern: &str) -> (r: Result<TextRegexImpl, RegexErrorImpl>)
    ensures
        r is Ok <==> text_compiles(pattern@),
{
    regex::Regex::new(pattern)
}

/// Relies on `regex::bytes::Regex::new`: compiles the pattern, failing
/// exactly on patterns the engine's syntax rejects.
#[verifier::external_body]
pub(crate) fn compile_bytes(pattern: &str) -> (r: Result<BytesRegexImpl, RegexErrorImpl>)
    ensures
        r is Ok <==> bytes_compiles(pattern@),
{
    regex::bytes::Regex::new(pattern)
}

/// Relies on `str::len`: the byte length of the slice's UTF-8 encoding,
/// which always fits in `usize`.
#[verifier::external_body]
pub(crate) fn text_len(s: &str) -> (r: usize)
    ensures
        r == s.spec_bytes().len(),
{
    s.len()
}

/// Relies on `regex::Regex::capture_locations`: fresh scratch storage usable
/// with this regex's `captures_read`.
#[verifier::external_body]
pub(crate) fn text_capture_locations(re: &TextRegexImpl) -> (r: TextLocsImpl)
    ensures
        text_locs_owner(*re, r),
{
    re.capture_locations()
}

/// Relies on `regex::bytes::Regex::capture_locations`: fresh scratch storage
/// usable with this regex's `captures_read`.
#[verifier::external_body]
pub(crate) fn bytes_capture_locations(re: &BytesRegexImpl) -> (r: BytesLocsImpl)
    ensures
        bytes_locs_owner(*re, r),
{
    re.capture_locations()
}

/// Relies on `regex::Regex::captures_read`: finds the leftmost match and
/// records each group's bounds; all reported offsets are byte offsets into
/// the haystack that fall on UTF-8 code point boundaries, the overall bounds
/// are also stored at index 0, each group's span lies within the overall
/// match, and the storage's group count never changes.
#[verifier::external_body]
pub(crate) fn text_captures_read(
    re: &TextRegexImpl,
    locs: &mut TextLocsImpl,
    hay: &str,
) -> (r: Option<(usize, usize)>)
    requires
        text_locs_owner(*re, *old(locs)),
    ensures
        text_locs_owner(*re, *final(locs)),
        text_locs_bounds(*final(locs)).len() == text_locs_bounds(*old(locs)).len(),
        match r {
            Some(m) => {
                &&& text_captures_of(*re, hay.spec_bytes()) == Some(text_locs_bounds(*final(locs)))
                &&& text_locs_bounds(*final(locs)).len() >= 1
                &&& text_locs_bounds(*final(locs))[0] == Some(m)
                &&& m.0 <= m.1 <= hay.spec_bytes().len()
                &&& forall|i: int|
                    0 <= i < text_locs_bounds(*final(locs)).len() ==> match (
                    #[trigger] text_locs_bounds(*final(locs))[i]) {
                        Some(b) => {
                            &&& m.0 <= b.0 <= b.1 <= m.1
                            &&& is_char_boundary(hay.spec_bytes(), b.0 as int)
                            &&& is_char_boundary(hay.spec_bytes(), b.1 as int)
                        },
                        None => true,
                    }
            },
            None => text_captures_of(*re, hay.spec_bytes()) is None,
        },
{
    match re.captures_read(locs, hay) {
        Some(m) => Some((m.start(), m.end())),
        None => None,
    }
}

/// Relies on `regex::bytes::Regex::captures_read`: as the text engine's
/// `captures_read`, with offsets into the raw byte haystack.
#[verifier::external_body]
pub(crate) fn bytes_captures_read(
    re: &BytesRegexImpl,
    locs: &mut BytesLocsImpl,
    hay: &[u8],
) -> (r: Option<(usize, usize)>)
    requires
        bytes_locs_owner(*re, *old(locs)),
    ensures
        bytes_locs_owner(*re, *final(locs)),
        bytes_locs_bounds(*final(locs)).len() == bytes_locs_bounds(*old(locs)).len(),
        match r {
            Some(m) => {
                &&& bytes_captures_of(*re, hay@) == Some(bytes_locs_bounds(*final(locs)))
                &&& bytes_locs_bounds(*final(locs)).len() >= 1
                &&& bytes_locs_bounds(*final(locs))[0] == Some(m)
                &&& m.0 <= m.1 <= hay@.len()
                &&& forall|i: int|
                    0 <= i < bytes_locs_bounds(*final(locs)).len() ==> match (
                    #[trigger] bytes_locs_bounds(*final(locs))[i]) {
                        Some(b) => m.0 <= b.0 <= b.1 <= m.1,
                        None => true,
                    }
            },
            None => bytes_captures_of(*re, hay@) is None,
        },
{
    match re.captures_read(locs, hay) {
        Some(m) => Some((m.start(), m.end())),
        None => None,
    }
}

/// Relies on `regex::CaptureLocations::get`: the bounds of group `i`, `None`
/// when `i` is out of range or the group did not participate.
#[verifier::external_body]
pub(crate) fn text_locs_get(locs: &TextLocsImpl, i: usize) -> (r: Option<(usize, usize)>)
    ensures
        r == if (i as int) < text_locs_bounds(*locs).len() {
            text_locs_bounds(*locs)[i as int]
        } else {
            None::<(usize, usize)>
        },
{
    locs.get(i)
}

/// Relies on `regex::bytes::CaptureLocations::get`, as the text engine's
/// `get`.
#[verifier::external_body]
pub(crate) fn bytes_locs_get(locs: &BytesLocsImpl, i: usize) -> (r: Option<(usize, usize)>)
    ensures
        r == if (i as int) < bytes_locs_bounds(*locs).len() {
            bytes_locs_bounds(*locs)[i as int]
        } else {
            None::<(usize, usize)>
        },
{
    locs.get(i)
}

/// Relies on `regex::CaptureLocations::len`: the group count, which a search
/// never changes.
#[verifier::external_body]
pub(crate) fn text_locs_len(locs: &TextLocsImpl) -> (r: usize)
    ensures
        r == text_locs_bounds(*locs).len(),
{
    locs.len()
}

/// Relies on `regex::bytes::CaptureLocations::len`, as the text engine's
/// `len`.
#[verifier::external_body]
pub(crate) fn bytes_locs_len(locs: &BytesLocsImpl) -> (r: usize)
    ensures
        r == bytes_locs_bounds(*locs).len(),
{
    locs.len()
}

/// Read access to a capture-locations buffer, independent of which engine
/// produced it: per-group bounds by index, and the fixed group count.
pub trait CaptureLocations: Sized {
    /// The bounds recorded for each group, `None` for a group that did not
    /// participate in the most recent match.
    spec fn group_bounds(&self) -> Seq<Option<(usize, usize)>>;

    /// The bounds of group `i`, or `None` when `i` is out of range or the
    /// group did not participate.
    fn get(&self, i: usize) -> (r: Option<(usize, usize)>)
        ensures
            r == if (i as int) < self.group_bounds().len() {
                self.group_bounds()[i as int]
            } else {
                None::<(usize, usize)>
            },
    ;

    /// The total number of groups, including group 0 for the whole match;
    /// fixed by the pattern, unaffected by searches.
    fn len(&self) -> (r: usize)
        ensures
            r == self.group_bounds().len(),
    ;
}

/// The capability any matching engine must offer: allocate scratch capture
/// storage, and search a haystack for the leftmost match, reporting its
/// bounds and filling the storage.
pub trait Regex: Sized {
    type Locs: CaptureLocations;

    type Hay: ?Sized;

    /// The byte-level content of a haystack (for text haystacks, its UTF-8
    /// encoding); all reported offsets index into this sequence.
    spec fn hay_bytes(h: &Self::Hay) -> Seq<u8>;

    /// True when a haystack of this kind may be sliced at offset `i`; every
    /// offset the engine reports satisfies it.
    spec fn splittable(hay: Seq<u8>, i: int) -> bool;

    /// What a search by this engine finds in the given haystack bytes.
    spec fn captures_spec(&self, hay: Seq<u8>) -> Option<Seq<Option<(usize, usize)>>>;

    /// True when `locs` is scratch storage allocated by this engine value.
    spec fn owns(&self, locs: Self::Locs) -> bool;

    /// Fresh scratch capture storage for this pattern.
    fn capture_locations(&self) -> (r: Self::Locs)
        ensures
            self.owns(r),
    ;

    /// Search for the leftmost match anywhere in `hay`; on success return the
    /// match's `(start, end)` byte offsets and record every group's bounds in
    /// `locs`.
    fn captures_read(&self, locs: &mut Self::Locs, hay: &Self::Hay) -> (r: Option<(usize, usize)>)
        requires
            self.owns(*old(locs)),
        ensures
            self.owns(*final(locs)),
            final(locs).group_bounds().len() == old(locs).group_bounds().len(),
            match r {
                Some(m) => {
                    &&& self.captures_spec(Self::hay_bytes(hay)) == Some(final(locs).group_bounds())
                    &&& final(locs).group_bounds().len() >= 1
                    &&& final(locs).group_bounds()[0] == Some(m)
                    &&& m.0 <= m.1 <= Self::hay_bytes(hay).len()
                    &&& forall|i: int|
                        0 <= i < final(locs).group_bounds().len() ==> match (
                        #[trigger] final(locs).group_bounds()[i]) {
                            Some(b) => {
                                &&& m.0 <= b.0 <= b.1 <= m.1
                                &&& Self::splittable(Self::hay_bytes(hay), b.0 as int)
                                &&& Self::splittable(Self::hay_bytes(hay), b.1 as int)
                            },
                            None => true,
                        }
                },
                None => self.captures_spec(Self::hay_bytes(hay)) is None,
            },
    ;
}

impl CaptureLocations for TextLocsImpl {
    open spec fn group_bounds(&self) -> Seq<Option<(usize, usize)>> {
        text_locs_bounds(*self)
    }

    fn get(&self, i: usize) -> (r: Option<(usize, usize)>) {
        text_locs_get(self, i)
    }

    fn len(&self) -> (r: usize) {
        text_locs_len(self)
    }
}

impl CaptureLocations for BytesLocsImpl {
    open spec fn group_bounds(&self) -> Seq<Option<(usize, usize)>> {
        bytes_locs_bounds(*self)
    }

    fn get(&self, i: usize) -> (r: Option<(usize, usize)>) {
        bytes_locs_get(self, i)
    }

    fn len(&self) -> (r: usize) {
        bytes_locs_len(self)
    }
}

impl Regex for TextRegexImpl {
    type Locs = TextLocsImpl;

    type Hay = str;

    open spec fn hay_bytes(h: &str) -> Seq<u8> {
        h.spec_bytes()
    }

    open spec fn splittable(hay: Seq<u8>, i: int) -> bool {
        is_char_boundary(hay, i)
    }

    open spec fn captures_spec(&self, hay: Seq<u8>) -> Option<Seq<Option<(usize, usize)>>> {
        text_captures_of(*self, hay)
    }

    open spec fn owns(&self, locs: TextLocsImpl) -> bool {
        text_locs_owner(*self, locs)
    }

    fn capture_locations(&self) -> (r: TextLocsImpl) {
        text_capture_locations(self)
    }

    fn captures_read(&self, locs: &mut TextLocsImpl, hay: &str) -> (r: Option<(usize, usize)>) {
        text_captures_read(self, locs, hay)
    }
}

impl Regex for BytesRegexImpl {
    type Locs = BytesLocsImpl;

    type Hay = [u8];

    open spec fn hay_bytes(h: &[u8]) -> Seq<u8> {
        h@
    }

    open spec fn splittable(hay: Seq<u8>, i: int) -> bool {
        0 <= i <= hay.len()
    }

    open spec fn captures_spec(&self, hay: Seq<u8>) -> Option<Seq<Option<(usize, usize)>>> {
        bytes_captures_of(*self, hay)
    }

    open spec fn owns(&self, locs: BytesLocsImpl) -> bool {
        bytes_locs_owner(*self, locs)
    }

    fn capture_locations(&self) -> (r: BytesLocsImpl) {
        bytes_capture_locations(self)
    }

    fn captures_read(&self, locs: &mut BytesLocsImpl, hay: &[u8]) -> (r: Option<(usize, usize)>) {
        bytes_captures_read(self, locs, hay)
    }
}

} // verus!
