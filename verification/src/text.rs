//! The prompt text model: per-platform display strings with their
//! platform-specific size limits enforced at construction time.

use vstd::prelude::*;
use vstd::math::min;
use vstd::string::StringSliceAdditionalSpecFns;
use vstd::utf8::{encode_utf8_valid_utf8, is_char_boundary, is_char_boundary_start_end_of_seq};

verus! {

broadcast use vstd::slice::group_slice_axioms;

/// The length of a string in bytes. Returning it as a `usize` also
/// witnesses that the byte sequence fits the machine's address space.
fn byte_len(s: &str) -> (n: usize)
    ensures
        n == s.spec_bytes().len(),
{
    s.as_bytes().len()
}

/// The maximum length of a Windows prompt title ("caption"), in bytes.
pub const MAX_TITLE_BYTES: usize = 128;

/// The maximum length of a Windows prompt description ("message"), in
/// bytes.
pub const MAX_DESCRIPTION_BYTES: usize = 1024;

/// The text contents displayed by an authentication prompt, one bundle
/// per platform family.
pub struct Text<'a, 'b, 'c, 'd, 'e, 'f> {
    /// The text of the authentication prompt on Android.
    pub android: AndroidText<'a, 'b, 'c>,
    /// The description of the authentication prompt on Apple devices,
    /// inserted into a sentence composed by the platform.
    pub apple: &'d str,
    /// The text of the authentication prompt on Windows.
    pub windows: WindowsText<'e, 'f>,
}

/// The text of the authentication prompt on Android.
pub struct AndroidText<'a, 'b, 'c> {
    pub title: &'a str,
    pub subtitle: Option<&'b str>,
    pub description: Option<&'c str>,
}

/// The text of the authentication prompt on Windows: a title ("caption")
/// and a description ("message"), each bounded by the platform's
/// credential-UI limits.
pub struct WindowsText<'a, 'b> {
    pub title: &'a str,
    pub description: &'b str,
}

/// The largest index that is at most `limit` and falls on a character
/// boundary of `bytes`. Since index zero is always a boundary, this is
/// the byte length of the longest prefix of a valid UTF-8 sequence that
/// fits in `limit` bytes without splitting a character.
pub open spec fn spec_truncation_point(bytes: Seq<u8>, limit: int) -> int
    decreases limit,
{
    if limit <= 0 {
        0
    } else if is_char_boundary(bytes, limit) {
        limit
    } else {
        spec_truncation_point(bytes, limit - 1)
    }
}

impl<'a, 'b> WindowsText<'a, 'b> {
    /// Creates a new `WindowsText`, rejecting oversized input.
    ///
    /// Returns `None` if `title` exceeds [`MAX_TITLE_BYTES`] bytes or
    /// `description` exceeds [`MAX_DESCRIPTION_BYTES`] bytes.
    pub fn new(title: &'a str, description: &'b str) -> (r: Option<Self>)
        ensures
            (r is Some) <==> title.spec_bytes().len() <= MAX_TITLE_BYTES
                && description.spec_bytes().len() <= MAX_DESCRIPTION_BYTES,
            r matches Some(t) ==> t.title == title && t.description == description,
    {
        if byte_len(title) <= MAX_TITLE_BYTES && byte_len(description) <= MAX_DESCRIPTION_BYTES {
            Some(Self { title, description })
        } else {
            None
        }
    }

    /// Creates a new `WindowsText`, truncating oversized input.
    ///
    /// The `title` is cut to at most [`MAX_TITLE_BYTES`] bytes and the
    /// `description` to at most [`MAX_DESCRIPTION_BYTES`] bytes, trimmed
    /// from the tail; a cut never splits a character, so a multi-byte
    /// character straddling the limit is dropped whole.
    pub fn new_truncated(title: &'a str, description: &'b str) -> (r: Self)
        ensures
            r.title.spec_bytes() == title.spec_bytes().subrange(
                0,
                spec_truncation_point(title.spec_bytes(), min(title.spec_bytes().len() as int, MAX_TITLE_BYTES as int)),
            ),
            r.description.spec_bytes() == description.spec_bytes().subrange(
                0,
                spec_truncation_point(
                    description.spec_bytes(),
                    min(description.spec_bytes().len() as int, MAX_DESCRIPTION_BYTES as int),
                ),
            ),
            title.spec_bytes().len() <= MAX_TITLE_BYTES ==> r.title == title,
            description.spec_bytes().len() <= MAX_DESCRIPTION_BYTES ==> r.description == description,
    {
        Self {
            title: truncate_to_boundary(title, MAX_TITLE_BYTES),
            description: truncate_to_boundary(description, MAX_DESCRIPTION_BYTES),
        }
    }
}

/// Cuts `s` to its longest prefix of at most `limit` bytes that ends on a
/// character boundary; `s` itself if it already fits.
fn truncate_to_boundary(s: &str, limit: usize) -> (r: &str)
    ensures
        r.spec_bytes() == s.spec_bytes().subrange(
            0,
            spec_truncation_point(s.spec_bytes(), min(s.spec_bytes().len() as int, limit as int)),
        ),
        s.spec_bytes().len() <= limit ==> r == s,
{
    proof {
        encode_utf8_valid_utf8(s@);
        is_char_boundary_start_end_of_seq(s.spec_bytes());
    }
    if byte_len(s) <= limit {
        proof {
            lemma_truncation_point_of_boundary(s.spec_bytes(), s.spec_bytes().len() as int);
            assert(s.spec_bytes().subrange(0, s.spec_bytes().len() as int) =~= s.spec_bytes());
        }
        s
    } else {
        let mut cut: usize = limit;
        while !s.is_char_boundary(cut)
            invariant
                0 <= cut <= limit,
                cut < s.spec_bytes().len(),
                vstd::utf8::valid_utf8(s.spec_bytes()),
                spec_truncation_point(s.spec_bytes(), limit as int) == spec_truncation_point(
                    s.spec_bytes(),
                    cut as int,
                ),
            decreases cut,
        {
            proof {
                if cut == 0 {
                    // index zero is always a boundary, so the loop cannot
                    // reach it with the condition still true
                    assert(is_char_boundary(s.spec_bytes(), 0));
                }
            }
            cut = cut - 1;
        }
        proof {
            lemma_truncation_point_of_boundary(s.spec_bytes(), cut as int);
        }
        let (prefix, _) = s.split_at(cut);
        proof {
            assert(prefix.spec_bytes() == s.spec_bytes().subrange(
                0,
                spec_truncation_point(s.spec_bytes(), min(s.spec_bytes().len() as int, limit as int)),
            ));
        }
        prefix
    }
}

/// At a character boundary the truncation point is the index itself.
proof fn lemma_truncation_point_of_boundary(bytes: Seq<u8>, i: int)
    requires
        0 <= i,
        is_char_boundary(bytes, i),
    ensures
        spec_truncation_point(bytes, i) == i,
{
}

} // verus!
