//! The Windows backend: the two-tier consent strategy and its fallback.
//!
//! The primary path uses the modern consent-verifier service, which
//! offers no customization beyond the prompt message. Its availability
//! must be checked first — requesting verification while unavailable
//! hangs indefinitely, so the guard is mandatory, not an optimization.
//! When unavailable, a manual credential-prompt flow collects a username
//! and password through the operating system's credential UI, rejects a
//! username other than the logged-in user's outright, and validates the
//! password with an interactive logon.
//!
//! The decisions of both paths live here as verified functions from the
//! native calls' reported outcomes; the host glue performs the calls.

use vstd::prelude::*;

use crate::error::Error;
use vstd::string::StrSliceExecFns;

verus! {

/// The consent-verifier availability code meaning a verifier device is
/// available.
pub const AVAILABILITY_AVAILABLE: i32 = 0;

/// The consent result code for a verified user.
pub const CONSENT_VERIFIED: i32 = 0;

/// The consent result code for an absent verifier device.
pub const CONSENT_DEVICE_NOT_PRESENT: i32 = 1;

/// The consent result code for a verifier not configured for this user.
pub const CONSENT_NOT_CONFIGURED_FOR_USER: i32 = 2;

/// The consent result code for a verifier disabled by group policy.
pub const CONSENT_DISABLED_BY_POLICY: i32 = 3;

/// The consent result code for a busy verifier device.
pub const CONSENT_DEVICE_BUSY: i32 = 4;

/// The consent result code for exhausted retries.
pub const CONSENT_RETRIES_EXHAUSTED: i32 = 5;

/// The consent result code for a canceled verification.
pub const CONSENT_CANCELED: i32 = 6;

/// The credential-UI status for a prompt the user completed.
pub const PROMPT_NO_ERROR: u32 = 0;

/// The credential-UI status for a prompt the user canceled.
pub const PROMPT_ERROR_CANCELLED: u32 = 1223;

/// The consent-verifier table: a verified result is success; an absent,
/// unconfigured or policy-disabled device is unavailable; the remaining
/// documented codes map to their own variants; anything else degrades to
/// [`Error::Unknown`].
pub open spec fn spec_convert(code: i32) -> Result<(), Error> {
    if code == CONSENT_VERIFIED {
        Ok(())
    } else if code == CONSENT_DEVICE_NOT_PRESENT {
        Err(Error::Unavailable)
    } else if code == CONSENT_NOT_CONFIGURED_FOR_USER {
        Err(Error::Unavailable)
    } else if code == CONSENT_DISABLED_BY_POLICY {
        Err(Error::Unavailable)
    } else if code == CONSENT_DEVICE_BUSY {
        Err(Error::Busy)
    } else if code == CONSENT_RETRIES_EXHAUSTED {
        Err(Error::Exhausted)
    } else if code == CONSENT_CANCELED {
        Err(Error::UserCanceled)
    } else {
        Err(Error::Unknown)
    }
}

/// Maps a consent-verification result code into an outcome; see
/// [`spec_convert`].
pub fn convert(code: i32) -> (r: Result<(), Error>)
    ensures
        r == spec_convert(code),
{
    match code {
        CONSENT_VERIFIED => Ok(()),
        CONSENT_DEVICE_NOT_PRESENT => Err(Error::Unavailable),
        CONSENT_NOT_CONFIGURED_FOR_USER => Err(Error::Unavailable),
        CONSENT_DISABLED_BY_POLICY => Err(Error::Unavailable),
        CONSENT_DEVICE_BUSY => Err(Error::Busy),
        CONSENT_RETRIES_EXHAUSTED => Err(Error::Exhausted),
        CONSENT_CANCELED => Err(Error::UserCanceled),
        _ => Err(Error::Unknown),
    }
}

/// What the native credential-UI calls report during one fallback pass,
/// in the order the backend makes them.
#[derive(Debug, Clone, PartialEq, Eq)]
pub struct FallbackResponse {
    /// Connecting to the local security authority succeeded.
    pub authority_connected: bool,
    /// Looking up the authentication package succeeded.
    pub package_found: bool,
    /// The status the credential prompt returned.
    pub prompt_status: u32,
    /// Unpacking the returned authentication buffer succeeded.
    pub buffer_unpacked: bool,
    /// The username the user typed, as UTF-16 units.
    pub supplied_username: Vec<u16>,
    /// Reading the logged-in user's name succeeded.
    pub current_user_read: bool,
    /// The logged-in user's name, as UTF-16 units.
    pub current_user: Vec<u16>,
    /// Splitting the username into account and domain succeeded.
    pub username_parsed: bool,
    /// The interactive logon validated the password. The glue making
    /// that call must hand the logon a non-null output handle: with a
    /// null handle the operating system silently reports success
    /// whatever password was supplied.
    pub logon_succeeded: bool,
}

/// The fallback decision chain: any failing plumbing step is an unknown
/// error; a canceled prompt is a user cancellation; a username other
/// than the logged-in user's is an authentication error — verifying a
/// different local user is deliberately unsupported; and the password is
/// valid exactly when the interactive logon accepts it.
pub open spec fn spec_fallback(resp: FallbackResponse) -> Result<(), Error> {
    if !resp.authority_connected {
        Err(Error::Unknown)
    } else if !resp.package_found {
        Err(Error::Unknown)
    } else if resp.prompt_status == PROMPT_ERROR_CANCELLED {
        Err(Error::UserCanceled)
    } else if resp.prompt_status != PROMPT_NO_ERROR {
        Err(Error::Unknown)
    } else if !resp.buffer_unpacked {
        Err(Error::Unknown)
    } else if !resp.current_user_read {
        Err(Error::Unknown)
    } else if resp.supplied_username@ != resp.current_user@ {
        Err(Error::Authentication)
    } else if !resp.username_parsed {
        Err(Error::Unknown)
    } else if resp.logon_succeeded {
        Ok(())
    } else {
        Err(Error::Authentication)
    }
}

/// Runs the fallback decision chain; see [`spec_fallback`].
pub fn fallback_authenticate(resp: &FallbackResponse) -> (r: Result<(), Error>)
    ensures
        r == spec_fallback(*resp),
{
    if !resp.authority_connected {
        Err(Error::Unknown)
    } else if !resp.package_found {
        Err(Error::Unknown)
    } else if resp.prompt_status == PROMPT_ERROR_CANCELLED {
        Err(Error::UserCanceled)
    } else if resp.prompt_status != PROMPT_NO_ERROR {
        Err(Error::Unknown)
    } else if !resp.buffer_unpacked {
        Err(Error::Unknown)
    } else if !resp.current_user_read {
        Err(Error::Unknown)
    } else if !utf16_eq(&resp.supplied_username, &resp.current_user) {
        Err(Error::Authentication)
    } else if !resp.username_parsed {
        Err(Error::Unknown)
    } else if resp.logon_succeeded {
        Ok(())
    } else {
        Err(Error::Authentication)
    }
}

/// Compares two UTF-16 strings unit by unit.
pub fn utf16_eq(a: &Vec<u16>, b: &Vec<u16>) -> (r: bool)
    ensures
        r == (a@ == b@),
{
    if a.len() != b.len() {
        proof {
            assert(a@.len() != b@.len());
        }
        return false;
    }
    let mut i: usize = 0;
    while i < a.len()
        invariant
            i <= a@.len(),
            a@.len() == b@.len(),
            forall|j: int| 0 <= j < i ==> a@[j] == b@[j],
        decreases a@.len() - i,
    {
        if a[i] != b[i] {
            return false;
        }
        i = i + 1;
    }
    proof {
        assert(a@ =~= b@);
    }
    true
}

/// Everything the native layer reports for one Windows attempt: the
/// availability guard, the consent verification, and — when the verifier
/// is unavailable — the credential-UI fallback pass.
#[derive(Debug, Clone, PartialEq, Eq)]
pub struct WindowsResponse {
    /// Requesting the availability check succeeded.
    pub availability_requested: bool,
    /// The availability code the check reported; `None` when polling the
    /// check failed.
    pub availability: Option<i32>,
    /// Requesting the consent verification succeeded.
    pub verification_requested: bool,
    /// The consent result code; `None` when polling the verification
    /// failed.
    pub verification: Option<i32>,
    /// The credential-UI fallback pass, used when the verifier is
    /// unavailable.
    pub fallback: FallbackResponse,
}

impl WindowsResponse {
    /// True when the availability guard reported an available verifier.
    pub open spec fn spec_available(self) -> bool {
        self.availability == Some(AVAILABILITY_AVAILABLE)
    }
}

/// The submission result of one Windows attempt. A failure to issue the
/// availability check, or — on the available path — to issue or poll the
/// verification, is a submission error and the callback never runs.
/// Every other outcome, the fallback's errors included, is a
/// verification outcome delivered through the callback.
pub open spec fn spec_submission(resp: WindowsResponse) -> Result<(), Error> {
    if !resp.availability_requested {
        Err(Error::Unknown)
    } else if resp.spec_available() {
        if !resp.verification_requested {
            Err(Error::Unknown)
        } else {
            match resp.verification {
                Some(_) => Ok(()),
                None => Err(Error::Unknown),
            }
        }
    } else {
        Ok(())
    }
}

/// What the callback delivers for one Windows attempt: the converted
/// consent result on the available path, the fallback's outcome
/// otherwise; nothing when submission failed.
pub open spec fn spec_outcome(resp: WindowsResponse) -> Option<Result<(), Error>> {
    if !resp.availability_requested {
        None
    } else if resp.spec_available() {
        if !resp.verification_requested {
            None
        } else {
            match resp.verification {
                Some(code) => Some(spec_convert(code)),
                None => None,
            }
        }
    } else {
        Some(spec_fallback(resp.fallback))
    }
}

/// The UTF-16 encoding of one character: its code unit directly, or a
/// surrogate pair for a supplementary-plane character.
pub open spec fn spec_utf16_units(c: char) -> Seq<u16> {
    if (c as u32) < 0x10000 {
        seq![(c as u32) as u16]
    } else {
        seq![
            (0xd800 + (((c as u32) - 0x10000) / 0x400)) as u16,
            (0xdc00 + (((c as u32) - 0x10000) % 0x400)) as u16,
        ]
    }
}

/// The UTF-16 encoding of a string, character by character.
pub open spec fn spec_utf16(s: Seq<char>) -> Seq<u16>
    decreases s.len(),
{
    if s.len() == 0 {
        Seq::empty()
    } else {
        spec_utf16_units(s[0]) + spec_utf16(s.drop_first())
    }
}

/// Appending one character appends its code units.
proof fn lemma_utf16_push(s: Seq<char>, c: char)
    ensures
        spec_utf16(s.push(c)) == spec_utf16(s) + spec_utf16_units(c),
    decreases s.len(),
{
    if s.len() == 0 {
        assert(s.push(c)[0] == c);
        assert(s.push(c).drop_first() =~= Seq::<char>::empty());
        assert(spec_utf16(s.push(c)) == spec_utf16_units(c) + spec_utf16(Seq::<char>::empty()));
        assert(spec_utf16(s.push(c)) =~= spec_utf16(s) + spec_utf16_units(c));
    } else {
        let t = s.drop_first();
        assert(s.push(c)[0] == s[0]);
        assert(s.push(c).drop_first() =~= t.push(c));
        lemma_utf16_push(t, c);
        assert(spec_utf16(s.push(c)) == spec_utf16_units(s[0]) + spec_utf16(t.push(c)));
        assert(spec_utf16_units(s[0]) + (spec_utf16(t) + spec_utf16_units(c)) =~= (spec_utf16_units(
            s[0],
        ) + spec_utf16(t)) + spec_utf16_units(c));
        assert(spec_utf16(s) == spec_utf16_units(s[0]) + spec_utf16(t));
    }
}

/// Encodes the prompt message as the null-terminated UTF-16 string the
/// native consent and credential calls expect.
pub fn caption(message: &str) -> (r: Vec<u16>)
    ensures
        r@ == spec_utf16(message@).push(0u16),
{
    let mut out: Vec<u16> = Vec::new();
    let n = message.unicode_len();
    let mut i: usize = 0;
    while i < n
        invariant
            i <= n,
            n == message@.len(),
            out@ == spec_utf16(message@.subrange(0, i as int)),
        decreases n - i,
    {
        let c = message.get_char(i);
        let u = c as u32;
        if u < 0x10000 {
            out.push(u as u16);
        } else {
            out.push((0xd800 + ((u - 0x10000) / 0x400)) as u16);
            out.push((0xdc00 + ((u - 0x10000) % 0x400)) as u16);
        }
        proof {
            assert(message@.subrange(0, i + 1 as int) =~= message@.subrange(0, i as int).push(
                message@[i as int],
            ));
            lemma_utf16_push(message@.subrange(0, i as int), message@[i as int]);
        }
        i = i + 1;
    }
    proof {
        assert(message@.subrange(0, n as int) =~= message@);
    }
    out.push(0);
    out
}

} // verus!
