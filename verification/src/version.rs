//! Firmware version identifiers.
//!
//! A version is an opaque, comparable token. The oracle's wire format
//! terminates its payload with a line terminator, so a raw token is
//! normalized by stripping exactly one trailing `"\r\n"` or `"\n"` before it
//! is compared; two versions are the same exactly when their normalized
//! character sequences are equal.

use vstd::prelude::*;

verus! {

/// `s` with exactly one trailing line terminator (`"\r\n"` or `"\n"`)
/// removed, if one is present.
pub open spec fn normalized(s: Seq<char>) -> Seq<char> {
    if s.len() >= 2 && s[s.len() - 2] == '\r' && s[s.len() - 1] == '\n' {
        s.take(s.len() - 2)
    } else if s.len() >= 1 && s[s.len() - 1] == '\n' {
        s.take(s.len() - 1)
    } else {
        s
    }
}

/// An immutable firmware version token, already normalized.
#[derive(Debug)]
pub struct FirmwareVersion {
    text: String,
}

impl View for FirmwareVersion {
    type V = Seq<char>;

    closed spec fn view(&self) -> Seq<char> {
        self.text@
    }
}

impl FirmwareVersion {
    /// Builds a version from a raw token, stripping one trailing line
    /// terminator if present.
    pub fn from_raw(raw: &str) -> (v: FirmwareVersion)
        ensures
            v@ == normalized(raw@),
    {
        let n = raw.unicode_len();
        if n >= 2 && raw.get_char(n - 2) == '\r' && raw.get_char(n - 1) == '\n' {
            FirmwareVersion { text: raw.substring_char(0, n - 2).to_owned() }
        } else if n >= 1 && raw.get_char(n - 1) == '\n' {
            FirmwareVersion { text: raw.substring_char(0, n - 1).to_owned() }
        } else {
            FirmwareVersion { text: raw.to_owned() }
        }
    }

    /// The normalized token.
    pub fn as_str(&self) -> (r: &str)
        ensures
            r@ == self@,
    {
        self.text.as_str()
    }

    /// Exact equality of the normalized tokens.
    pub fn same_as(&self, other: &FirmwareVersion) -> (r: bool)
        ensures
            r == (self@ == other@),
    {
        self.text == other.text
    }
}

/// Normalization strips one trailing newline and nothing else: for a token
/// with no trailing line-terminator character of its own, the token and the
/// token followed by `'\n'` normalize to the same sequence, so the two
/// compare equal.
pub proof fn lemma_normalization_strips_one_newline(s: Seq<char>)
    requires
        s.len() == 0 || (s[s.len() - 1] != '\n' && s[s.len() - 1] != '\r'),
    ensures
        normalized(s) == s,
        normalized(s.push('\n')) == s,
{
    let t = s.push('\n');
    assert(t.len() == s.len() + 1);
    assert(t[t.len() - 1] == '\n');
    if s.len() >= 1 {
        assert(t[t.len() - 2] == s[s.len() - 1]);
    }
    assert(t.take(t.len() - 1) =~= s);
}

} // verus!
