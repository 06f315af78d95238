//! Byte accounting for one image transfer attempt.
//!
//! A [`DownloadProgress`] lives for a single transfer attempt. It tracks how
//! many bytes have arrived and the total the transport declared, and it
//! carries the completeness policy: with a declared length the transfer is
//! complete exactly when the counts match; without one, a non-empty transfer
//! that reached a clean end of stream is accepted as a deliberate fallback.

use vstd::prelude::*;

verus! {

/// True for the ASCII digits `'0'` through `'9'`.
pub open spec fn spec_is_digit(b: u8) -> bool {
    48 <= b <= 57
}

/// True when every byte of `s` is an ASCII digit.
pub open spec fn all_digits(s: Seq<u8>) -> bool {
    forall|i: int| 0 <= i < s.len() ==> spec_is_digit(s[i])
}

/// The numeric value of `s` read as a big-endian decimal numeral.
pub open spec fn digits_value(s: Seq<u8>) -> int
    decreases s.len(),
{
    if s.len() == 0 {
        0
    } else {
        digits_value(s.drop_last()) * 10 + (s.last() - 48)
    }
}

/// A numeral's value never shrinks when more digits follow it: the value of
/// any prefix is at most the value of the whole.
pub proof fn lemma_digits_value_prefix_bound(s: Seq<u8>, n: int)
    requires
        all_digits(s),
        0 <= n <= s.len(),
    ensures
        0 <= digits_value(s.take(n)) <= digits_value(s),
    decreases s.len() - n,
{
    if n == s.len() {
        assert(s.take(n) =~= s);
        lemma_digits_value_nonneg(s);
    } else {
        lemma_digits_value_prefix_bound(s, n + 1);
        let t = s.take(n + 1);
        assert(t.drop_last() =~= s.take(n));
        assert(spec_is_digit(t.last()));
        lemma_digits_value_nonneg(s.take(n));
        assert(digits_value(s.take(n)) <= digits_value(s.take(n)) * 10 + (t.last() - 48));
    }
}

/// A numeral made of digits has a non-negative value.
pub proof fn lemma_digits_value_nonneg(s: Seq<u8>)
    requires
        all_digits(s),
    ensures
        digits_value(s) >= 0,
    decreases s.len(),
{
    if s.len() > 0 {
        assert(all_digits(s.drop_last()));
        lemma_digits_value_nonneg(s.drop_last());
        assert(spec_is_digit(s.last()));
    }
}

/// Reads a transport-declared content length. Returns the numeric value of
/// `s` exactly when `s` is a non-empty run of ASCII digits whose value fits
/// in a `u64`; anything else is treated as no declared length.
pub fn parse_content_length(s: &[u8]) -> (r: Option<u64>)
    ensures
        r is Some <==> (s@.len() > 0 && all_digits(s@) && digits_value(s@) <= u64::MAX),
        r matches Some(v) ==> v == digits_value(s@),
{
    if s.len() == 0 {
        return None;
    }
    let mut value: u64 = 0;
    let mut i: usize = 0;
    while i < s.len()
        invariant
            0 <= i <= s@.len(),
            s@.len() > 0,
            all_digits(s@.take(i as int)),
            value == digits_value(s@.take(i as int)),
        decreases s@.len() - i,
    {
        let b = s[i];
        if b < 48 || b > 57 {
            assert(!spec_is_digit(s@[i as int]));
            return None;
        }
        let digit = (b - 48) as u64;
        let shifted = match value.checked_mul(10) {
            Some(x) => x,
            None => {
                proof {
                    overflow_means_whole_too_large(s@, i as int, value as int, digit as int);
                }
                return None;
            },
        };
        let next = match shifted.checked_add(digit) {
            Some(x) => x,
            None => {
                proof {
                    overflow_means_whole_too_large(s@, i as int, value as int, digit as int);
                }
                return None;
            },
        };
        proof {
            assert(s@.take(i + 1).drop_last() =~= s@.take(i as int));
            assert(s@.take(i + 1).last() == s@[i as int]);
        }
        value = next;
        i = i + 1;
    }
    proof {
        assert(s@.take(i as int) =~= s@);
    }
    Some(value)
}

proof fn overflow_means_whole_too_large(s: Seq<u8>, i: int, value: int, digit: int)
    requires
        0 <= i < s.len(),
        all_digits(s.take(i)),
        spec_is_digit(s[i]),
        value == digits_value(s.take(i)),
        digit == s[i] - 48,
        value * 10 + digit > u64::MAX,
    ensures
        all_digits(s) ==> digits_value(s) > u64::MAX,
{
    if all_digits(s) {
        assert(s.take(i + 1).drop_last() =~= s.take(i));
        assert(s.take(i + 1).last() == s[i]);
        assert(digits_value(s.take(i + 1)) == value * 10 + digit);
        lemma_digits_value_prefix_bound(s, i + 1);
    }
}

/// Progress of one transfer attempt: how many bytes have arrived so far and
/// the total the transport declared, if any.
pub struct DownloadProgress {
    /// Bytes received so far, monotonically increasing across the transfer.
    pub bytes_read_total: u64,
    /// The expected total from the transport, absent when unknown.
    pub declared_content_length: Option<u64>,
}

impl DownloadProgress {
    /// The single gate between "bytes landed somewhere" and "bytes trusted
    /// to boot": with a declared length, exact equality of the counts; with
    /// none, any non-empty transfer.
    pub open spec fn is_complete(self) -> bool {
        match self.declared_content_length {
            Some(l) => self.bytes_read_total == l,
            None => self.bytes_read_total > 0,
        }
    }

    /// True once a declared total has been reached, so that no further bytes
    /// should be read.
    pub open spec fn reached_declared(self) -> bool {
        self.declared_content_length matches Some(l) && self.bytes_read_total >= l
    }

    /// Fresh accounting for one transfer attempt.
    pub fn new(declared_content_length: Option<u64>) -> (p: DownloadProgress)
        ensures
            p.bytes_read_total == 0,
            p.declared_content_length == declared_content_length,
    {
        DownloadProgress { bytes_read_total: 0, declared_content_length }
    }

    /// Adds one chunk's byte count to the running total. Returns false, and
    /// changes nothing, only if the total would exceed `u64::MAX`.
    pub fn record_chunk(&mut self, n: u64) -> (ok: bool)
        ensures
            ok == (old(self).bytes_read_total + n <= u64::MAX),
            final(self).declared_content_length == old(self).declared_content_length,
            ok ==> final(self).bytes_read_total == old(self).bytes_read_total + n,
            !ok ==> final(self).bytes_read_total == old(self).bytes_read_total,
    {
        match self.bytes_read_total.checked_add(n) {
            Some(total) => {
                self.bytes_read_total = total;
                true
            },
            None => false,
        }
    }

    /// Whether the read loop should stop before reading another chunk.
    pub fn should_stop_reading(&self) -> (r: bool)
        ensures
            r == self.reached_declared(),
    {
        match self.declared_content_length {
            Some(l) => self.bytes_read_total >= l,
            None => false,
        }
    }

    /// Applies the completeness policy to the final counts.
    pub fn transfer_complete(&self) -> (r: bool)
        ensures
            r == self.is_complete(),
    {
        match self.declared_content_length {
            Some(l) => self.bytes_read_total == l,
            None => self.bytes_read_total > 0,
        }
    }
}

} // verus!
