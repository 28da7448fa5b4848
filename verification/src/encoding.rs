//! Result encoding: the existence-flag record a provider returns, and the
//! decimal form the counting providers put in it.
//!
//! The record pairs a presence flag with an optional payload. The two are
//! tied together by `wf`: an absent result carries `None`, never a stale or
//! uninitialized payload, so an absent result exposes nothing readable.

use vstd::prelude::*;

verus! {

/// A provider's result: `exists` says whether `data` carries a value.
pub struct NamespaceResult {
    /// Designates whether there is a value or not.
    pub exists: bool,
    /// The text returned by the provider, present exactly when `exists`.
    pub data: Option<String>,
}

impl NamespaceResult {
    /// The encoding invariant: the flag and the payload agree, so an absent
    /// result holds no payload at all.
    pub open spec fn wf(self) -> bool {
        self.exists <==> self.data is Some
    }

    /// The absent result: flag down, payload defined and empty.
    pub fn absent() -> (r: NamespaceResult)
        ensures
            r.wf(),
            !r.exists,
            r.data is None,
    {
        NamespaceResult { exists: false, data: None }
    }
}

/// Wraps a present value in a well-formed result record.
pub fn build_return_value(s: String) -> (r: NamespaceResult)
    ensures
        r.wf(),
        r.exists,
        r.data == Some(s),
{
    NamespaceResult { exists: true, data: Some(s) }
}

/// An absent well-formed result never exposes a payload: whenever the flag
/// is down, the payload is the defined empty value.
pub proof fn lemma_absent_payload_is_empty(r: NamespaceResult)
    requires
        r.wf(),
        !r.exists,
    ensures
        r.data is None,
{
}

/// The decimal digit character for a value below ten.
pub open spec fn decimal_digit(d: nat) -> char
    recommends
        d < 10,
{
    if d == 0 {
        '0'
    } else if d == 1 {
        '1'
    } else if d == 2 {
        '2'
    } else if d == 3 {
        '3'
    } else if d == 4 {
        '4'
    } else if d == 5 {
        '5'
    } else if d == 6 {
        '6'
    } else if d == 7 {
        '7'
    } else if d == 8 {
        '8'
    } else {
        '9'
    }
}

/// The decimal digits of `n`, most significant first, with no sign and no
/// leading zeros (a single `'0'` for zero).
pub open spec fn decimal_chars(n: nat) -> Seq<char>
    decreases n,
{
    if n < 10 {
        seq![decimal_digit(n)]
    } else {
        decimal_chars(n / 10).push(decimal_digit(n % 10))
    }
}

} // verus!
