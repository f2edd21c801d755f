//! The firmware version that a device reports.

use vstd::prelude::*;

verus! {

/// Firmware version of a display module.
#[derive(Debug, Clone, Copy, PartialEq, Eq, Structural)]
pub struct DeviceVersion {
    pub major: u8,
    pub minor: u8,
    pub patch: u8,
    pub pre_release: bool,
}

/// The version that a reply to the version query encodes: byte 0 is the
/// major version, the high nibble of byte 1 the minor, its low nibble the
/// patch, and byte 2 is 1 for a pre-release.
pub open spec fn version_of(response: Seq<u8>) -> DeviceVersion {
    DeviceVersion {
        major: response[0],
        minor: (response[1] / 16) as u8,
        patch: (response[1] % 16) as u8,
        pre_release: response[2] == 1,
    }
}

/// Decimal digits of `n`, most significant first.
pub open spec fn decimal(n: nat) -> Seq<char>
    decreases n,
{
    if n < 10 {
        seq![digit_char(n)]
    } else {
        decimal(n / 10) + seq![digit_char(n % 10)]
    }
}

pub open spec fn digit_char(d: nat) -> char {
    if d == 0 { '0' }
    else if d == 1 { '1' }
    else if d == 2 { '2' }
    else if d == 3 { '3' }
    else if d == 4 { '4' }
    else if d == 5 { '5' }
    else if d == 6 { '6' }
    else if d == 7 { '7' }
    else if d == 8 { '8' }
    else { '9' }
}

/// `major.minor.patch`, with `-pre` after it for a pre-release.
pub open spec fn version_text(v: DeviceVersion) -> Seq<char> {
    decimal(v.major as nat) + seq!['.'] + decimal(v.minor as nat) + seq!['.'] + decimal(
        v.patch as nat,
    ) + if v.pre_release {
        seq!['-', 'p', 'r', 'e']
    } else {
        Seq::empty()
    }
}

fn digit_str(d: u8) -> (r: &'static str)
    requires
        d < 10,
    ensures
        r@ == seq![digit_char(d as nat)],
{
    proof {
        reveal_strlit("0");
        reveal_strlit("1");
        reveal_strlit("2");
        reveal_strlit("3");
        reveal_strlit("4");
        reveal_strlit("5");
        reveal_strlit("6");
        reveal_strlit("7");
        reveal_strlit("8");
        reveal_strlit("9");
    }
    if d == 0 { "0" }
    else if d == 1 { "1" }
    else if d == 2 { "2" }
    else if d == 3 { "3" }
    else if d == 4 { "4" }
    else if d == 5 { "5" }
    else if d == 6 { "6" }
    else if d == 7 { "7" }
    else if d == 8 { "8" }
    else { "9" }
}

fn append_decimal(s: &mut String, n: u8)
    ensures
        final(s)@ == old(s)@ + decimal(n as nat),
{
    if n >= 100 {
        s.append(digit_str(n / 100));
        s.append(digit_str((n / 10) % 10));
        s.append(digit_str(n % 10));
        assert(decimal(n as nat) == decimal((n / 10) as nat) + seq![digit_char((n % 10) as nat)]);
        assert(decimal((n / 10) as nat) == decimal((n / 100) as nat) + seq![digit_char(((n / 10) % 10) as nat)]);
    } else if n >= 10 {
        s.append(digit_str(n / 10));
        s.append(digit_str(n % 10));
        assert(decimal(n as nat) == decimal((n / 10) as nat) + seq![digit_char((n % 10) as nat)]);
    } else {
        s.append(digit_str(n));
    }
}

impl DeviceVersion {
    /// Decodes the reply to the version query.
    pub fn from_response(response: &[u8]) -> (r: DeviceVersion)
        requires
            response@.len() >= 3,
        ensures
            r == version_of(response@),
    {
        let b = response[1];
        let minor = (b & 0xF0) >> 4;
        let patch = b & 0x0F;
        assert((b & 0xF0) >> 4 == b / 16 && b & 0x0F == b % 16) by (bit_vector);
        DeviceVersion { major: response[0], minor, patch, pre_release: response[2] == 1 }
    }

    /// The version as text, as in `2.3.1` or `2.3.1-pre`.
    pub fn to_version_string(&self) -> (r: String)
        ensures
            r@ == version_text(*self),
    {
        let mut s = String::new();
        append_decimal(&mut s, self.major);
        s.append(".");
        append_decimal(&mut s, self.minor);
        s.append(".");
        append_decimal(&mut s, self.patch);
        if self.pre_release {
            s.append("-pre");
        }
        proof {
            reveal_strlit(".");
            reveal_strlit("-pre");
        }
        assert(s@ =~= version_text(*self));
        s
    }
}

} // verus!
