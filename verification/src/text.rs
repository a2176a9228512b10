//! Byte-string rules: identifier validation and decimal rendering of the
//! enrollment reference counter.
use vstd::prelude::*;

verus! {

/// Longest accepted course id, certificate id or enrollment reference, in bytes.
pub const MAX_COURSE_ID_LEN: usize = 256;

/// Longest accepted course title, in bytes.
pub const MAX_COURSE_TITLE_LEN: usize = 512;

/// A byte allowed in an identifier: printable ASCII, space (0x20) through
/// tilde (0x7E), except backtick (0x60) and tilde (0x7E), which some
/// off-chain parsers mishandle.
pub open spec fn id_byte(b: u8) -> bool {
    0x20 <= b <= 0x7E && b != 0x60 && b != 0x7E
}

/// Every byte is an allowed identifier byte.
pub open spec fn printable_ascii(t: Seq<u8>) -> bool {
    forall|i: int| 0 <= i < t.len() ==> id_byte(#[trigger] t[i])
}

pub fn is_printable_ascii(t: &Vec<u8>) -> (r: bool)
    ensures
        r == printable_ascii(t@),
{
    let mut i: usize = 0;
    while i < t.len()
        invariant
            i <= t.len(),
            forall|j: int| 0 <= j < i ==> id_byte(#[trigger] t@[j]),
        decreases t.len() - i,
    {
        if t[i] < 0x20 || t[i] > 0x7E || t[i] == 0x60 || t[i] == 0x7E {
            assert(!id_byte(t@[i as int]));
            return false;
        }
        i = i + 1;
    }
    true
}

/// The decimal digits of a number, most significant first, no digit for 0.
pub open spec fn digits(n: nat) -> Seq<u8>
    decreases n,
{
    if n == 0 {
        Seq::empty()
    } else {
        digits(n / 10).push((48 + n % 10) as u8)
    }
}

/// The decimal rendering of a number ("0" for zero).
pub open spec fn decimal(n: nat) -> Seq<u8> {
    if n == 0 {
        seq![48u8]
    } else {
        digits(n)
    }
}

/// Renders a counter in decimal ASCII.
pub fn counter_to_string(n: u32) -> (r: Vec<u8>)
    ensures
        r@ == decimal(n as nat),
{
    if n == 0 {
        let mut z: Vec<u8> = Vec::new();
        z.push(48u8);
        assert(z@ =~= seq![48u8]);
        return z;
    }
    let mut out: Vec<u8> = Vec::new();
    let mut val: u32 = n;
    while val > 0
        invariant
            digits(n as nat) == digits(val as nat) + out@,
        decreases val,
    {
        let d: u8 = (val % 10) as u8;
        let ghost v = val as nat;
        let ghost prev = out@;
        out.insert(0, 48u8 + d);
        val = val / 10;
        assert(digits(v) == digits(v / 10).push((48 + v % 10) as u8));
        assert(digits(v / 10).push((48 + v % 10) as u8) + prev =~= digits(v / 10) + out@);
    }
    assert(digits(0) + out@ =~= out@);
    out
}

} // verus!
