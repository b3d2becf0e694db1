//! Hardware addresses of discovered peripherals.
//!
//! A peripheral is identified by a six-octet link-layer address. The
//! coordinator only carries these values; the one operation it offers is the
//! conventional textual rendering, two uppercase hex digits per octet with
//! colons in between.

use vstd::prelude::*;

verus! {

/// The ASCII colon that separates the octets in the textual rendering.
pub const COLON: u8 = 0x3a;

/// A six-octet link-layer address of a discovered peripheral. Immutable once
/// produced: the coordinator only reads addresses, it never resolves further
/// device state through them.
#[derive(Clone, Copy, Debug, PartialEq, Eq)]
pub struct DeviceAddress {
    pub octets: [u8; 6],
}

/// The ASCII code of the uppercase hexadecimal digit for a value below 16.
pub open spec fn hex_digit(v: int) -> u8
    recommends
        0 <= v < 16,
{
    if v < 10 {
        (0x30 + v) as u8
    } else {
        (0x37 + v) as u8
    }
}

/// The two-digit uppercase hexadecimal rendering of one octet.
pub open spec fn octet_text(b: u8) -> Seq<u8> {
    seq![hex_digit(b as int / 16), hex_digit(b as int % 16)]
}

/// The textual rendering of a six-octet address: the octets in order, two hex
/// digits each, separated by colons.
pub open spec fn address_text(s: Seq<u8>) -> Seq<u8>
    recommends
        s.len() == 6,
{
    octet_text(s[0]) + seq![COLON] + octet_text(s[1]) + seq![COLON] + octet_text(s[2])
        + seq![COLON] + octet_text(s[3]) + seq![COLON] + octet_text(s[4]) + seq![COLON]
        + octet_text(s[5])
}

/// Appends the two hex digits of one octet to `out`.
fn push_octet_text(out: &mut Vec<u8>, b: u8)
    ensures
        final(out)@ == old(out)@ + octet_text(b),
{
    let hi: u8 = b / 16;
    let lo: u8 = b % 16;
    let hi_digit: u8 = if hi < 10 { 0x30 + hi } else { 0x37 + hi };
    let lo_digit: u8 = if lo < 10 { 0x30 + lo } else { 0x37 + lo };
    out.push(hi_digit);
    out.push(lo_digit);
    assert(out@ =~= old(out)@ + octet_text(b));
}

impl DeviceAddress {
    /// Builds an address from its six octets.
    pub fn new(octets: [u8; 6]) -> (r: Self)
        ensures
            r.octets == octets,
    {
        DeviceAddress { octets }
    }

    /// The textual rendering as ASCII bytes, e.g. `AA:BB:CC:DD:EE:FF`.
    pub fn to_ascii(&self) -> (r: Vec<u8>)
        ensures
            r@ == address_text(self.octets@),
    {
        let mut out: Vec<u8> = Vec::new();
        push_octet_text(&mut out, self.octets[0]);
        out.push(COLON);
        push_octet_text(&mut out, self.octets[1]);
        out.push(COLON);
        push_octet_text(&mut out, self.octets[2]);
        out.push(COLON);
        push_octet_text(&mut out, self.octets[3]);
        out.push(COLON);
        push_octet_text(&mut out, self.octets[4]);
        out.push(COLON);
        push_octet_text(&mut out, self.octets[5]);
        assert(out@ =~= address_text(self.octets@));
        out
    }
}

} // verus!
