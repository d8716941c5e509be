//! The fixed 8-byte command header of the keyboard's control protocol.
//!
//! Every command the keyboard understands starts life as one of these
//! headers, sent verbatim as the payload of a USB control transfer.  The
//! last byte is a checksum: the one's complement of the wrapping sum of
//! the seven bytes before it.

use vstd::prelude::*;

verus! {

/// The 8-byte command header, in wire order.  The two reserved bytes are
/// always zero in a header built by [`Header::new`], and the checksum is
/// always consistent with the other seven bytes: there is no constructor
/// that leaves it stale.
#[derive(Clone, Copy, PartialEq, Eq, Structural, Debug)]
pub struct Header {
    pub kind: u8,
    pub reserved: u8,
    pub mode: u8,
    pub speed_length: u8,
    pub brightness: u8,
    pub color: u8,
    pub reserved2: u8,
    pub checksum: u8,
}

/// Plain sum of a sequence of bytes, as an unbounded integer.
pub open spec fn wire_sum(s: Seq<u8>) -> int
    decreases s.len(),
{
    if s.len() == 0 {
        0
    } else {
        wire_sum(s.drop_last()) + s.last()
    }
}

/// The checksum over the first seven header bytes: the one's complement
/// of their wrapping (modulo 256) sum.
pub open spec fn checksum_of(fields: Seq<u8>) -> u8 {
    (255 - wire_sum(fields) % 256) as u8
}

impl Header {
    /// The wire representation: the eight fields in declaration order,
    /// with no padding.
    pub open spec fn bytes(self) -> Seq<u8> {
        seq![
            self.kind,
            self.reserved,
            self.mode,
            self.speed_length,
            self.brightness,
            self.color,
            self.reserved2,
            self.checksum,
        ]
    }

    /// The seven bytes the checksum covers.
    pub open spec fn prefix(self) -> Seq<u8> {
        self.bytes().take(7)
    }

    /// A well-formed header has both reserved bytes zero and a checksum
    /// consistent with the other seven bytes.
    pub open spec fn wf(self) -> bool {
        &&& self.reserved == 0
        &&& self.reserved2 == 0
        &&& self.checksum == checksum_of(self.prefix())
    }
}

/// The seven checksummed bytes laid out from the five free fields.
pub open spec fn header_fields(kind: u8, mode: u8, speed_length: u8, brightness: u8, color: u8) -> Seq<u8> {
    seq![kind, 0u8, mode, speed_length, brightness, color, 0u8]
}

/// The header that [`Header::new`] builds from the five free fields.
pub open spec fn spec_header(kind: u8, mode: u8, speed_length: u8, brightness: u8, color: u8) -> Header {
    Header {
        kind,
        reserved: 0,
        mode,
        speed_length,
        brightness,
        color,
        reserved2: 0,
        checksum: checksum_of(header_fields(kind, mode, speed_length, brightness, color)),
    }
}

/// Spells out `wire_sum` on a seven-byte sequence.
proof fn lemma_wire_sum7(s: Seq<u8>)
    requires
        s.len() == 7,
    ensures
        wire_sum(s) == s[0] + s[1] + s[2] + s[3] + s[4] + s[5] + s[6],
{
    let s6 = s.drop_last();
    let s5 = s6.drop_last();
    let s4 = s5.drop_last();
    let s3 = s4.drop_last();
    let s2 = s3.drop_last();
    let s1 = s2.drop_last();
    let s0 = s1.drop_last();
    assert(wire_sum(s0) == 0);
    assert(wire_sum(s1) == s[0]);
    assert(wire_sum(s2) == s[0] + s[1]);
    assert(wire_sum(s3) == s[0] + s[1] + s[2]);
    assert(wire_sum(s4) == s[0] + s[1] + s[2] + s[3]);
    assert(wire_sum(s5) == s[0] + s[1] + s[2] + s[3] + s[4]);
    assert(wire_sum(s6) == s[0] + s[1] + s[2] + s[3] + s[4] + s[5]);
}

impl Header {
    /// Builds the one valid header for the five free fields: reserved
    /// bytes zero, checksum the one's complement of the wrapping sum of
    /// the first seven bytes.
    pub fn new(kind: u8, mode: u8, speed_length: u8, brightness: u8, color: u8) -> (h: Header)
        ensures
            h == spec_header(kind, mode, speed_length, brightness, color),
            h.wf(),
            h.kind == kind,
            h.mode == mode,
            h.speed_length == speed_length,
            h.brightness == brightness,
            h.color == color,
            h.reserved == 0,
            h.reserved2 == 0,
    {
        let total: u32 = kind as u32 + 0 + mode as u32 + speed_length as u32 + brightness as u32
            + color as u32 + 0;
        let checksum: u8 = (255 - total % 256) as u8;
        let h = Header {
            kind,
            reserved: 0,
            mode,
            speed_length,
            brightness,
            color,
            reserved2: 0,
            checksum,
        };
        proof {
            let p = h.prefix();
            assert(p =~= header_fields(kind, mode, speed_length, brightness, color));
            lemma_wire_sum7(p);
            assert(wire_sum(p) == kind + 0 + mode + speed_length + brightness + color + 0);
            assert(total == wire_sum(p));
            assert(checksum == checksum_of(p));
            assert(h == spec_header(kind, mode, speed_length, brightness, color));
        }
        h
    }

    /// The wire bytes, written out field by field in the fixed order; no
    /// reliance on in-memory layout.
    pub fn to_bytes(&self) -> (r: Vec<u8>)
        ensures
            r@ == self.bytes(),
            r@.len() == 8,
    {
        let mut r: Vec<u8> = Vec::new();
        r.push(self.kind);
        r.push(self.reserved);
        r.push(self.mode);
        r.push(self.speed_length);
        r.push(self.brightness);
        r.push(self.color);
        r.push(self.reserved2);
        r.push(self.checksum);
        proof {
            assert(r@ =~= self.bytes());
        }
        r
    }
}

/// Checksum law: for a well-formed header the wrapping sum of all eight
/// wire bytes, checksum included, is always 0xFF.
pub proof fn lemma_checksum_total(h: Header)
    requires
        h.wf(),
    ensures
        wire_sum(h.bytes()) % 256 == 0xFF,
{
    assert(h.bytes().drop_last() =~= h.prefix());
    assert(h.bytes().last() == h.checksum);
    let w = wire_sum(h.prefix());
    assert(w >= 0) by {
        lemma_wire_sum_nonneg(h.prefix());
    }
    vstd::arithmetic::div_mod::lemma_fundamental_div_mod(w, 256);
    let q = w / 256;
    assert(wire_sum(h.bytes()) == 256 * q + 255);
    vstd::arithmetic::div_mod::lemma_mod_multiples_vanish(q, 255, 256);
}

proof fn lemma_wire_sum_nonneg(s: Seq<u8>)
    ensures
        wire_sum(s) >= 0,
    decreases s.len(),
{
    if s.len() > 0 {
        lemma_wire_sum_nonneg(s.drop_last());
    }
}

/// Sensitivity law: the checksum depends on every one of the seven bytes
/// it covers.  If two seven-byte field sequences agree everywhere except
/// at one position, their checksums differ.
pub proof fn lemma_checksum_sensitive(a: Seq<u8>, b: Seq<u8>, j: int)
    requires
        a.len() == 7,
        b.len() == 7,
        0 <= j < 7,
        a[j] != b[j],
        forall|i: int| 0 <= i < 7 && i != j ==> a[i] == b[i],
    ensures
        checksum_of(a) != checksum_of(b),
{
    lemma_wire_sum7(a);
    lemma_wire_sum7(b);
    let wa = wire_sum(a);
    let wb = wire_sum(b);
    assert(wa - wb == a[j] - b[j]);
    lemma_wire_sum_nonneg(a);
    lemma_wire_sum_nonneg(b);
    vstd::arithmetic::div_mod::lemma_fundamental_div_mod(wa, 256);
    vstd::arithmetic::div_mod::lemma_fundamental_div_mod(wb, 256);
    assert(wa % 256 != wb % 256) by {
        let d = wa - wb;
        assert(-256 < d < 256 && d != 0);
        if wa % 256 == wb % 256 {
            let k = wa / 256 - wb / 256;
            assert(256 * k == d) by {
                assert(wa == 256 * (wa / 256) + wa % 256);
                assert(wb == 256 * (wb / 256) + wb % 256);
            }
            assert(false) by (nonlinear_arith)
                requires
                    256 * k == d,
                    -256 < d < 256,
                    d != 0,
            ;
        }
    }
}

} // verus!
