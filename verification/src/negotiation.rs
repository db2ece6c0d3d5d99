//! A binary negotiation message and its big-endian byte encoding: a
//! version, a length-prefixed UTF-8 name, a key, and a security flag.

use vstd::prelude::*;
use vstd::slice::slice_subrange;
use vstd::string::*;
use vstd::utf8::{decode_utf8, encode_utf8, valid_utf8};

use crate::strutil::utf8_to_string;

verus! {

/// The 16-bit value with the given big-endian bytes.
pub open spec fn val16(hi: u8, lo: u8) -> u16 {
    ((hi as u16) << 8) | (lo as u16)
}

/// The 32-bit value with the given big-endian bytes.
pub open spec fn val32(b0: u8, b1: u8, b2: u8, b3: u8) -> u32 {
    ((b0 as u32) << 24) | ((b1 as u32) << 16) | ((b2 as u32) << 8) | (b3 as u32)
}

/// The big-endian bytes of a 16-bit value.
pub open spec fn be16(x: u16) -> Seq<u8> {
    seq![(x >> 8) as u8, (x & 0xff) as u8]
}

/// The big-endian bytes of a 32-bit value.
pub open spec fn be32(x: u32) -> Seq<u8> {
    seq![(x >> 24) as u8, ((x >> 16) & 0xff) as u8, ((x >> 8) & 0xff) as u8, (x & 0xff) as u8]
}

/// Values that encode themselves to bytes.
pub trait Encode: Sized {
    /// Whether the value can be encoded.
    spec fn enc_wf(&self) -> bool;

    /// The bytes the value encodes to.
    spec fn spec_encode(&self) -> Seq<u8>;

    /// Encode the value to bytes.
    fn encode(&self) -> (r: Vec<u8>)
        requires
            self.enc_wf(),
        ensures
            r@ == self.spec_encode(),
    ;
}

/// Values that decode themselves from bytes.
pub trait Decode: Sized {
    /// Whether the bytes hold a well-formed value.
    spec fn spec_can_decode(b: Seq<u8>) -> bool;

    /// The decoding relation: `v` is what the bytes `b` decode to.
    spec fn spec_decodes(b: Seq<u8>, v: Self) -> bool;

    /// Decode a value from the front of the given bytes.
    fn decode(buf: &Vec<u8>) -> (r: Result<Self, ()>)
        ensures
            r matches Ok(v) ==> Self::spec_decodes(buf@, v),
            r is Err <==> !Self::spec_can_decode(buf@),
    ;
}

/// A negotiation message.
#[derive(Debug)]
pub struct Negotiation {
    /// Protocol version, two bytes on the wire.
    pub version: u16,
    /// Peer name, on the wire as a two-byte length followed by its UTF-8
    /// bytes.
    pub name: String,
    /// Session key, four bytes on the wire.
    pub key: u32,
    /// Whether the session is secure, one byte on the wire.
    pub secure: bool,
}

/// The byte length of a negotiation's name on the wire.
pub open spec fn spec_name_len(m: Negotiation) -> int {
    encode_utf8(m.name@).len() as int
}

impl Encode for Negotiation {
    /// The name's UTF-8 bytes must fit the two-byte length field.
    open spec fn enc_wf(&self) -> bool {
        spec_name_len(*self) <= u16::MAX
    }

    open spec fn spec_encode(&self) -> Seq<u8> {
        be16(self.version) + be16(spec_name_len(*self) as u16) + encode_utf8(self.name@) + be32(
            self.key,
        ) + seq![if self.secure { 1u8 } else { 0u8 }]
    }

    fn encode(&self) -> (r: Vec<u8>) {
        let mut out: Vec<u8> = Vec::new();
        out.push((self.version >> 8) as u8);
        out.push((self.version & 0xff) as u8);
        let mut nb = self.name.as_str().as_bytes_vec();
        let nlen16: u16 = nb.len() as u16;
        out.push((nlen16 >> 8) as u8);
        out.push((nlen16 & 0xff) as u8);
        out.append(&mut nb);
        out.push((self.key >> 24) as u8);
        out.push(((self.key >> 16) & 0xff) as u8);
        out.push(((self.key >> 8) & 0xff) as u8);
        out.push((self.key & 0xff) as u8);
        if self.secure {
            out.push(1);
        } else {
            out.push(0);
        }
        proof {
            assert(out@ =~= self.spec_encode());
        }
        out
    }
}

impl Decode for Negotiation {
    /// Well-formed bytes: long enough for the fixed fields, long enough
    /// for the name length they announce, and a name in valid UTF-8.
    open spec fn spec_can_decode(b: Seq<u8>) -> bool {
        &&& b.len() >= 9
        &&& b.len() >= val16(b[2], b[3]) + 9
        &&& valid_utf8(b.subrange(4, 4 + val16(b[2], b[3])))
    }

    open spec fn spec_decodes(b: Seq<u8>, v: Self) -> bool {
        let nl = val16(b[2], b[3]) as int;
        &&& Self::spec_can_decode(b)
        &&& v.version == val16(b[0], b[1])
        &&& v.name@ == decode_utf8(b.subrange(4, 4 + nl))
        &&& v.key == val32(b[4 + nl], b[5 + nl], b[6 + nl], b[7 + nl])
        &&& v.secure == (b[8 + nl] != 0)
    }

    fn decode(buf: &Vec<u8>) -> (r: Result<Self, ()>) {
        if buf.len() < 9 {
            return Err(());
        }
        let version: u16 = ((buf[0] as u16) << 8) | (buf[1] as u16);
        let name_len: usize = (((buf[2] as u16) << 8) | (buf[3] as u16)) as usize;
        proof {
            assert(name_len == val16(buf@[2], buf@[3]));
        }
        if buf.len() - 4 < name_len + 5 {
            return Err(());
        }
        let name_bytes = slice_subrange(buf.as_slice(), 4, 4 + name_len);
        let name = match utf8_to_string(name_bytes) {
            Some(n) => n,
            None => {
                return Err(());
            }
        };
        let key: u32 = ((buf[4 + name_len] as u32) << 24) | ((buf[5 + name_len] as u32) << 16) | (
        (buf[6 + name_len] as u32) << 8) | (buf[7 + name_len] as u32);
        let secure: bool = buf[8 + name_len] != 0;
        Ok(Negotiation { version, name, key, secure })
    }
}

/// Law: the encoding of a message that fits the wire format is
/// well-formed for decoding.
pub proof fn lemma_encode_decodable(m: Negotiation)
    requires
        m.enc_wf(),
    ensures
        Negotiation::spec_can_decode(m.spec_encode()),
{
    let e = m.spec_encode();
    let nl = spec_name_len(m);
    let x = nl as u16;
    assert((((((x >> 8) as u8) as u16) << 8) | (((x & 0xff) as u8) as u16)) == x) by (bit_vector);
    assert(val16(e[2], e[3]) == x);
    assert(e.subrange(4, 4 + nl) =~= encode_utf8(m.name@));
    vstd::utf8::encode_utf8_valid_utf8(m.name@);
}

/// Law (round trip): whatever `decode` accepts of a message's own
/// encoding carries the message's version, name text, key and flag.
pub proof fn lemma_negotiation_round_trip(m: Negotiation, m2: Negotiation)
    requires
        m.enc_wf(),
        Negotiation::spec_decodes(m.spec_encode(), m2),
    ensures
        m2.version == m.version,
        m2.name@ == m.name@,
        m2.key == m.key,
        m2.secure == m.secure,
{
    let e = m.spec_encode();
    let nl = spec_name_len(m);
    let x = nl as u16;
    assert((((((x >> 8) as u8) as u16) << 8) | (((x & 0xff) as u8) as u16)) == x) by (bit_vector);
    assert(val16(e[2], e[3]) == x);
    let v = m.version;
    assert((((((v >> 8) as u8) as u16) << 8) | (((v & 0xff) as u8) as u16)) == v) by (bit_vector);
    assert(e[0] == (v >> 8) as u8 && e[1] == (v & 0xff) as u8);
    assert(e.subrange(4, 4 + nl) =~= encode_utf8(m.name@));
    vstd::utf8::encode_utf8_decode_utf8(m.name@);
    let k = m.key;
    assert(((((k >> 24) as u8) as u32) << 24) | ((((k >> 16) & 0xff) as u8 as u32) << 16) | ((((k
        >> 8) & 0xff) as u8 as u32) << 8) | (((k & 0xff) as u8) as u32) == k) by (bit_vector);
    assert(e[4 + nl] == (k >> 24) as u8 && e[5 + nl] == ((k >> 16) & 0xff) as u8 && e[6 + nl] == ((
    k >> 8) & 0xff) as u8 && e[7 + nl] == (k & 0xff) as u8);
    assert(e[8 + nl] == (if m.secure { 1u8 } else { 0u8 }));
}

} // verus!
