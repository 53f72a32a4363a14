use vstd::prelude::*;
use vstd::utf8::{decode_utf8, valid_utf8};
use vstd::string::StringSliceAdditionalSpecFns;

verus! {

/// The number that four bytes give when read most significant first.
pub open spec fn be_value(b: Seq<u8>) -> int
    recommends
        b.len() == 4,
{
    b[0] as int * 0x1000000 + b[1] as int * 0x10000 + b[2] as int * 0x100 + b[3] as int
}

/// The code by which the native library names a record type: its four-byte
/// signature (`b"NPC_"`) read most significant byte first.
pub fn signature_code(sig: [u8; 4]) -> (r: u32)
    ensures
        r == be_value(sig@),
{
    let b0 = sig[0] as u32;
    let b1 = sig[1] as u32;
    let b2 = sig[2] as u32;
    let b3 = sig[3] as u32;
    assert(b0 * 0x1000000 + b1 * 0x10000 + b2 * 0x100 + b3 <= u32::MAX) by (nonlinear_arith)
        requires
            b0 < 0x100,
            b1 < 0x100,
            b2 < 0x100,
            b3 < 0x100,
    ;
    b0 * 0x1000000 + b1 * 0x10000 + b2 * 0x100 + b3
}

/// The four bytes of `code`, most significant first.
pub open spec fn code_bytes(code: u32) -> Seq<u8> {
    seq![
        (code / 0x1000000) as u8,
        (code / 0x10000 % 0x100) as u8,
        (code / 0x100 % 0x100) as u8,
        (code % 0x100) as u8,
    ]
}

/// The four-byte signature of the record type with code `code`.
pub fn code_signature(code: u32) -> (r: [u8; 4])
    ensures
        r@ == code_bytes(code),
        be_value(r@) == code,
{
    let b0 = (code / 0x1000000) as u8;
    let b1 = (code / 0x10000 % 0x100) as u8;
    let b2 = (code / 0x100 % 0x100) as u8;
    let b3 = (code % 0x100) as u8;
    let r = [b0, b1, b2, b3];
    assert(r@ =~= code_bytes(code));
    assert(b0 as int * 0x1000000 + b1 as int * 0x10000 + b2 as int * 0x100 + b3 as int == code)
        by (nonlinear_arith)
        requires
            b0 == code / 0x1000000,
            b1 == code / 0x10000 % 0x100,
            b2 == code / 0x100 % 0x100,
            b3 == code % 0x100,
    ;
    r
}

/// Distinct four-byte signatures have distinct codes: reading a code back
/// into a signature gives the signature it came from.
pub proof fn lemma_be_value_injective(a: Seq<u8>, b: Seq<u8>)
    requires
        a.len() == 4,
        b.len() == 4,
        be_value(a) == be_value(b),
    ensures
        a == b,
{
    let (a0, a1, a2, a3) = (a[0] as int, a[1] as int, a[2] as int, a[3] as int);
    let (b0, b1, b2, b3) = (b[0] as int, b[1] as int, b[2] as int, b[3] as int);
    assert(a0 == b0 && a1 == b1 && a2 == b2 && a3 == b3) by (nonlinear_arith)
        requires
            0 <= a0 < 0x100,
            0 <= a1 < 0x100,
            0 <= a2 < 0x100,
            0 <= a3 < 0x100,
            0 <= b0 < 0x100,
            0 <= b1 < 0x100,
            0 <= b2 < 0x100,
            0 <= b3 < 0x100,
            a0 * 0x1000000 + a1 * 0x10000 + a2 * 0x100 + a3 == b0 * 0x1000000 + b1 * 0x10000
                + b2 * 0x100 + b3,
    ;
    assert(a =~= b);
}

/// The signature of a record type named by text: the first four bytes of the
/// text's UTF-8 encoding, or `None` where it has fewer.
pub fn signature_from_name(name: &str) -> (r: Option<[u8; 4]>)
    ensures
        r.is_some() <==> name.spec_bytes().len() >= 4,
        r matches Some(sig) ==> sig@ == name.spec_bytes().subrange(0, 4),
{
    let bytes = name.as_bytes();
    if bytes.len() < 4 {
        None
    } else {
        let sig = [bytes[0], bytes[1], bytes[2], bytes[3]];
        assert(sig@ =~= name.spec_bytes().subrange(0, 4));
        Some(sig)
    }
}

/// Relies on std::str::from_utf8: it accepts exactly the valid UTF-8 byte
/// strings, and the text it gives encodes to those bytes.
#[verifier::external_body]
fn utf8_text(b: &[u8]) -> (r: Option<String>)
    ensures
        r.is_some() <==> valid_utf8(b@),
        r matches Some(s) ==> s@ == decode_utf8(b@),
{
    match std::str::from_utf8(b) {
        Ok(s) => Some(s.to_string()),
        Err(_) => None,
    }
}

/// The signature `sig` as text, or `None` where its bytes are not UTF-8.
pub fn signature_text(sig: [u8; 4]) -> (r: Option<String>)
    ensures
        r.is_some() <==> valid_utf8(sig@),
        r matches Some(s) ==> s@ == decode_utf8(sig@),
{
    utf8_text(sig.as_slice())
}

/// The name of the record type with code `code`: its signature as text, or
/// `None` where the signature is not UTF-8.
pub fn record_type_name(code: u32) -> (r: Option<String>)
    ensures
        r.is_some() <==> valid_utf8(code_bytes(code)),
        r matches Some(s) ==> s@ == decode_utf8(code_bytes(code)),
{
    signature_text(code_signature(code))
}

/// A code read back from its bytes is the code, and the bytes of a
/// signature's code are the signature.
pub proof fn lemma_code_round_trip(code: u32, sig: Seq<u8>)
    requires
        sig.len() == 4,
    ensures
        be_value(code_bytes(code)) == code,
        code_bytes(be_value(sig) as u32) == sig,
{
    let b = code_bytes(code);
    let (c0, c1, c2, c3) = (b[0] as int, b[1] as int, b[2] as int, b[3] as int);
    assert(c0 * 0x1000000 + c1 * 0x10000 + c2 * 0x100 + c3 == code) by (nonlinear_arith)
        requires
            c0 == code / 0x1000000,
            c1 == code / 0x10000 % 0x100,
            c2 == code / 0x100 % 0x100,
            c3 == code % 0x100,
            0 <= code <= u32::MAX,
    ;
    let v = be_value(sig);
    assert(0 <= v <= u32::MAX) by (nonlinear_arith)
        requires
            v == sig[0] as int * 0x1000000 + sig[1] as int * 0x10000 + sig[2] as int * 0x100
                + sig[3] as int,
            0 <= sig[0] < 0x100,
            0 <= sig[1] < 0x100,
            0 <= sig[2] < 0x100,
            0 <= sig[3] < 0x100,
    ;
    let back = code_bytes(v as u32);
    assert(be_value(back) == v) by {
        let (d0, d1, d2, d3) = (back[0] as int, back[1] as int, back[2] as int, back[3] as int);
        let w = v as u32;
        assert(d0 * 0x1000000 + d1 * 0x10000 + d2 * 0x100 + d3 == w) by (nonlinear_arith)
            requires
                d0 == w / 0x1000000,
                d1 == w / 0x10000 % 0x100,
                d2 == w / 0x100 % 0x100,
                d3 == w % 0x100,
                0 <= w <= u32::MAX,
        ;
    }
    lemma_be_value_injective(back, sig);
}

} // verus!
