//! Netlink attributes: length-prefixed, typed fields padded to four bytes.
//!
//! On the wire an attribute is a 16-bit length that counts the header and the
//! payload, a 16-bit type, the payload, and zero bytes up to the next
//! multiple of four.

use crate::endian::{get_u16, put_u16, spec_u16_bytes, spec_u16_value, Endian};
use crate::error::ProtocolError;
use vstd::prelude::*;
use vstd::slice::{slice_subrange, slice_to_vec};

verus! {

/// Bytes taken by an attribute's length and type fields.
pub const ATTR_HEADER_LEN: usize = 4;

/// The largest payload whose attribute length still fits in 16 bits.
pub const ATTR_MAX_PAYLOAD: usize = 65531;

/// Set in an attribute's type when its payload holds attributes itself.
pub const ATTR_NESTED: u16 = 0x8000;

/// Set in an attribute's type when its payload is in network byte order.
pub const ATTR_NET_BYTEORDER: u16 = 0x4000;

/// The bits of an attribute's type that hold the type code.
pub const ATTR_TYPE_MASK: u16 = 0x3fff;

/// One attribute: the 16-bit type field as sent, and the payload.
#[derive(Clone, Debug, PartialEq, Eq)]
pub struct Attribute {
    pub kind: u16,
    pub payload: Vec<u8>,
}

/// What an attribute is in contracts.
pub struct AttributeView {
    pub kind: u16,
    pub payload: Seq<u8>,
}

impl View for Attribute {
    type V = AttributeView;

    open spec fn view(&self) -> AttributeView {
        AttributeView { kind: self.kind, payload: self.payload@ }
    }
}

/// The views of a list of attributes, in order.
pub open spec fn attrs_view(attrs: Seq<Attribute>) -> Seq<AttributeView> {
    Seq::new(attrs.len(), |i: int| attrs[i]@)
}

/// Zero bytes needed after `n` bytes to reach a multiple of four.
pub open spec fn pad_len(n: int) -> int {
    (4 - n % 4) % 4
}

/// `n` zero bytes.
pub open spec fn zeros(n: int) -> Seq<u8> {
    Seq::new(n as nat, |i: int| 0u8)
}

/// Whether the attribute's length fits in its 16-bit length field.
pub open spec fn attr_fits(a: AttributeView) -> bool {
    a.payload.len() <= ATTR_MAX_PAYLOAD
}

/// Whether every attribute of the list fits.
pub open spec fn attrs_fit(attrs: Seq<AttributeView>) -> bool {
    forall|i: int| 0 <= i < attrs.len() ==> attr_fits(#[trigger] attrs[i])
}

/// The wire form of one attribute.
pub open spec fn spec_encode_attr(order: Endian, a: AttributeView) -> Seq<u8> {
    spec_u16_bytes(order, (ATTR_HEADER_LEN + a.payload.len()) as u16) + spec_u16_bytes(
        order,
        a.kind,
    ) + a.payload + zeros(pad_len(a.payload.len() as int))
}

/// The wire form of a list of attributes: one after the other.
pub open spec fn spec_encode_attrs(order: Endian, attrs: Seq<AttributeView>) -> Seq<u8>
    decreases attrs.len(),
{
    if attrs.len() == 0 {
        Seq::empty()
    } else {
        spec_encode_attr(order, attrs[0]) + spec_encode_attrs(order, attrs.skip(1))
    }
}

/// Puts `head` in front of a parse result.
pub open spec fn prepend_attrs(
    head: Seq<AttributeView>,
    tail: Result<Seq<AttributeView>, ProtocolError>,
) -> Result<Seq<AttributeView>, ProtocolError> {
    match tail {
        Ok(rest) => Ok(head + rest),
        Err(e) => Err(e),
    }
}

/// How far the attribute of length `len` at the start of `total` bytes
/// reaches with its padding; the last attribute may come without it.
pub open spec fn padded_stride(len: int, total: int) -> int {
    if len + pad_len(len) <= total {
        len + pad_len(len)
    } else {
        total
    }
}

/// The attributes that a byte string holds, or why it holds none.
///
/// Fewer than four bytes left over are `Truncated`; a length below four is
/// `BadLength`; a length that reaches past the end is `Overrun`.
#[verifier::opaque]
pub open spec fn spec_parse_attrs(order: Endian, b: Seq<u8>) -> Result<
    Seq<AttributeView>,
    ProtocolError,
>
    decreases b.len(),
{
    if b.len() == 0 {
        Ok(Seq::empty())
    } else if b.len() < ATTR_HEADER_LEN {
        Err(ProtocolError::Truncated)
    } else {
        let len = spec_u16_value(order, b.subrange(0, 2)) as int;
        let kind = spec_u16_value(order, b.subrange(2, 4));
        if len < ATTR_HEADER_LEN {
            Err(ProtocolError::BadLength)
        } else if len > b.len() {
            Err(ProtocolError::Overrun)
        } else {
            prepend_attrs(
                seq![AttributeView { kind, payload: b.subrange(4, len) }],
                spec_parse_attrs(order, b.skip(padded_stride(len, b.len() as int))),
            )
        }
    }
}

/// The view of a parse result.
pub open spec fn attrs_result_view(r: Result<Vec<Attribute>, ProtocolError>) -> Result<
    Seq<AttributeView>,
    ProtocolError,
> {
    match r {
        Ok(v) => Ok(attrs_view(v@)),
        Err(e) => Err(e),
    }
}

/// The first attribute whose type code, flag bits masked off, is `code`.
pub open spec fn spec_find_attr(attrs: Seq<AttributeView>, code: u16) -> Option<int>
    decreases attrs.len(),
{
    if attrs.len() == 0 {
        None
    } else if attrs[0].kind & ATTR_TYPE_MASK == code {
        Some(0int)
    } else {
        match spec_find_attr(attrs.skip(1), code) {
            Some(i) => Some(i + 1),
            None => None,
        }
    }
}

/// `spec_find_attr` returns the least index that matches, and `None` only
/// when no attribute matches.
pub proof fn lemma_find_attr(attrs: Seq<AttributeView>, code: u16)
    ensures
        match spec_find_attr(attrs, code) {
            Some(i) => 0 <= i < attrs.len() && attrs[i].kind & ATTR_TYPE_MASK == code
                && forall|j: int|
                0 <= j < i ==> (#[trigger] attrs[j]).kind & ATTR_TYPE_MASK != code,
            None => forall|j: int|
                0 <= j < attrs.len() ==> (#[trigger] attrs[j]).kind & ATTR_TYPE_MASK != code,
        },
    decreases attrs.len(),
{
    if attrs.len() > 0 && attrs[0].kind & ATTR_TYPE_MASK != code {
        let tail = attrs.skip(1);
        lemma_find_attr(tail, code);
        match spec_find_attr(tail, code) {
            Some(i) => {
                assert forall|j: int| 0 <= j < i + 1 implies (#[trigger] attrs[j]).kind
                    & ATTR_TYPE_MASK != code by {
                    if j > 0 {
                        assert(attrs[j] == tail[j - 1]);
                    }
                }
            },
            None => {
                assert forall|j: int| 0 <= j < attrs.len() implies (#[trigger] attrs[j]).kind
                    & ATTR_TYPE_MASK != code by {
                    if j > 0 {
                        assert(attrs[j] == tail[j - 1]);
                    }
                }
            },
        }
    }
}

/// The wire form of one attribute is a multiple of four bytes long.
pub proof fn lemma_encode_attr_len(order: Endian, a: AttributeView)
    ensures
        spec_encode_attr(order, a).len() == ATTR_HEADER_LEN + a.payload.len() + pad_len(
            a.payload.len() as int,
        ),
        spec_encode_attr(order, a).len() % 4 == 0,
        0 <= pad_len(a.payload.len() as int) < 4,
{
}

/// An attribute in front of other bytes is parsed off them.
pub proof fn lemma_parse_attr_step(order: Endian, a: AttributeView, rest: Seq<u8>)
    requires
        attr_fits(a),
    ensures
        spec_parse_attrs(order, spec_encode_attr(order, a) + rest) == prepend_attrs(
            seq![a],
            spec_parse_attrs(order, rest),
        ),
{
    let n = a.payload.len() as int;
    let len = ATTR_HEADER_LEN + n;
    let head = spec_encode_attr(order, a);
    let b = head + rest;
    let l = spec_u16_bytes(order, len as u16);
    let k = spec_u16_bytes(order, a.kind);
    let z = zeros(pad_len(n));
    reveal_with_fuel(spec_parse_attrs, 1);
    lemma_encode_attr_len(order, a);
    crate::endian::law_u16_round_trip(order, len as u16);
    crate::endian::law_u16_round_trip(order, a.kind);
    assert(l.len() == 2 && k.len() == 2);
    assert(head =~= l + k + a.payload + z);
    assert(b.subrange(0, 2) =~= l);
    assert(b.subrange(2, 4) =~= k);
    assert(b.subrange(4, len) =~= a.payload);
    assert(pad_len(len) == pad_len(n));
    assert(padded_stride(len, b.len() as int) == head.len());
    assert(b.skip(head.len() as int) =~= rest);
    assert(spec_u16_value(order, b.subrange(0, 2)) == len);
    assert(spec_u16_value(order, b.subrange(2, 4)) == a.kind);
}

/// The wire form of a list of attributes is a multiple of four bytes long.
pub proof fn lemma_encode_attrs_aligned(order: Endian, attrs: Seq<AttributeView>)
    ensures
        spec_encode_attrs(order, attrs).len() % 4 == 0,
    decreases attrs.len(),
{
    if attrs.len() > 0 {
        let head = spec_encode_attr(order, attrs[0]);
        let rest = spec_encode_attrs(order, attrs.skip(1));
        lemma_encode_attrs_aligned(order, attrs.skip(1));
        lemma_encode_attr_len(order, attrs[0]);
        assert(spec_encode_attrs(order, attrs) == head + rest);
        assert((head + rest).len() == head.len() + rest.len());
    }
}

/// The wire form of a list of attributes that fit takes at most 65536 bytes
/// for each.
pub proof fn lemma_encode_attrs_bound(order: Endian, attrs: Seq<AttributeView>)
    requires
        attrs_fit(attrs),
    ensures
        spec_encode_attrs(order, attrs).len() <= 65536 * attrs.len(),
    decreases attrs.len(),
{
    if attrs.len() > 0 {
        let head = spec_encode_attr(order, attrs[0]);
        let tail = attrs.skip(1);
        let rest = spec_encode_attrs(order, tail);
        assert(attrs_fit(tail)) by {
            assert forall|i: int| 0 <= i < tail.len() implies attr_fits(#[trigger] tail[i]) by {
                assert(tail[i] == attrs[i + 1]);
            }
        }
        assert(attr_fits(attrs[0]));
        lemma_encode_attrs_bound(order, tail);
        lemma_encode_attr_len(order, attrs[0]);
        assert(spec_encode_attrs(order, attrs) == head + rest);
        assert((head + rest).len() == head.len() + rest.len());
    }
}

/// Parsing the wire form of a list of attributes gives the list back.
pub proof fn law_attrs_round_trip(order: Endian, attrs: Seq<AttributeView>)
    requires
        attrs_fit(attrs),
    ensures
        spec_parse_attrs(order, spec_encode_attrs(order, attrs)) == Ok::<
            Seq<AttributeView>,
            ProtocolError,
        >(attrs),
    decreases attrs.len(),
{
    if attrs.len() == 0 {
        reveal_with_fuel(spec_parse_attrs, 1);
        assert(attrs =~= Seq::<AttributeView>::empty());
    } else {
        let a = attrs[0];
        let tail = attrs.skip(1);
        let rest = spec_encode_attrs(order, tail);
        assert(attrs_fit(tail)) by {
            assert forall|i: int| 0 <= i < tail.len() implies attr_fits(#[trigger] tail[i]) by {
                assert(tail[i] == attrs[i + 1]);
            }
        }
        law_attrs_round_trip(order, tail);
        lemma_parse_attr_step(order, a, rest);
        assert(seq![a] + tail =~= attrs);
    }
}

/// Zero bytes needed after `n` bytes to reach a multiple of four.
pub fn padding(n: usize) -> (p: usize)
    ensures
        p == pad_len(n as int),
        p < 4,
{
    (4 - n % 4) % 4
}

/// Appends `n` zero bytes to `out`.
pub fn put_zeros(n: usize, out: &mut Vec<u8>)
    ensures
        final(out)@ == old(out)@ + zeros(n as int),
{
    let mut i: usize = 0;
    while i < n
        invariant
            i <= n,
            out@ == old(out)@ + zeros(i as int),
        decreases n - i,
    {
        out.push(0u8);
        i = i + 1;
        assert(out@ =~= old(out)@ + zeros(i as int));
    }
}

/// Appends the wire form of one attribute to `out`.
fn put_attr(order: Endian, attr: &Attribute, out: &mut Vec<u8>)
    requires
        attr_fits(attr@),
    ensures
        final(out)@ == old(out)@ + spec_encode_attr(order, attr@),
{
    let n = attr.payload.len();
    put_u16(order, (ATTR_HEADER_LEN + n) as u16, out);
    put_u16(order, attr.kind, out);
    out.extend_from_slice(attr.payload.as_slice());
    put_zeros(padding(n), out);
    assert(out@ =~= old(out)@ + spec_encode_attr(order, attr@));
}

/// The wire form of a list of attributes.
///
/// Fails with `TooLarge` exactly when some payload is longer than
/// `ATTR_MAX_PAYLOAD`.
pub fn encode_attrs(order: Endian, attrs: &Vec<Attribute>) -> (r: Result<Vec<u8>, ProtocolError>)
    ensures
        match r {
            Ok(bytes) => attrs_fit(attrs_view(attrs@)) && bytes@ == spec_encode_attrs(
                order,
                attrs_view(attrs@),
            ),
            Err(e) => e == ProtocolError::TooLarge && !attrs_fit(attrs_view(attrs@)),
        },
{
    let ghost all = attrs_view(attrs@);
    let mut out: Vec<u8> = Vec::new();
    let mut i: usize = 0;
    assert(all.skip(0) =~= all);
    assert(out@ + spec_encode_attrs(order, all) =~= spec_encode_attrs(order, all));
    while i < attrs.len()
        invariant
            i <= attrs.len(),
            all == attrs_view(attrs@),
            forall|j: int| 0 <= j < i ==> attr_fits(#[trigger] all[j]),
            out@ + spec_encode_attrs(order, all.skip(i as int)) == spec_encode_attrs(order, all),
        decreases attrs.len() - i,
    {
        if attrs[i].payload.len() > ATTR_MAX_PAYLOAD {
            assert(!attr_fits(all[i as int]));
            return Err(ProtocolError::TooLarge);
        }
        let ghost before = out@;
        put_attr(order, &attrs[i], &mut out);
        proof {
            let rest = all.skip(i as int);
            assert(rest[0] == attrs[i as int]@);
            assert(rest.skip(1) =~= all.skip(i + 1));
            assert(out@ + spec_encode_attrs(order, all.skip(i + 1)) =~= before + spec_encode_attrs(
                order,
                rest,
            ));
        }
        i = i + 1;
    }
    assert(out@ =~= spec_encode_attrs(order, all)) by {
        assert(all.skip(i as int).len() == 0);
    }
    Ok(out)
}

/// The attributes that `bytes` holds.
pub fn parse_attrs(order: Endian, bytes: &[u8]) -> (r: Result<Vec<Attribute>, ProtocolError>)
    ensures
        attrs_result_view(r) == spec_parse_attrs(order, bytes@),
{
    let mut out: Vec<Attribute> = Vec::new();
    let mut pos: usize = 0;
    proof {
        reveal_with_fuel(spec_parse_attrs, 1);
        assert(bytes@.skip(0) =~= bytes@);
        let whole = spec_parse_attrs(order, bytes@);
        if let Ok(t) = whole {
            assert(attrs_view(out@) + t =~= t);
        }
    }
    while pos < bytes.len()
        invariant
            pos <= bytes.len(),
            spec_parse_attrs(order, bytes@) == prepend_attrs(
                attrs_view(out@),
                spec_parse_attrs(order, bytes@.skip(pos as int)),
            ),
        decreases bytes.len() - pos,
    {
        let ghost rest = bytes@.skip(pos as int);
        let ghost seen = attrs_view(out@);
        proof {
            reveal_with_fuel(spec_parse_attrs, 1);
        }
        let left = bytes.len() - pos;
        if left < ATTR_HEADER_LEN {
            return Err(ProtocolError::Truncated);
        }
        let len = get_u16(order, bytes, pos) as usize;
        let kind = get_u16(order, bytes, pos + 2);
        proof {
            assert(rest.subrange(0, 2) =~= bytes@.subrange(pos as int, pos + 2));
            assert(rest.subrange(2, 4) =~= bytes@.subrange(pos + 2, pos + 4));
        }
        if len < ATTR_HEADER_LEN {
            return Err(ProtocolError::BadLength);
        }
        if len > left {
            return Err(ProtocolError::Overrun);
        }
        let payload = slice_to_vec(slice_subrange(bytes, pos + 4, pos + len));
        let attr = Attribute { kind, payload };
        let stride = len + padding(len);
        let step = if stride <= left {
            stride
        } else {
            left
        };
        proof {
            assert(rest.subrange(4, len as int) =~= bytes@.subrange(pos + 4, pos + len));
            assert(step == padded_stride(len as int, rest.len() as int));
            assert(rest.skip(step as int) =~= bytes@.skip(pos + step));
            let tail = spec_parse_attrs(order, bytes@.skip(pos + step));
            assert(spec_parse_attrs(order, rest) == prepend_attrs(seq![attr@], tail));
            assert(attrs_view(out@.push(attr)) =~= seen + seq![attr@]);
            match tail {
                Ok(t) => {
                    assert(seen + (seq![attr@] + t) =~= (seen + seq![attr@]) + t);
                },
                Err(_) => {},
            }
        }
        out.push(attr);
        pos = pos + step;
    }
    proof {
        reveal_with_fuel(spec_parse_attrs, 1);
        assert(attrs_view(out@) + Seq::<AttributeView>::empty() =~= attrs_view(out@));
    }
    Ok(out)
}

/// The first attribute whose type code, flag bits masked off, is `code`.
pub fn find_attribute(attrs: &Vec<Attribute>, code: u16) -> (r: Option<usize>)
    ensures
        match r {
            Some(i) => spec_find_attr(attrs_view(attrs@), code) == Some(i as int) && i
                < attrs.len() && attrs[i as int].kind & ATTR_TYPE_MASK == code && forall|j: int|
                0 <= j < i ==> (#[trigger] attrs[j]).kind & ATTR_TYPE_MASK != code,
            None => spec_find_attr(attrs_view(attrs@), code) == None::<int> && forall|j: int|
                0 <= j < attrs.len() ==> (#[trigger] attrs[j]).kind & ATTR_TYPE_MASK != code,
        },
{
    let ghost all = attrs_view(attrs@);
    let mut i: usize = 0;
    assert(all.skip(0) =~= all);
    while i < attrs.len()
        invariant
            i <= attrs.len(),
            all == attrs_view(attrs@),
            spec_find_attr(all, code) == match spec_find_attr(all.skip(i as int), code) {
                Some(k) => Some(k + i),
                None => None,
            },
        decreases attrs.len() - i,
    {
        proof {
            let rest = all.skip(i as int);
            assert(rest[0] == attrs[i as int]@);
            assert(rest.skip(1) =~= all.skip(i + 1));
        }
        if attrs[i].kind & ATTR_TYPE_MASK == code {
            proof {
                lemma_find_attr(all, code);
                assert forall|j: int| 0 <= j < attrs.len() implies (#[trigger] attrs[j]).kind
                    == all[j].kind by {}
            }
            return Some(i);
        }
        i = i + 1;
    }
    proof {
        lemma_find_attr(all, code);
        assert forall|j: int| 0 <= j < attrs.len() implies (#[trigger] attrs[j]).kind
            == all[j].kind by {}
    }
    None
}

/// The payload of the first attribute with type code `code`.
pub open spec fn spec_attr_payload(attrs: Seq<AttributeView>, code: u16) -> Option<Seq<u8>> {
    match spec_find_attr(attrs, code) {
        Some(i) => Some(attrs[i].payload),
        None => None,
    }
}

/// The payload of the first attribute with type code `code`.
pub fn attribute_payload(attrs: &Vec<Attribute>, code: u16) -> (r: Option<&[u8]>)
    ensures
        match r {
            Some(p) => spec_attr_payload(attrs_view(attrs@), code) == Some(p@),
            None => spec_attr_payload(attrs_view(attrs@), code) == None::<Seq<u8>>,
        },
{
    match find_attribute(attrs, code) {
        Some(i) => {
            assert(attrs_view(attrs@)[i as int] == attrs[i as int]@);
            Some(attrs[i].payload.as_slice())
        },
        None => None,
    }
}

} // verus!
