//! The byte layout in which the remote program reads numbers, text and
//! metadata: numbers little-endian at a fixed width, text and lists behind
//! a four-byte count, an optional value behind a one-byte tag.

use vstd::prelude::*;
use vstd::utf8::encode_utf8;
use crate::metadata::{
    creator_views, Collection, CollectionView, Creator, CreatorView, MetadataArgs, MetadataView,
    TokenStandard, Uses,
};

verus! {

/// The `width` low bytes of `x`, lowest first.
pub open spec fn le_bytes(x: nat, width: nat) -> Seq<u8>
    decreases width,
{
    if width == 0 {
        Seq::empty()
    } else {
        seq![(x % 256) as u8] + le_bytes(x / 256, (width - 1) as nat)
    }
}

/// A `u16` in two bytes, lowest first.
pub open spec fn u16_bytes(x: u16) -> Seq<u8> {
    le_bytes(x as nat, 2)
}

/// A `u32` in four bytes, lowest first.
pub open spec fn u32_bytes(x: u32) -> Seq<u8> {
    le_bytes(x as nat, 4)
}

/// A `u64` in eight bytes, lowest first.
pub open spec fn u64_bytes(x: u64) -> Seq<u8> {
    le_bytes(x as nat, 8)
}

/// One byte for a truth value.
pub open spec fn bool_byte(b: bool) -> u8 {
    if b {
        1
    } else {
        0
    }
}

/// Text in UTF-8 behind its length in bytes.
pub open spec fn string_bytes(s: Seq<char>) -> Seq<u8> {
    u32_bytes(encode_utf8(s).len() as u32) + encode_utf8(s)
}

/// An optional truth value: a zero, or a one and the value.
pub open spec fn option_bool_bytes(o: Option<bool>) -> Seq<u8> {
    match o {
        None => seq![0u8],
        Some(b) => seq![1u8, bool_byte(b)],
    }
}

/// An optional byte: a zero, or a one and the byte.
pub open spec fn option_u8_bytes(o: Option<u8>) -> Seq<u8> {
    match o {
        None => seq![0u8],
        Some(v) => seq![1u8, v],
    }
}

/// An optional token standard: a zero, or a one and the variant's number.
pub open spec fn option_token_standard_bytes(o: Option<TokenStandard>) -> Seq<u8> {
    match o {
        None => seq![0u8],
        Some(s) => seq![1u8, s.code()],
    }
}

/// A collection in thirty-three bytes: verified, key.
pub open spec fn collection_bytes(c: CollectionView) -> Seq<u8> {
    seq![bool_byte(c.verified)] + c.key
}

/// An optional collection: a zero, or a one and the collection.
pub open spec fn option_collection_bytes(o: Option<CollectionView>) -> Seq<u8> {
    match o {
        None => seq![0u8],
        Some(c) => seq![1u8] + collection_bytes(c),
    }
}

/// Uses in seventeen bytes: the method's number, what remains, the total.
pub open spec fn uses_bytes(u: Uses) -> Seq<u8> {
    seq![u.use_method.code()] + u64_bytes(u.remaining) + u64_bytes(u.total)
}

/// Optional uses: a zero, or a one and the uses.
pub open spec fn option_uses_bytes(o: Option<Uses>) -> Seq<u8> {
    match o {
        None => seq![0u8],
        Some(u) => seq![1u8] + uses_bytes(u),
    }
}

/// A creator in thirty-four bytes: address, verified, share.
pub open spec fn creator_bytes(c: CreatorView) -> Seq<u8> {
    c.address + seq![bool_byte(c.verified), c.share]
}

/// The creators of a list one after another, in the order of the list.
pub open spec fn creators_bytes(creators: Seq<CreatorView>) -> Seq<u8>
    decreases creators.len(),
{
    if creators.len() == 0 {
        Seq::empty()
    } else {
        creators_bytes(creators.drop_last()) + creator_bytes(creators.last())
    }
}

/// The layout has room for the metadata: each text and the list of
/// creators can state its length in four bytes.
pub open spec fn metadata_encodable(m: MetadataView) -> bool {
    &&& encode_utf8(m.name).len() <= u32::MAX
    &&& encode_utf8(m.symbol).len() <= u32::MAX
    &&& encode_utf8(m.uri).len() <= u32::MAX
    &&& m.creators.len() <= u32::MAX
}

/// Metadata in the layout of the remote program, field after field.
pub open spec fn metadata_bytes(m: MetadataView) -> Seq<u8> {
    string_bytes(m.name) + string_bytes(m.symbol) + string_bytes(m.uri) + u16_bytes(
        m.seller_fee_basis_points,
    ) + seq![bool_byte(m.primary_sale_happened), bool_byte(m.is_mutable)] + option_u8_bytes(
        m.edition_nonce,
    ) + option_token_standard_bytes(m.token_standard) + option_collection_bytes(m.collection)
        + option_uses_bytes(m.uses) + seq![m.token_program_version.code()] + u32_bytes(
        m.creators.len() as u32,
    ) + creators_bytes(m.creators)
}

/// A little-endian number has as many bytes as its width.
pub proof fn lemma_le_bytes_len(x: nat, width: nat)
    ensures
        le_bytes(x, width).len() == width,
    decreases width,
{
    if width > 0 {
        lemma_le_bytes_len(x / 256, (width - 1) as nat);
    }
}

/// Appends the `width` low bytes of `x`, lowest first.
fn push_le(out: &mut Vec<u8>, x: u64, width: usize)
    requires
        width <= 8,
    ensures
        final(out)@ == old(out)@ + le_bytes(x as nat, width as nat),
{
    let ghost start = out@;
    let mut rest: u64 = x;
    let mut i: usize = 0;
    while i < width
        invariant
            i <= width,
            out@ + le_bytes(rest as nat, (width - i) as nat) == start + le_bytes(
                x as nat,
                width as nat,
            ),
        decreases width - i,
    {
        let ghost before = out@;
        let ghost prior = rest;
        out.push((rest % 256) as u8);
        rest = rest / 256;
        i += 1;
        assert(before + le_bytes(prior as nat, (width - i + 1) as nat) =~= out@ + le_bytes(
            rest as nat,
            (width - i) as nat,
        ));
    }
    assert(out@ + le_bytes(rest as nat, 0) =~= out@);
}

/// Appends a `u16` in two bytes, lowest first.
pub fn push_u16(out: &mut Vec<u8>, x: u16)
    ensures
        final(out)@ == old(out)@ + u16_bytes(x),
{
    push_le(out, x as u64, 2);
}

/// Appends a `u32` in four bytes, lowest first.
pub fn push_u32(out: &mut Vec<u8>, x: u32)
    ensures
        final(out)@ == old(out)@ + u32_bytes(x),
{
    push_le(out, x as u64, 4);
}

/// Appends a `u64` in eight bytes, lowest first.
pub fn push_u64(out: &mut Vec<u8>, x: u64)
    ensures
        final(out)@ == old(out)@ + u64_bytes(x),
{
    push_le(out, x, 8);
}

/// Appends one byte for a truth value.
pub fn push_bool(out: &mut Vec<u8>, b: bool)
    ensures
        final(out)@ == old(out)@.push(bool_byte(b)),
{
    out.push(if b { 1 } else { 0 });
}

/// Appends bytes as they are.
pub fn push_bytes(out: &mut Vec<u8>, bytes: &[u8])
    ensures
        final(out)@ == old(out)@ + bytes@,
{
    let ghost start = out@;
    let mut i: usize = 0;
    while i < bytes.len()
        invariant
            i <= bytes.len(),
            out@ == start + bytes@.take(i as int),
        decreases bytes.len() - i,
    {
        out.push(bytes[i]);
        i += 1;
        assert(out@ =~= start + bytes@.take(i as int));
    }
    assert(bytes@.take(bytes@.len() as int) =~= bytes@);
}

/// Appends text behind its length; refuses text that is too long to state
/// its length, and then appends nothing.
pub fn push_string(out: &mut Vec<u8>, s: &String) -> (written: bool)
    ensures
        written <==> encode_utf8(s@).len() <= u32::MAX,
        written ==> final(out)@ == old(out)@ + string_bytes(s@),
        !written ==> final(out)@ == old(out)@,
{
    let bytes = s.as_str().as_bytes();
    let len: usize = bytes.len();
    if len > 0xffff_ffff {
        return false;
    }
    let ghost start = out@;
    push_u32(out, len as u32);
    push_bytes(out, bytes);
    assert(out@ =~= start + string_bytes(s@));
    true
}

/// Appends an optional truth value.
pub fn push_option_bool(out: &mut Vec<u8>, o: Option<bool>)
    ensures
        final(out)@ == old(out)@ + option_bool_bytes(o),
{
    let ghost start = out@;
    match o {
        None => {
            out.push(0);
        },
        Some(b) => {
            out.push(1);
            push_bool(out, b);
        },
    }
    assert(out@ =~= start + option_bool_bytes(o));
}

/// Appends an optional byte.
fn push_option_u8(out: &mut Vec<u8>, o: Option<u8>)
    ensures
        final(out)@ == old(out)@ + option_u8_bytes(o),
{
    let ghost start = out@;
    match o {
        None => {
            out.push(0);
        },
        Some(v) => {
            out.push(1);
            out.push(v);
        },
    }
    assert(out@ =~= start + option_u8_bytes(o));
}

/// Appends an optional token standard.
fn push_option_token_standard(out: &mut Vec<u8>, o: Option<TokenStandard>)
    ensures
        final(out)@ == old(out)@ + option_token_standard_bytes(o),
{
    let ghost start = out@;
    match o {
        None => {
            out.push(0);
        },
        Some(s) => {
            out.push(1);
            out.push(s.to_code());
        },
    }
    assert(out@ =~= start + option_token_standard_bytes(o));
}

/// Appends an optional collection.
fn push_option_collection(out: &mut Vec<u8>, o: Option<Collection>)
    ensures
        final(out)@ == old(out)@ + option_collection_bytes(
            match o {
                Some(c) => Some(c@),
                None => None,
            },
        ),
{
    let ghost start = out@;
    match o {
        None => {
            out.push(0);
        },
        Some(c) => {
            out.push(1);
            push_bool(out, c.verified);
            push_bytes(out, c.key.bytes.as_slice());
        },
    }
    assert(out@ =~= start + option_collection_bytes(
        match o {
            Some(c) => Some(c@),
            None => None,
        },
    ));
}

/// Appends optional uses.
fn push_option_uses(out: &mut Vec<u8>, o: Option<Uses>)
    ensures
        final(out)@ == old(out)@ + option_uses_bytes(o),
{
    let ghost start = out@;
    match o {
        None => {
            out.push(0);
        },
        Some(u) => {
            out.push(1);
            out.push(u.use_method.to_code());
            push_u64(out, u.remaining);
            push_u64(out, u.total);
        },
    }
    assert(out@ =~= start + option_uses_bytes(o));
}

/// Appends one creator.
pub fn push_creator(out: &mut Vec<u8>, c: &Creator)
    ensures
        final(out)@ == old(out)@ + creator_bytes(c@),
{
    let ghost start = out@;
    push_bytes(out, c.address.bytes.as_slice());
    push_bool(out, c.verified);
    out.push(c.share);
    assert(out@ =~= start + creator_bytes(c@));
}

/// Appends the creators of a list in order.
pub fn push_creators(out: &mut Vec<u8>, creators: &Vec<Creator>)
    ensures
        final(out)@ == old(out)@ + creators_bytes(creator_views(creators@)),
{
    let ghost start = out@;
    let ghost views = creator_views(creators@);
    let mut i: usize = 0;
    while i < creators.len()
        invariant
            i <= creators.len(),
            views == creator_views(creators@),
            out@ == start + creators_bytes(views.take(i as int)),
        decreases creators.len() - i,
    {
        let ghost before = out@;
        push_creator(out, &creators[i]);
        i += 1;
        proof {
            let upto = views.take(i as int);
            assert(upto.drop_last() =~= views.take(i - 1));
            assert(upto.last() == creators@[i - 1]@);
            assert(out@ =~= start + creators_bytes(upto));
        }
    }
    assert(views.take(creators@.len() as int) =~= views);
}

/// Metadata in the layout of the remote program; `None` exactly when a
/// length in it cannot be stated in four bytes.
pub fn metadata_to_bytes(m: &MetadataArgs) -> (bytes: Option<Vec<u8>>)
    ensures
        bytes is Some <==> metadata_encodable(m@),
        bytes matches Some(b) ==> b@ == metadata_bytes(m@),
{
    let mut out: Vec<u8> = Vec::new();
    if !push_string(&mut out, &m.name) {
        return None;
    }
    if !push_string(&mut out, &m.symbol) {
        return None;
    }
    if !push_string(&mut out, &m.uri) {
        return None;
    }
    if m.creators.len() > 0xffff_ffff {
        return None;
    }
    push_u16(&mut out, m.seller_fee_basis_points);
    push_bool(&mut out, m.primary_sale_happened);
    push_bool(&mut out, m.is_mutable);
    push_option_u8(&mut out, m.edition_nonce);
    push_option_token_standard(&mut out, m.token_standard);
    push_option_collection(&mut out, m.collection);
    push_option_uses(&mut out, m.uses);
    out.push(m.token_program_version.to_code());
    push_u32(&mut out, m.creators.len() as u32);
    push_creators(&mut out, &m.creators);
    assert(out@ =~= metadata_bytes(m@));
    Some(out)
}

} // verus!
