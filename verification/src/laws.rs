//! What holds of the layouts and of the digests whatever the input.
//!
//! A digest is a function of the bytes that are hashed, so equal inputs
//! give equal digests.  That unequal inputs give unequal digests cannot be
//! proved of any hash; what is proved here is that unequal inputs are
//! hashed from unequal bytes.

use vstd::prelude::*;
use vstd::utf8::{encode_utf8, encode_utf8_decode_utf8};
use crate::encoding::{
    bool_byte, creator_bytes, creators_bytes, le_bytes, lemma_le_bytes_len, metadata_bytes,
    metadata_encodable, option_collection_bytes, option_token_standard_bytes, option_u8_bytes,
    option_uses_bytes, string_bytes, u16_bytes, u32_bytes, u64_bytes,
};
use crate::metadata::{
    creators_well_formed, lemma_metadata_well_formed, CollectionView, CreatorView, MetadataArgs,
    MetadataView, TokenStandard, Uses,
};
use crate::programs::MPL_BUBBLEGUM_ID;
use crate::pubkey::Pubkey;
use crate::sdk::{keccak_digest, program_address};
use crate::types::{metadata_rejection, ElixirMetadataView};
use crate::utils::{
    asset_seeds, creator_parts, data_hash_parts, metadata_digest, ASSET_PREFIX,
};

verus! {

/// The first number that `width` bytes cannot hold.
pub open spec fn width_limit(width: nat) -> nat
    decreases width,
{
    if width == 0 {
        1
    } else {
        256 * width_limit((width - 1) as nat)
    }
}

/// Two, four and eight bytes hold what `u16`, `u32` and `u64` hold.
pub proof fn lemma_width_limits()
    ensures
        width_limit(1) == 0x100,
        width_limit(2) == 0x1_0000,
        width_limit(4) == 0x1_0000_0000,
        width_limit(8) == 0x1_0000_0000_0000_0000,
{
    reveal_with_fuel(width_limit, 9);
}

/// Numbers that fit the width and have the same bytes are the same number.
pub proof fn lemma_le_bytes_injective(x: nat, y: nat, width: nat)
    requires
        x < width_limit(width),
        y < width_limit(width),
        le_bytes(x, width) == le_bytes(y, width),
    ensures
        x == y,
    decreases width,
{
    if width > 0 {
        let bx = le_bytes(x, width);
        let by = le_bytes(y, width);
        lemma_le_bytes_len(x / 256, (width - 1) as nat);
        lemma_le_bytes_len(y / 256, (width - 1) as nat);
        assert(bx[0] == (x % 256) as u8);
        assert(by[0] == (y % 256) as u8);
        assert(le_bytes(x / 256, (width - 1) as nat) =~= bx.subrange(1, width as int));
        assert(le_bytes(y / 256, (width - 1) as nat) =~= by.subrange(1, width as int));
        lemma_le_bytes_injective(x / 256, y / 256, (width - 1) as nat);
    }
}

/// Where two byte strings are equal and begin with parts of equal length,
/// the parts are equal and so is what follows them.
pub proof fn lemma_split(a1: Seq<u8>, r1: Seq<u8>, a2: Seq<u8>, r2: Seq<u8>)
    requires
        a1 + r1 == a2 + r2,
        a1.len() == a2.len(),
    ensures
        a1 == a2,
        r1 == r2,
{
    let whole = a1 + r1;
    assert(a1 =~= whole.subrange(0, a1.len() as int));
    assert(a2 =~= (a2 + r2).subrange(0, a2.len() as int));
    assert(r1 =~= whole.subrange(a1.len() as int, whole.len() as int));
    assert(r2 =~= (a2 + r2).subrange(a2.len() as int, (a2 + r2).len() as int));
}

/// A number in `width` bytes can be read back from the front of a byte
/// string.
pub proof fn lemma_number_prefix(
    x: nat,
    r1: Seq<u8>,
    y: nat,
    r2: Seq<u8>,
    width: nat,
)
    requires
        x < width_limit(width),
        y < width_limit(width),
        le_bytes(x, width) + r1 == le_bytes(y, width) + r2,
    ensures
        x == y,
        r1 == r2,
{
    lemma_le_bytes_len(x, width);
    lemma_le_bytes_len(y, width);
    lemma_split(le_bytes(x, width), r1, le_bytes(y, width), r2);
    lemma_le_bytes_injective(x, y, width);
}

/// A text can be read back from the front of a byte string.
pub proof fn lemma_string_prefix(s1: Seq<char>, r1: Seq<u8>, s2: Seq<char>, r2: Seq<u8>)
    requires
        encode_utf8(s1).len() <= u32::MAX,
        encode_utf8(s2).len() <= u32::MAX,
        string_bytes(s1) + r1 == string_bytes(s2) + r2,
    ensures
        s1 == s2,
        r1 == r2,
{
    lemma_width_limits();
    let e1 = encode_utf8(s1);
    let e2 = encode_utf8(s2);
    assert(string_bytes(s1) + r1 =~= le_bytes(e1.len(), 4) + (e1 + r1));
    assert(string_bytes(s2) + r2 =~= le_bytes(e2.len(), 4) + (e2 + r2));
    lemma_number_prefix(e1.len(), e1 + r1, e2.len(), e2 + r2, 4);
    lemma_split(e1, r1, e2, r2);
    encode_utf8_decode_utf8(s1);
    encode_utf8_decode_utf8(s2);
}

/// Addresses with the same bytes are the same address.
pub proof fn lemma_pubkey_by_bytes(a: Pubkey, b: Pubkey)
    requires
        a@ == b@,
    ensures
        a == b,
{
    assert(a.bytes =~= b.bytes);
}

/// An optional byte can be read back from the front of a byte string.
pub proof fn lemma_option_u8_prefix(o1: Option<u8>, r1: Seq<u8>, o2: Option<u8>, r2: Seq<u8>)
    requires
        option_u8_bytes(o1) + r1 == option_u8_bytes(o2) + r2,
    ensures
        o1 == o2,
        r1 == r2,
{
    let w1 = option_u8_bytes(o1) + r1;
    let w2 = option_u8_bytes(o2) + r2;
    assert(w1[0] == w2[0]);
    assert(w1[0] == option_u8_bytes(o1)[0]);
    assert(w2[0] == option_u8_bytes(o2)[0]);
    lemma_split(option_u8_bytes(o1), r1, option_u8_bytes(o2), r2);
    if o1 is Some {
        assert(option_u8_bytes(o1)[1] == o1.unwrap());
        assert(option_u8_bytes(o2)[1] == o2.unwrap());
    }
}

/// An optional token standard can be read back from the front of a byte
/// string.
pub proof fn lemma_option_token_standard_prefix(
    o1: Option<TokenStandard>,
    r1: Seq<u8>,
    o2: Option<TokenStandard>,
    r2: Seq<u8>,
)
    requires
        option_token_standard_bytes(o1) + r1 == option_token_standard_bytes(o2) + r2,
    ensures
        o1 == o2,
        r1 == r2,
{
    let left = option_token_standard_bytes(o1);
    let right = option_token_standard_bytes(o2);
    assert((left + r1)[0] == left[0]);
    assert((right + r2)[0] == right[0]);
    lemma_split(left, r1, right, r2);
    if o1 is Some {
        assert(left[1] == o1.unwrap().code());
        assert(right[1] == o2.unwrap().code());
    }
}

/// An optional collection can be read back from the front of a byte
/// string.
pub proof fn lemma_option_collection_prefix(
    o1: Option<CollectionView>,
    r1: Seq<u8>,
    o2: Option<CollectionView>,
    r2: Seq<u8>,
)
    requires
        o1 is Some ==> o1.unwrap().key.len() == 32,
        o2 is Some ==> o2.unwrap().key.len() == 32,
        option_collection_bytes(o1) + r1 == option_collection_bytes(o2) + r2,
    ensures
        o1 == o2,
        r1 == r2,
{
    let left = option_collection_bytes(o1);
    let right = option_collection_bytes(o2);
    assert((left + r1)[0] == left[0]);
    assert((right + r2)[0] == right[0]);
    lemma_split(left, r1, right, r2);
    if o1 is Some {
        let c1 = o1.unwrap();
        let c2 = o2.unwrap();
        assert(left[1] == bool_byte(c1.verified));
        assert(right[1] == bool_byte(c2.verified));
        assert(c1.key =~= left.subrange(2, 34));
        assert(c2.key =~= right.subrange(2, 34));
    }
}

/// Optional uses can be read back from the front of a byte string.
pub proof fn lemma_option_uses_prefix(
    o1: Option<Uses>,
    r1: Seq<u8>,
    o2: Option<Uses>,
    r2: Seq<u8>,
)
    requires
        option_uses_bytes(o1) + r1 == option_uses_bytes(o2) + r2,
    ensures
        o1 == o2,
        r1 == r2,
{
    let left = option_uses_bytes(o1);
    let right = option_uses_bytes(o2);
    if o1 is Some {
        lemma_le_bytes_len(o1.unwrap().remaining as nat, 8);
        lemma_le_bytes_len(o1.unwrap().total as nat, 8);
    }
    if o2 is Some {
        lemma_le_bytes_len(o2.unwrap().remaining as nat, 8);
        lemma_le_bytes_len(o2.unwrap().total as nat, 8);
    }
    assert((left + r1)[0] == left[0]);
    assert((right + r2)[0] == right[0]);
    lemma_split(left, r1, right, r2);
    if o1 is Some {
        let u1 = o1.unwrap();
        let u2 = o2.unwrap();
        lemma_width_limits();
        assert(left[1] == u1.use_method.code());
        assert(right[1] == u2.use_method.code());
        assert(u64_bytes(u1.remaining) =~= left.subrange(2, 10));
        assert(u64_bytes(u2.remaining) =~= right.subrange(2, 10));
        assert(u64_bytes(u1.total) =~= left.subrange(10, 18));
        assert(u64_bytes(u2.total) =~= right.subrange(10, 18));
        lemma_le_bytes_injective(u1.remaining as nat, u2.remaining as nat, 8);
        lemma_le_bytes_injective(u1.total as nat, u2.total as nat, 8);
    }
}

/// Creators with the same thirty-four bytes are the same creator.
pub proof fn lemma_creator_bytes_injective(a: CreatorView, b: CreatorView)
    requires
        a.address.len() == 32,
        b.address.len() == 32,
        creator_bytes(a) == creator_bytes(b),
    ensures
        a == b,
{
    let pa = creator_bytes(a);
    let pb = creator_bytes(b);
    assert(a.address =~= pa.subrange(0, 32));
    assert(b.address =~= pb.subrange(0, 32));
    assert(pa[32] == bool_byte(a.verified));
    assert(pb[32] == bool_byte(b.verified));
    assert(pa[33] == a.share);
    assert(pb[33] == b.share);
}

/// Each well-formed creator of a list takes thirty-four bytes.
pub proof fn lemma_creators_bytes_len(creators: Seq<CreatorView>)
    requires
        creators_well_formed(creators),
    ensures
        creators_bytes(creators).len() == 34 * creators.len(),
    decreases creators.len(),
{
    if creators.len() > 0 {
        let front = creators.drop_last();
        assert forall|i: int| 0 <= i < front.len() implies (#[trigger] front[i]).address.len()
            == 32 by {
            assert(front[i] == creators[i]);
        }
        lemma_creators_bytes_len(front);
        assert(creators.last() == creators[creators.len() - 1]);
    }
}

/// Lists of well-formed creators with the same bytes are the same list:
/// the same creators in the same order.
pub proof fn lemma_creators_bytes_injective(a: Seq<CreatorView>, b: Seq<CreatorView>)
    requires
        creators_well_formed(a),
        creators_well_formed(b),
        creators_bytes(a) == creators_bytes(b),
    ensures
        a == b,
    decreases a.len(),
{
    lemma_creators_bytes_len(a);
    lemma_creators_bytes_len(b);
    if a.len() > 0 {
        let fa = a.drop_last();
        let fb = b.drop_last();
        assert forall|i: int| 0 <= i < fa.len() implies (#[trigger] fa[i]).address.len()
            == 32 by {
            assert(fa[i] == a[i]);
        }
        assert forall|i: int| 0 <= i < fb.len() implies (#[trigger] fb[i]).address.len()
            == 32 by {
            assert(fb[i] == b[i]);
        }
        assert(a.last() == a[a.len() - 1]);
        assert(b.last() == b[b.len() - 1]);
        lemma_creators_bytes_len(fa);
        lemma_creators_bytes_len(fb);
        lemma_split(
            creators_bytes(fa),
            creator_bytes(a.last()),
            creators_bytes(fb),
            creator_bytes(b.last()),
        );
        lemma_creator_bytes_injective(a.last(), b.last());
        lemma_creators_bytes_injective(fa, fb);
        assert(a =~= fa.push(a.last()));
        assert(b =~= fb.push(b.last()));
    } else {
        assert(a =~= b);
    }
}

/// What is hashed for creators, put together, is their layout one after
/// another.
pub proof fn lemma_creator_parts_flatten(creators: Seq<CreatorView>)
    ensures
        creator_parts(creators).flatten() == creators_bytes(creators),
    decreases creators.len(),
{
    if creators.len() == 0 {
        assert(creator_parts(creators) =~= Seq::<Seq<u8>>::empty());
    } else {
        let front = creators.drop_last();
        lemma_creator_parts_flatten(front);
        assert(creator_parts(creators) =~= creator_parts(front).push(
            creator_bytes(creators.last()),
        ));
        creator_parts(front).lemma_flatten_push(creator_bytes(creators.last()));
    }
}

/// What follows the three texts in the layout of metadata.
pub open spec fn metadata_tail(m: MetadataView) -> Seq<u8> {
    u16_bytes(m.seller_fee_basis_points) + (seq![
        bool_byte(m.primary_sale_happened),
        bool_byte(m.is_mutable),
    ] + (option_u8_bytes(m.edition_nonce) + (option_token_standard_bytes(m.token_standard) + (
    option_collection_bytes(m.collection) + (option_uses_bytes(m.uses) + (seq![
        m.token_program_version.code(),
    ] + (u32_bytes(m.creators.len() as u32) + creators_bytes(m.creators))))))))
}

/// Byte strings may be put together in any grouping.
pub proof fn lemma_concat_assoc(a: Seq<u8>, b: Seq<u8>, c: Seq<u8>)
    ensures
        (a + b) + c == a + (b + c),
{
    assert((a + b) + c =~= a + (b + c));
}

/// The layout of metadata is its three texts and then the rest.
pub proof fn lemma_metadata_bytes_parts(m: MetadataView)
    ensures
        metadata_bytes(m) == string_bytes(m.name) + (string_bytes(m.symbol) + (string_bytes(m.uri)
            + metadata_tail(m))),
{
    let name = string_bytes(m.name);
    let symbol = string_bytes(m.symbol);
    let uri = string_bytes(m.uri);
    let fee = u16_bytes(m.seller_fee_basis_points);
    let flags = seq![bool_byte(m.primary_sale_happened), bool_byte(m.is_mutable)];
    let nonce = option_u8_bytes(m.edition_nonce);
    let standard = option_token_standard_bytes(m.token_standard);
    let collection = option_collection_bytes(m.collection);
    let uses = option_uses_bytes(m.uses);
    let version = seq![m.token_program_version.code()];
    let count = u32_bytes(m.creators.len() as u32);
    let creators = creators_bytes(m.creators);

    let front2 = name + symbol;
    let front3 = front2 + uri;
    let front4 = front3 + fee;
    let front5 = front4 + flags;
    let front6 = front5 + nonce;
    let front7 = front6 + standard;
    let front8 = front7 + collection;
    let front9 = front8 + uses;
    let front10 = front9 + version;
    let front11 = front10 + count;
    assert(metadata_bytes(m) == front11 + creators);

    let back10 = count + creators;
    let back9 = version + back10;
    let back8 = uses + back9;
    let back7 = collection + back8;
    let back6 = standard + back7;
    let back5 = nonce + back6;
    let back4 = flags + back5;
    let back3 = fee + back4;
    let back2 = uri + back3;
    let back1 = symbol + back2;
    assert(back3 == metadata_tail(m));

    lemma_concat_assoc(front10, count, creators);
    lemma_concat_assoc(front9, version, back10);
    lemma_concat_assoc(front8, uses, back9);
    lemma_concat_assoc(front7, collection, back8);
    lemma_concat_assoc(front6, standard, back7);
    lemma_concat_assoc(front5, nonce, back6);
    lemma_concat_assoc(front4, flags, back5);
    lemma_concat_assoc(front3, fee, back4);
    lemma_concat_assoc(front2, uri, back3);
    lemma_concat_assoc(name, symbol, back2);
}

/// Metadata with the same layout are the same metadata: no field can be
/// changed, and no two creators exchanged, without changing the bytes that
/// are hashed and sent.
pub proof fn lemma_metadata_bytes_injective(a: MetadataView, b: MetadataView)
    requires
        a.well_formed(),
        b.well_formed(),
        metadata_encodable(a),
        metadata_encodable(b),
        metadata_bytes(a) == metadata_bytes(b),
    ensures
        a == b,
{
    lemma_width_limits();
    lemma_metadata_bytes_parts(a);
    lemma_metadata_bytes_parts(b);
    lemma_string_prefix(
        a.name,
        string_bytes(a.symbol) + (string_bytes(a.uri) + metadata_tail(a)),
        b.name,
        string_bytes(b.symbol) + (string_bytes(b.uri) + metadata_tail(b)),
    );
    lemma_string_prefix(
        a.symbol,
        string_bytes(a.uri) + metadata_tail(a),
        b.symbol,
        string_bytes(b.uri) + metadata_tail(b),
    );
    lemma_string_prefix(a.uri, metadata_tail(a), b.uri, metadata_tail(b));

    let flags_a = seq![bool_byte(a.primary_sale_happened), bool_byte(a.is_mutable)];
    let flags_b = seq![bool_byte(b.primary_sale_happened), bool_byte(b.is_mutable)];
    let version_a = seq![a.token_program_version.code()];
    let version_b = seq![b.token_program_version.code()];
    let list_a = u32_bytes(a.creators.len() as u32) + creators_bytes(a.creators);
    let list_b = u32_bytes(b.creators.len() as u32) + creators_bytes(b.creators);
    let after_uses_a = version_a + list_a;
    let after_uses_b = version_b + list_b;
    let after_collection_a = option_uses_bytes(a.uses) + after_uses_a;
    let after_collection_b = option_uses_bytes(b.uses) + after_uses_b;
    let after_standard_a = option_collection_bytes(a.collection) + after_collection_a;
    let after_standard_b = option_collection_bytes(b.collection) + after_collection_b;
    let after_nonce_a = option_token_standard_bytes(a.token_standard) + after_standard_a;
    let after_nonce_b = option_token_standard_bytes(b.token_standard) + after_standard_b;
    let after_flags_a = option_u8_bytes(a.edition_nonce) + after_nonce_a;
    let after_flags_b = option_u8_bytes(b.edition_nonce) + after_nonce_b;
    let after_fee_a = flags_a + after_flags_a;
    let after_fee_b = flags_b + after_flags_b;

    lemma_number_prefix(
        a.seller_fee_basis_points as nat,
        after_fee_a,
        b.seller_fee_basis_points as nat,
        after_fee_b,
        2,
    );
    lemma_split(flags_a, after_flags_a, flags_b, after_flags_b);
    assert(flags_a[0] == flags_b[0]);
    assert(flags_a[1] == flags_b[1]);
    lemma_option_u8_prefix(a.edition_nonce, after_nonce_a, b.edition_nonce, after_nonce_b);
    lemma_option_token_standard_prefix(
        a.token_standard,
        after_standard_a,
        b.token_standard,
        after_standard_b,
    );
    lemma_option_collection_prefix(
        a.collection,
        after_collection_a,
        b.collection,
        after_collection_b,
    );
    lemma_option_uses_prefix(a.uses, after_uses_a, b.uses, after_uses_b);
    lemma_split(version_a, list_a, version_b, list_b);
    assert(version_a[0] == version_b[0]);
    lemma_number_prefix(
        a.creators.len(),
        creators_bytes(a.creators),
        b.creators.len(),
        creators_bytes(b.creators),
        4,
    );
    lemma_creators_bytes_injective(a.creators, b.creators);
}

/// Metadata that hold the same values have the same digest, and are
/// hashed or refused alike.
pub proof fn law_hash_metadata_deterministic(a: MetadataArgs, b: MetadataArgs)
    requires
        a@ == b@,
    ensures
        metadata_encodable(a@) == metadata_encodable(b@),
        metadata_digest(a@) == metadata_digest(b@),
{
}

/// Metadata that differ in any field, or in the order of their creators,
/// are hashed from different bytes.
pub proof fn law_metadata_preimage_distinct(a: MetadataArgs, b: MetadataArgs)
    requires
        metadata_encodable(a@),
        metadata_encodable(b@),
        a@ != b@,
    ensures
        metadata_bytes(a@) != metadata_bytes(b@),
{
    if metadata_bytes(a@) == metadata_bytes(b@) {
        lemma_metadata_well_formed(a);
        lemma_metadata_well_formed(b);
        lemma_metadata_bytes_injective(a@, b@);
    }
}

/// Two inputs that are different bytes when put together have the same
/// digest.
pub open spec fn keccak_collides() -> bool {
    exists|x: Seq<Seq<u8>>, y: Seq<Seq<u8>>|
        x.flatten() != y.flatten() && #[trigger] keccak_digest(x) == #[trigger] keccak_digest(y)
}

/// Metadata that differ in any field, or in the order of their creators,
/// have different digests, unless the hash itself gives one digest for two
/// inputs.  `inner_a` and `inner_b` are the digests of the two layouts.
pub proof fn law_metadata_digests_differ_or_collide(
    a: MetadataArgs,
    b: MetadataArgs,
    inner_a: [u8; 32],
    inner_b: [u8; 32],
)
    requires
        metadata_encodable(a@),
        metadata_encodable(b@),
        a@ != b@,
        inner_a@ == keccak_digest(seq![metadata_bytes(a@)]),
        inner_b@ == keccak_digest(seq![metadata_bytes(b@)]),
    ensures
        metadata_digest(a@) != metadata_digest(b@) || keccak_collides(),
{
    law_metadata_preimage_distinct(a, b);
    let first_a = seq![metadata_bytes(a@)];
    let first_b = seq![metadata_bytes(b@)];
    first_a.lemma_flatten_one_element();
    first_b.lemma_flatten_one_element();
    assert(first_a.first() == metadata_bytes(a@));
    assert(first_b.first() == metadata_bytes(b@));
    if inner_a@ == inner_b@ {
        assert(first_a.flatten() != first_b.flatten());
        assert(keccak_digest(first_a) == keccak_digest(first_b));
        assert(keccak_collides());
    } else if metadata_digest(a@) == metadata_digest(b@) {
        let second_a = data_hash_parts(inner_a@, a@.seller_fee_basis_points);
        let second_b = data_hash_parts(inner_b@, b@.seller_fee_basis_points);
        lemma_pair_flatten(inner_a@, u16_bytes(a@.seller_fee_basis_points));
        lemma_pair_flatten(inner_b@, u16_bytes(b@.seller_fee_basis_points));
        if second_a.flatten() == second_b.flatten() {
            lemma_split(
                inner_a@,
                u16_bytes(a@.seller_fee_basis_points),
                inner_b@,
                u16_bytes(b@.seller_fee_basis_points),
            );
        }
        assert(keccak_digest(second_a) == keccak_digest(second_b));
        assert(keccak_collides());
    }
}

/// Two byte strings put together are the first and then the second.
pub proof fn lemma_pair_flatten(first: Seq<u8>, second: Seq<u8>)
    ensures
        seq![first, second].flatten() == first + second,
{
    let pair = seq![first, second];
    let rest = pair.drop_first();
    assert(rest.drop_first() =~= Seq::<Seq<u8>>::empty());
    assert(rest.flatten() =~= second) by {
        reveal_with_fuel(Seq::flatten, 2);
    }
    assert(pair.flatten() =~= first + rest.flatten());
}

/// The bytes that are hashed for creators, one creator after another.
pub open spec fn creator_preimage(creators: Seq<CreatorView>) -> Seq<u8> {
    creator_parts(creators).flatten()
}

/// For no creators nothing is hashed: the digest of the empty list is the
/// digest of no bytes.
pub proof fn law_no_creators_digest()
    ensures
        creator_parts(Seq::empty()) == Seq::<Seq<u8>>::empty(),
        creator_preimage(Seq::empty()) == Seq::<u8>::empty(),
{
    assert(creator_parts(Seq::empty()) =~= Seq::<Seq<u8>>::empty());
}

/// Lists of creators, each with an address of thirty-two bytes, that are
/// hashed from the same bytes are the same list.
pub proof fn law_creator_preimage_injective(a: Seq<CreatorView>, b: Seq<CreatorView>)
    requires
        creators_well_formed(a),
        creators_well_formed(b),
        creator_preimage(a) == creator_preimage(b),
    ensures
        a == b,
{
    lemma_creator_parts_flatten(a);
    lemma_creator_parts_flatten(b);
    lemma_creators_bytes_injective(a, b);
}

/// Different lists of creators, each with an address of thirty-two
/// bytes, have different digests, unless the hash itself gives one digest
/// for two inputs.
pub proof fn law_creator_digests_differ_or_collide(a: Seq<CreatorView>, b: Seq<CreatorView>)
    requires
        creators_well_formed(a),
        creators_well_formed(b),
        a != b,
    ensures
        keccak_digest(creator_parts(a)) != keccak_digest(creator_parts(b)) || keccak_collides(),
{
    if creator_preimage(a) == creator_preimage(b) {
        law_creator_preimage_injective(a, b);
    }
    if keccak_digest(creator_parts(a)) == keccak_digest(creator_parts(b)) {
        assert(creator_parts(a).flatten() != creator_parts(b).flatten());
        assert(keccak_collides());
    }
}

/// A list with a creator in it is not hashed from the bytes of the empty
/// list.
pub proof fn law_some_creators_preimage_not_empty(creators: Seq<CreatorView>)
    requires
        creators_well_formed(creators),
        creators.len() > 0,
    ensures
        creator_preimage(creators) != creator_preimage(Seq::empty()),
{
    lemma_creator_parts_flatten(creators);
    lemma_creators_bytes_len(creators);
    law_no_creators_digest();
}

/// Exchanging two creators whose shares differ changes the bytes that are
/// hashed.
pub proof fn law_creator_order_matters(creators: Seq<CreatorView>, i: int, j: int)
    requires
        creators_well_formed(creators),
        0 <= i < creators.len(),
        0 <= j < creators.len(),
        creators[i].share != creators[j].share,
    ensures
        creator_preimage(creators.update(i, creators[j]).update(j, creators[i]))
            != creator_preimage(creators),
{
    let exchanged = creators.update(i, creators[j]).update(j, creators[i]);
    assert(exchanged[i] == creators[j]);
    assert forall|k: int| 0 <= k < exchanged.len() implies (#[trigger] exchanged[k]).address.len()
        == 32 by {
        if k == j {
            assert(exchanged[k] == creators[i]);
        } else if k == i {
            assert(exchanged[k] == creators[j]);
        } else {
            assert(exchanged[k] == creators[k]);
        }
    }
    if creator_preimage(exchanged) == creator_preimage(creators) {
        law_creator_preimage_injective(exchanged, creators);
    }
}

/// The same tree and the same leaf give the same address, or the same
/// failure.
pub proof fn law_asset_id_deterministic(tree_a: Pubkey, nonce_a: u64, tree_b: Pubkey, nonce_b: u64)
    requires
        tree_a@ == tree_b@,
        nonce_a == nonce_b,
    ensures
        tree_a == tree_b,
        program_address(asset_seeds(tree_a@, nonce_a), MPL_BUBBLEGUM_ID@) == program_address(
            asset_seeds(tree_b@, nonce_b),
            MPL_BUBBLEGUM_ID@,
        ),
{
    lemma_pubkey_by_bytes(tree_a, tree_b);
}

/// The bytes from which the address of an asset is derived, seed after
/// seed.
pub open spec fn asset_preimage(tree: Seq<u8>, nonce: u64) -> Seq<u8> {
    asset_seeds(tree, nonce).flatten()
}

/// The seeds of an asset put together are the word `asset`, the tree and
/// the number of the leaf.
pub proof fn lemma_asset_preimage(tree: Seq<u8>, nonce: u64)
    ensures
        asset_preimage(tree, nonce) == ASSET_PREFIX@ + (tree + u64_bytes(nonce)),
{
    let seeds = asset_seeds(tree, nonce);
    let two = seeds.drop_first();
    let one = two.drop_first();
    assert(one.drop_first() =~= Seq::<Seq<u8>>::empty());
    assert(one.flatten() =~= u64_bytes(nonce)) by {
        reveal_with_fuel(Seq::flatten, 2);
    }
    assert(two.flatten() =~= tree + one.flatten());
    assert(seeds.flatten() =~= ASSET_PREFIX@ + two.flatten());
}

/// Different leaves of one tree are derived from different seeds.
pub proof fn law_asset_seeds_distinct(tree: Pubkey, nonce_a: u64, nonce_b: u64)
    requires
        nonce_a != nonce_b,
    ensures
        asset_seeds(tree@, nonce_a) != asset_seeds(tree@, nonce_b),
        asset_preimage(tree@, nonce_a) != asset_preimage(tree@, nonce_b),
{
    lemma_width_limits();
    lemma_asset_preimage(tree@, nonce_a);
    lemma_asset_preimage(tree@, nonce_b);
    if asset_preimage(tree@, nonce_a) == asset_preimage(tree@, nonce_b) {
        lemma_split(
            ASSET_PREFIX@,
            tree@ + u64_bytes(nonce_a),
            ASSET_PREFIX@,
            tree@ + u64_bytes(nonce_b),
        );
        lemma_split(tree@, u64_bytes(nonce_a), tree@, u64_bytes(nonce_b));
        lemma_le_bytes_injective(nonce_a as nat, nonce_b as nat, 8);
    }
}

/// Supplied metadata are taken exactly when every number in them stands
/// for a variant and every address in them has thirty-two bytes.
pub proof fn law_metadata_taken_iff_well_formed(raw: ElixirMetadataView)
    ensures
        metadata_rejection(raw) is None <==> {
            &&& raw.token_program_version <= 1
            &&& (raw.token_standard is Some ==> raw.token_standard.unwrap() <= 3)
            &&& (raw.collection is Some ==> raw.collection.unwrap().key.len() == 32)
            &&& (raw.uses is Some ==> raw.uses.unwrap().use_method <= 2)
            &&& creators_well_formed(raw.creators)
        },
{
}

} // verus!
