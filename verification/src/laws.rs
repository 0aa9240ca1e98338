//! Laws that relate the conversions to one another.
use crate::aggregate::{flattened, keys_convert, paired_entries};
use crate::compare::{
    doubles_close, items_equal_with, lemma_entries_within, lemma_items_equal, same_number,
    ulps_apart, values_equal, values_equal_with, values_identical,
};
use crate::hashing::{all_hashable, hash_inputs, kind_prefix};
use crate::key::{first_index_of, hash_tag, key_slot};
use crate::key_from::key_bytes;
use crate::map::{
    has_key, index_of_key, keys_distinct, lemma_with_entry, lookup, to_map, Entries,
};
use crate::text::{
    decimal_digits, decimal_text, is_digit, lemma_decimal_digits, parse_i64, parse_u64,
};
use crate::value::ValueView;
use vstd::prelude::*;

verus! {

/// A key that is turned into a value and back is the same key: the value of a
/// key is a byte sequence, and a byte sequence converts to the key of its bytes.
pub proof fn law_key_round_trip(key: Seq<u8>)
    ensures
        key_bytes(ValueView::Bytes(key)) == Some(key),
{
}

/// Two floats whose bit patterns are at most two units in the last place apart
/// are equal values. Two floats that are further apart, and are not the same
/// number, are unequal values.
pub proof fn law_double_tolerance(a: u64, a_text: Seq<char>, b: u64, b_text: Seq<char>)
    ensures
        ulps_apart(a, b) <= 2 ==> values_equal(
            ValueView::Double(a, a_text),
            ValueView::Double(b, b_text),
        ),
        ulps_apart(a, b) > 2 && !same_number(a, b) ==> !values_equal(
            ValueView::Double(a, a_text),
            ValueView::Double(b, b_text),
        ),
{
}

/// The tolerance does not depend on the order of the two floats, and every float
/// is within it of itself, also one that is no number.
pub proof fn law_tolerance_symmetric(a: u64, b: u64)
    ensures
        doubles_close(a, b) == doubles_close(b, a),
        doubles_close(a, a),
{
}

/// Values of different variants are unequal, whatever they hold.
pub proof fn law_variants_differ(a: ValueView, b: ValueView)
    requires
        a.kind() != b.kind(),
    ensures
        !values_equal(a, b),
{
}

/// An array of one element converts as that element does: to an integer of
/// either sign, a size, a boolean, a float, a text, strict or lossy, and bytes,
/// owned or lent.
pub proof fn law_single_element_unwrap(v: ValueView)
    ensures
        ValueView::Array(seq![v]).as_i64() == v.as_i64(),
        ValueView::Array(seq![v]).as_u64() == v.as_u64(),
        ValueView::Array(seq![v]).as_usize() == v.as_usize(),
        ValueView::Array(seq![v]).as_bool() == v.as_bool(),
        ValueView::Array(seq![v]).float_source() == v.float_source(),
        ValueView::Array(seq![v]).text() == v.text(),
        ValueView::Array(seq![v]).lossy() == v.lossy(),
        ValueView::Array(seq![v]).owned_bytes() == v.owned_bytes(),
        ValueView::Array(seq![v]).lent_bytes() == v.lent_bytes(),
{
    assert(seq![v].len() == 1);
    assert(seq![v][0] == v);
}

/// An array does not read as a map where its length is odd, nor where an element
/// at an even position is itself an array or a map.
pub proof fn law_not_probably_map(items: Seq<ValueView>, i: int)
    requires
        items.len() % 2 == 1 || (0 <= i < items.len() && i % 2 == 0 && items[i].is_aggregate()),
    ensures
        !ValueView::Array(items).is_probably_map(),
{
}

/// An array of even length whose elements at even positions are scalars reads
/// as a map.
pub proof fn law_probably_map(items: Seq<ValueView>)
    requires
        items.len() % 2 == 0,
        forall|i: int| 0 <= i < items.len() && i % 2 == 0 ==> !(#[trigger] items[i]).is_aggregate(),
    ensures
        ValueView::Array(items).is_probably_map(),
{
}

/// Without its first entry, a flattened map is the flattening of the other
/// entries.
proof fn lemma_flattened_skip(entries: Entries)
    requires
        entries.len() > 0,
    ensures
        flattened(entries).len() == 2 * entries.len(),
        flattened(entries).skip(2) == flattened(entries.skip(1)),
        flattened(entries)[0] == ValueView::Bytes(entries[0].0),
        flattened(entries)[1] == entries[0].1,
{
    let a = flattened(entries).skip(2);
    let b = flattened(entries.skip(1));
    assert(a.len() == b.len());
    assert forall|i: int| 0 <= i < a.len() implies a[i] == b[i] by {
        assert((i + 2) / 2 == i / 2 + 1);
        assert((i + 2) % 2 == i % 2);
        assert(entries.skip(1)[i / 2] == entries[i / 2 + 1]);
    }
    assert(a =~= b);
}

/// The keys of a flattened map convert.
proof fn lemma_flattened_keys(entries: Entries)
    ensures
        keys_convert(flattened(entries)),
{
    assert forall|i: int| 0 <= i < flattened(entries).len() && i % 2 == 0 implies key_bytes(
        #[trigger] flattened(entries)[i],
    ) is Some by {
        assert(flattened(entries)[i] == ValueView::Bytes(entries[i / 2].0));
    }
}

/// A map with distinct keys is its first entry stored into the map of the other
/// entries.
proof fn lemma_to_map_first(entries: Entries)
    requires
        entries.len() > 0,
        keys_distinct(entries),
    ensures
        keys_distinct(entries.skip(1)),
        to_map(entries) == to_map(entries.skip(1)).insert(entries[0].0, entries[0].1),
{
    let rest = entries.skip(1);
    let k0 = entries[0].0;
    assert forall|i: int, j: int| 0 <= i < j < rest.len() implies (#[trigger] rest[i]).0 != (
    #[trigger] rest[j]).0 by {
        assert(rest[i] == entries[i + 1]);
        assert(rest[j] == entries[j + 1]);
    }
    let a = to_map(entries);
    let b = to_map(rest).insert(k0, entries[0].1);
    assert forall|k: Seq<u8>| a.dom().contains(k) == b.dom().contains(k) by {
        if has_key(entries, k) {
            let i = index_of_key(entries, k);
            if i > 0 {
                assert(rest[i - 1].0 == k);
            }
        }
        if has_key(rest, k) {
            let i = index_of_key(rest, k);
            assert(entries[i + 1].0 == k);
        }
    }
    assert forall|k: Seq<u8>| a.dom().contains(k) implies #[trigger] a[k] == b[k] by {
        let i = index_of_key(entries, k);
        if k == k0 {
            if i != 0 {
                assert(entries[0].0 != entries[i].0);
            }
        } else {
            assert(rest[i - 1].0 == k);
            let j = index_of_key(rest, k);
            assert(entries[j + 1].0 == k);
            if i < j + 1 {
                assert(entries[i].0 != entries[j + 1].0);
            } else if j + 1 < i {
                assert(entries[j + 1].0 != entries[i].0);
            }
        }
    }
    assert(a.dom() =~= b.dom());
    assert(a =~= b);
}

/// A map that is flattened to an array and read back as a map is the same map:
/// the array has an even length, its keys convert, and the entries read from it
/// make the map that the entries of the map make, whatever their order.
pub proof fn law_into_map_inverts_into_array(entries: Entries)
    requires
        keys_distinct(entries),
    ensures
        ValueView::Dict(entries).as_items() == flattened(entries),
        ValueView::Array(flattened(entries)).as_entries() is Ok,
        keys_distinct(ValueView::Array(flattened(entries)).as_entries()->Ok_0),
        to_map(ValueView::Array(flattened(entries)).as_entries()->Ok_0) == to_map(entries),
    decreases entries.len(),
{
    lemma_flattened_keys(entries);
    if entries.len() == 0 {
        assert(to_map(paired_entries(flattened(entries))) =~= to_map(entries));
    } else {
        let rest = entries.skip(1);
        lemma_flattened_skip(entries);
        lemma_to_map_first(entries);
        law_into_map_inverts_into_array(rest);
        lemma_flattened_keys(rest);
        lemma_with_entry(paired_entries(flattened(rest)), entries[0].0, entries[0].1);
    }
}

/// Keys with the same hash tag have the same slot.
pub proof fn law_same_tag_same_slot(a: Seq<u8>, b: Seq<u8>)
    requires
        hash_tag(a) == hash_tag(b),
    ensures
        key_slot(a) == key_slot(b),
{
}

/// The first `}` of a sequence that starts with bytes without one stands right
/// after them.
proof fn lemma_first_close(tag: Seq<u8>, rest: Seq<u8>)
    requires
        forall|i: int| 0 <= i < tag.len() ==> tag[i] != 0x7d,
    ensures
        first_index_of(tag + seq![0x7du8] + rest, 0x7d) == tag.len(),
    decreases tag.len(),
{
    let s = tag + seq![0x7du8] + rest;
    if tag.len() == 0 {
        assert(s[0] == 0x7d);
    } else {
        assert(s[0] == tag[0]);
        assert(s.drop_first() =~= tag.drop_first() + seq![0x7du8] + rest);
        lemma_first_close(tag.drop_first(), rest);
    }
}

/// A key that starts with a tag in braces has the slot of the tag alone,
/// whatever follows the braces: the tag is not empty and holds no `}`.
pub proof fn law_tagged_key_slot(tag: Seq<u8>, rest: Seq<u8>)
    requires
        tag.len() > 0,
        forall|i: int| 0 <= i < tag.len() ==> tag[i] != 0x7d,
    ensures
        hash_tag(seq![0x7bu8] + tag + seq![0x7du8] + rest) == tag,
        key_slot(seq![0x7bu8] + tag + seq![0x7du8] + rest) == key_slot(
            seq![0x7bu8] + tag + seq![0x7du8],
        ),
{
    let key = seq![0x7bu8] + tag + seq![0x7du8] + rest;
    assert(key[0] == 0x7b);
    assert(first_index_of(key, 0x7b) == 0);
    let after = key.subrange(1, key.len() as int);
    assert(after =~= tag + seq![0x7du8] + rest);
    lemma_first_close(tag, rest);
    assert(after.subrange(0, tag.len() as int) =~= tag);
    let bare = seq![0x7bu8] + tag + seq![0x7du8];
    assert(bare =~= seq![0x7bu8] + tag + seq![0x7du8] + Seq::<u8>::empty());
    assert(bare[0] == 0x7b);
    assert(first_index_of(bare, 0x7b) == 0);
    let bare_after = bare.subrange(1, bare.len() as int);
    assert(bare_after =~= tag + seq![0x7du8] + Seq::<u8>::empty());
    lemma_first_close(tag, Seq::<u8>::empty());
    assert(bare_after.subrange(0, tag.len() as int) =~= tag);
}

/// Values of different kinds feed different bytes to a hasher, whatever they
/// hold: the text `1` and the integer 1 do.
pub proof fn law_kinds_hash_apart(a: ValueView, b: ValueView)
    requires
        a.kind() != b.kind(),
    ensures
        a.hash_input() != b.hash_input(),
{
    assert(a.hash_input()[0] == kind_prefix(a.kind()));
    assert(b.hash_input()[0] == kind_prefix(b.kind()));
}

/// Two lists that are equal element by element, bit for bit, feed the same bytes
/// to a hasher.
proof fn lemma_identical_items_hash_alike(x: Seq<ValueView>, y: Seq<ValueView>)
    requires
        all_hashable(x),
        x.len() == y.len(),
        items_equal_with(x, y, true),
    ensures
        hash_inputs(x) == hash_inputs(y),
    decreases x, 0nat,
{
    if x.len() > 0 {
        lemma_identical_items_hash_alike(x.drop_last(), y.drop_last());
        law_identical_values_hash_alike(x.last(), y.last());
    }
}

/// Values that are equal, with floats that are the same bit for bit, feed the
/// same bytes to a hasher.
pub proof fn law_identical_values_hash_alike(a: ValueView, b: ValueView)
    requires
        a.hashable(),
        values_identical(a, b),
    ensures
        a.hash_input() == b.hash_input(),
    decreases a, 1nat,
{
    match (a, b) {
        (ValueView::Array(x), ValueView::Array(y)) => {
            lemma_identical_items_hash_alike(x, y);
        },
        _ => {},
    }
}

/// The decimal text of an integer is read back as that integer: a text value
/// that holds it converts to the integer, signed or unsigned.
pub proof fn law_decimal_round_trip(i: i64, u: u64)
    ensures
        parse_i64(decimal_text(i as int)) == Some(i),
        parse_u64(decimal_text(u as int)) == Some(u),
        ValueView::String(decimal_text(i as int)).as_i64() == Some(i),
        ValueView::String(decimal_text(u as int)).as_u64() == Some(u),
{
    assert('+' as u32 == 43);
    assert('-' as u32 == 45);
    assert('0' as u32 == 48);
    let s = decimal_text(i as int);
    if i < 0 {
        let digits = decimal_digits((-i) as nat);
        lemma_decimal_digits((-i) as nat);
        assert(s[0] == '-');
        assert(s.drop_first() =~= digits);
    } else {
        lemma_decimal_digits(i as nat);
        assert(is_digit(s[0]));
    }
    let t = decimal_text(u as int);
    lemma_decimal_digits(u as nat);
    assert(is_digit(t[0]));
}

/// Whether the keys of each map inside a value are distinct, as they are in every
/// value that the library makes.
pub open spec fn well_formed(v: ValueView) -> bool
    decreases v,
{
    match v {
        ValueView::Dict(entries) => keys_distinct(entries) && entries_well_formed(entries),
        ValueView::Array(items) => items_well_formed(items),
        _ => true,
    }
}

/// Whether each value of a list is well formed.
pub open spec fn items_well_formed(items: Seq<ValueView>) -> bool
    decreases items,
{
    items.len() == 0 || (items_well_formed(items.drop_last()) && well_formed(items.last()))
}

/// Whether the value of each entry is well formed.
pub open spec fn entries_well_formed(entries: Entries) -> bool
    decreases entries,
{
    entries.len() == 0 || (entries_well_formed(entries.drop_last()) && well_formed(
        entries.last().1,
    ))
}

/// Each value of a well-formed list is well formed.
proof fn lemma_items_well_formed(items: Seq<ValueView>, i: int)
    requires
        items_well_formed(items),
        0 <= i < items.len(),
    ensures
        well_formed(items[i]),
    decreases items.len(),
{
    if i < items.len() - 1 {
        lemma_items_well_formed(items.drop_last(), i);
    }
}

/// The value of each of some well-formed entries is well formed.
proof fn lemma_entries_well_formed(entries: Entries, i: int)
    requires
        entries_well_formed(entries),
        0 <= i < entries.len(),
    ensures
        well_formed(entries[i].1),
    decreases entries.len(),
{
    if i < entries.len() - 1 {
        lemma_entries_well_formed(entries.drop_last(), i);
    }
}

/// Among entries with distinct keys, the key of an entry finds the value of that
/// entry.
proof fn lemma_lookup_own(entries: Entries, i: int)
    requires
        keys_distinct(entries),
        0 <= i < entries.len(),
    ensures
        lookup(entries, entries[i].0) == Some(entries[i].1),
{
    let j = index_of_key(entries, entries[i].0);
    if j < i {
        assert(entries[j].0 != entries[i].0);
    } else if i < j {
        assert(entries[i].0 != entries[j].0);
    }
}

/// Every value is equal to itself, also where floats must be the same bit for
/// bit: a float that is no number is equal to itself too.
pub proof fn law_equal_to_itself(v: ValueView, exact: bool)
    requires
        well_formed(v),
    ensures
        values_equal_with(v, v, exact),
    decreases v,
{
    match v {
        ValueView::Array(items) => {
            assert forall|i: int| 0 <= i < items.len() implies values_equal_with(
                #[trigger] items[i],
                items[i],
                exact,
            ) by {
                lemma_items_well_formed(items, i);
                law_equal_to_itself(items[i], exact);
            }
            lemma_items_equal(items, items, exact);
        },
        ValueView::Dict(entries) => {
            assert forall|i: int| 0 <= i < entries.len() implies {
                &&& lookup(entries, (#[trigger] entries[i]).0) is Some
                &&& values_equal_with(
                    entries[i].1,
                    lookup(entries, entries[i].0)->Some_0,
                    exact,
                )
            } by {
                lemma_lookup_own(entries, i);
                lemma_entries_well_formed(entries, i);
                law_equal_to_itself(entries[i].1, exact);
            }
            lemma_entries_within(entries, entries, exact);
        },
        _ => {},
    }
}

/// The entries read back from a flattened map are those of the map, from the
/// last to the first.
proof fn lemma_paired_is_reverse(entries: Entries)
    requires
        keys_distinct(entries),
    ensures
        paired_entries(flattened(entries)) == entries.reverse(),
    decreases entries.len(),
{
    if entries.len() == 0 {
        assert(paired_entries(flattened(entries)) =~= entries.reverse());
    } else {
        let rest = entries.skip(1);
        lemma_flattened_skip(entries);
        lemma_to_map_first(entries);
        lemma_paired_is_reverse(rest);
        let back = rest.reverse();
        assert(!has_key(back, entries[0].0)) by {
            if has_key(back, entries[0].0) {
                let i = index_of_key(back, entries[0].0);
                assert(back[i] == rest[rest.len() - 1 - i]);
                assert(rest[rest.len() - 1 - i] == entries[rest.len() - i]);
                assert(entries[0].0 != entries[rest.len() - i].0);
            }
        }
        assert(back.push(entries[0]) =~= entries.reverse());
    }
}

/// A map that is flattened to an array and read back as a map is equal to the
/// map that was flattened, whatever the order of its entries.
pub proof fn law_into_map_of_into_array_is_equal(entries: Entries)
    requires
        well_formed(ValueView::Dict(entries)),
    ensures
        ValueView::Array(ValueView::Dict(entries).as_items()).as_entries() is Ok,
        values_equal(
            ValueView::Dict(
                ValueView::Array(ValueView::Dict(entries).as_items()).as_entries()->Ok_0,
            ),
            ValueView::Dict(entries),
        ),
{
    law_into_map_inverts_into_array(entries);
    lemma_paired_is_reverse(entries);
    let back = entries.reverse();
    assert forall|i: int| 0 <= i < back.len() implies {
        &&& lookup(entries, (#[trigger] back[i]).0) is Some
        &&& values_equal_with(back[i].1, lookup(entries, back[i].0)->Some_0, false)
    } by {
        let j = entries.len() - 1 - i;
        assert(back[i] == entries[j]);
        lemma_lookup_own(entries, j);
        lemma_entries_well_formed(entries, j);
        law_equal_to_itself(entries[j].1, false);
    }
    lemma_entries_within(back, entries, false);
}

} // verus!
