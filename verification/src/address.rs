//! Arithmetic on addresses: a key is added to an address octet by octet to
//! give a destination, and taken off again to give the key back. Sums and
//! differences wrap around at 256. Sixteen-byte addresses are mixed with
//! their key bit by bit.

use crate::text::{
    chars_of, decimal, join, numeral, parse_numeral, push_decimal, split, split_at, texts_of,
};
use vstd::prelude::*;

verus! {

/// An address and the key to add to it, both as dotted decimal text.
#[derive(Debug, PartialEq, Eq)]
pub struct EncryptionParameters {
    pub from: String,
    pub key: String,
}

/// An address and the destination that a key took it to, both as dotted
/// decimal text.
#[derive(Debug, PartialEq, Eq)]
pub struct DecryptionParameters {
    pub from: String,
    pub to: String,
}

/// The octet that each part stands for.
pub open spec fn octets_in(parts: Seq<Seq<char>>) -> Seq<u8> {
    Seq::new(parts.len(), |i: int| numeral(parts[i], 255).unwrap() as u8)
}

/// The octets that `text` names: its parts between the dots, each the numeral
/// of a number up to 255. There are none if any part is something else.
pub open spec fn octets_of(text: Seq<char>) -> Option<Seq<u8>> {
    let parts = split(text, '.');
    if forall|i: int| 0 <= i < parts.len() ==> (#[trigger] numeral(parts[i], 255)) is Some {
        Some(octets_in(parts))
    } else {
        None
    }
}

/// Each octet of `key` with the octet of `from` at its place added to it,
/// modulo 256.
pub open spec fn shifted(from: Seq<u8>, key: Seq<u8>) -> Seq<u8>
    recommends
        key.len() <= from.len(),
{
    Seq::new(key.len(), |i: int| ((key[i] + from[i]) % 256) as u8)
}

/// Each octet of `to` with the octet of `from` at its place taken off it,
/// modulo 256.
pub open spec fn unshifted(from: Seq<u8>, to: Seq<u8>) -> Seq<u8>
    recommends
        to.len() <= from.len(),
{
    Seq::new(to.len(), |i: int| ((to[i] - from[i]) % 256) as u8)
}

/// The decimal numeral of each octet.
pub open spec fn numerals_of(octets: Seq<u8>) -> Seq<Seq<char>> {
    Seq::new(octets.len(), |i: int| decimal(octets[i] as nat))
}

/// The octets in decimal, with a dot between each two of them.
pub open spec fn dotted(octets: Seq<u8>) -> Seq<char> {
    join(numerals_of(octets), seq!['.'])
}

/// The destination that `key` takes `from` to, as dotted decimal text, where
/// both name octets and `from` has an octet for each one of `key`.
pub open spec fn destination_of(from: Seq<char>, key: Seq<char>) -> Option<Seq<char>> {
    match (octets_of(from), octets_of(key)) {
        (Some(f), Some(k)) => if k.len() <= f.len() {
            Some(dotted(shifted(f, k)))
        } else {
            None
        },
        _ => None,
    }
}

/// The key that takes `from` to `to`, as dotted decimal text, where both name
/// octets and `from` has an octet for each one of `to`.
pub open spec fn key_of(from: Seq<char>, to: Seq<char>) -> Option<Seq<char>> {
    match (octets_of(from), octets_of(to)) {
        (Some(f), Some(t)) => if t.len() <= f.len() {
            Some(dotted(unshifted(f, t)))
        } else {
            None
        },
        _ => None,
    }
}

/// Taking an address off the destination that a key took it to gives the key
/// back.
pub proof fn law_key_comes_back(from: Seq<u8>, key: Seq<u8>)
    requires
        key.len() <= from.len(),
    ensures
        unshifted(from, shifted(from, key)) == key,
{
    assert(unshifted(from, shifted(from, key)) =~= key);
}

/// Adding to an address the key that leads from it to a destination gives
/// that destination.
pub proof fn law_destination_comes_back(from: Seq<u8>, to: Seq<u8>)
    requires
        to.len() <= from.len(),
    ensures
        shifted(from, unshifted(from, to)) == to,
{
    assert(shifted(from, unshifted(from, to)) =~= to);
}

/// The octets that `text` names.
pub fn parse_octets(text: &str) -> (octets: Option<Vec<u8>>)
    ensures
        octets matches Some(found) ==> octets_of(text@) == Some(found@),
        octets is None ==> octets_of(text@) is None,
{
    let chars = chars_of(text);
    let parts = split_at(&chars, '.');
    let ghost all = split(text@, '.');
    let mut octets: Vec<u8> = Vec::new();
    let mut i: usize = 0;
    while i < parts.len()
        invariant
            i <= parts.len(),
            all == split(text@, '.'),
            texts_of(parts@) == all,
            octets@.len() == i,
            forall|k: int| 0 <= k < i ==> (#[trigger] numeral(all[k], 255)) is Some,
            forall|k: int| 0 <= k < i ==> octets@[k] == numeral(all[k], 255).unwrap() as u8,
        decreases parts.len() - i,
    {
        assert(all[i as int] == parts@[i as int]@);
        match parse_numeral(&parts[i], 255) {
            Some(value) => {
                octets.push(value as u8);
            },
            None => {
                assert(numeral(all[i as int], 255) is None);
                return None;
            },
        }
        i += 1;
    }
    assert(octets@ =~= octets_in(all));
    Some(octets)
}

/// Each octet of `key` with the octet of `from` at its place added to it,
/// wrapping around at 256.
pub fn add_octets(from: &Vec<u8>, key: &Vec<u8>) -> (dest: Vec<u8>)
    requires
        key.len() <= from.len(),
    ensures
        dest@ == shifted(from@, key@),
{
    let mut dest: Vec<u8> = Vec::new();
    let mut i: usize = 0;
    while i < key.len()
        invariant
            i <= key.len() <= from.len(),
            dest@.len() == i,
            forall|k: int| 0 <= k < i ==> dest@[k] == ((key@[k] + from@[k]) % 256) as u8,
        decreases key.len() - i,
    {
        dest.push(key[i].wrapping_add(from[i]));
        i += 1;
    }
    assert(dest@ =~= shifted(from@, key@));
    dest
}

/// Each octet of `to` with the octet of `from` at its place taken off it,
/// wrapping around at 256.
pub fn sub_octets(from: &Vec<u8>, to: &Vec<u8>) -> (key: Vec<u8>)
    requires
        to.len() <= from.len(),
    ensures
        key@ == unshifted(from@, to@),
{
    let mut key: Vec<u8> = Vec::new();
    let mut i: usize = 0;
    while i < to.len()
        invariant
            i <= to.len() <= from.len(),
            key@.len() == i,
            forall|k: int| 0 <= k < i ==> key@[k] == ((to@[k] - from@[k]) % 256) as u8,
        decreases to.len() - i,
    {
        key.push(to[i].wrapping_sub(from[i]));
        i += 1;
    }
    assert(key@ =~= unshifted(from@, to@));
    key
}

/// The octets in decimal, with a dot between each two of them.
pub fn format_octets(octets: &Vec<u8>) -> (text: String)
    ensures
        text@ == dotted(octets@),
{
    let mut text = String::new();
    let ghost numerals = numerals_of(octets@);
    let mut i: usize = 0;
    while i < octets.len()
        invariant
            i <= octets.len(),
            numerals == numerals_of(octets@),
            text@ == join(numerals.take(i as int), seq!['.']),
        decreases octets.len() - i,
    {
        proof {
            reveal_strlit(".");
            assert("."@ =~= seq!['.']);
            assert(numerals.take(i + 1).drop_last() =~= numerals.take(i as int));
            assert(numerals.take(i + 1).last() == decimal(octets@[i as int] as nat));
        }
        if i > 0 {
            text.append(".");
        } else {
            assert(text@ =~= Seq::<char>::empty());
        }
        push_decimal(&mut text, octets[i] as u64);
        i += 1;
    }
    assert(numerals.take(i as int) =~= numerals);
    text
}

/// The destination that the key of `params` takes its address to. There is
/// none unless both texts name octets and the address has an octet for each
/// one of the key.
pub fn destination(params: &EncryptionParameters) -> (dest: Option<String>)
    ensures
        dest matches Some(text) ==> destination_of(params.from@, params.key@) == Some(text@),
        dest is None ==> destination_of(params.from@, params.key@) is None,
{
    let from = match parse_octets(params.from.as_str()) {
        Some(octets) => octets,
        None => {
            return None;
        },
    };
    let key = match parse_octets(params.key.as_str()) {
        Some(octets) => octets,
        None => {
            return None;
        },
    };
    if key.len() > from.len() {
        return None;
    }
    Some(format_octets(&add_octets(&from, &key)))
}

/// The key that takes the address of `params` to its destination. There is
/// none unless both texts name octets and the address has an octet for each
/// one of the destination.
pub fn key(params: &DecryptionParameters) -> (key: Option<String>)
    ensures
        key matches Some(text) ==> key_of(params.from@, params.to@) == Some(text@),
        key is None ==> key_of(params.from@, params.to@) is None,
{
    let from = match parse_octets(params.from.as_str()) {
        Some(octets) => octets,
        None => {
            return None;
        },
    };
    let to = match parse_octets(params.to.as_str()) {
        Some(octets) => octets,
        None => {
            return None;
        },
    };
    if to.len() > from.len() {
        return None;
    }
    Some(format_octets(&sub_octets(&from, &to)))
}

/// A sixteen-byte address mixed with a key: each bit is flipped where the
/// key's bit is set.
pub fn mix(address: u128, key: u128) -> (mixed: u128)
    ensures
        mixed == address ^ key,
{
    address ^ key
}

/// Mixing twice with the same key gives the address back, and mixing an
/// address with what a key made of it gives the key.
pub proof fn law_mix_undoes_itself(address: u128, key: u128)
    ensures
        (address ^ key) ^ key == address,
        address ^ (address ^ key) == key,
{
    assert((address ^ key) ^ key == address) by (bit_vector);
    assert(address ^ (address ^ key) == key) by (bit_vector);
}

} // verus!
