//! Addresses of records. Each record lives at an address derived from a
//! short tag and the keys or identifiers of what it belongs to, under the
//! program that owns it; an operation that creates a record refuses any
//! other address, so one logical key names one record at most.
use vstd::prelude::*;
use vstd::utf8::encode_utf8;

use crate::common::Key;

verus! {

/// The address and bump seed that Solana's program-address search finds for
/// `seeds` under `program`, or `None` where it finds none.
pub uninterp spec fn program_address(seeds: Seq<Seq<u8>>, program: Key) -> Option<(Key, u8)>;

/// Relies on `Pubkey::try_find_program_address` of solana_program (reached
/// through anchor_lang): the address and canonical bump seed for the seeds
/// under the program. It hashes its arguments alone, so the result is named
/// rather than stated.
#[verifier::external_body]
pub(crate) fn find_program_address(seeds: &Vec<Vec<u8>>, program: &Key) -> (r: Option<(Key, u8)>)
    ensures
        r == program_address(seeds@.map_values(|s: Vec<u8>| s@), *program),
{
    let slices: Vec<&[u8]> = seeds.iter().map(|s| s.as_slice()).collect();
    let program_id = anchor_lang::prelude::Pubkey::new_from_array(program.bytes);
    anchor_lang::prelude::Pubkey::try_find_program_address(&slices, &program_id)
        .map(|(address, bump)| (Key { bytes: address.to_bytes() }, bump))
}

/// Whether a search found exactly `key`.
pub open spec fn found_at(found: Option<(Key, u8)>, key: Key) -> bool {
    found matches Some(f) && f.0 == key
}

/// Whether a search found exactly `key`.
pub fn address_matches(found: Option<(Key, u8)>, key: &Key) -> (r: bool)
    ensures
        r == found_at(found, *key),
{
    match found {
        Some((address, _)) => address == *key,
        None => false,
    }
}

/// The seed bytes of a tag or a text: its UTF-8 encoding.
pub open spec fn text_bytes(s: Seq<char>) -> Seq<u8> {
    encode_utf8(s)
}

pub(crate) fn tag_seed(tag: &str) -> (r: Vec<u8>)
    ensures
        r@ == text_bytes(tag@),
{
    vstd::slice::slice_to_vec(tag.as_bytes())
}

pub(crate) fn text_seed(s: &String) -> (r: Vec<u8>)
    ensures
        r@ == text_bytes(s@),
{
    vstd::slice::slice_to_vec(s.as_str().as_bytes())
}

pub(crate) fn key_seed(k: &Key) -> (r: Vec<u8>)
    ensures
        r@ == k.bytes@,
{
    vstd::slice::slice_to_vec(k.bytes.as_slice())
}

/// Seeds made of a tag alone.
pub open spec fn tagged(tag: &str) -> Seq<Seq<u8>> {
    seq![text_bytes(tag@)]
}

/// Seeds made of a tag and one key.
pub open spec fn tagged_key(tag: &str, a: Key) -> Seq<Seq<u8>> {
    seq![text_bytes(tag@), a.bytes@]
}

/// Seeds made of a tag and two keys.
pub open spec fn tagged_keys(tag: &str, a: Key, b: Key) -> Seq<Seq<u8>> {
    seq![text_bytes(tag@), a.bytes@, b.bytes@]
}

/// Seeds made of a tag and a text.
pub open spec fn tagged_text(tag: &str, s: String) -> Seq<Seq<u8>> {
    seq![text_bytes(tag@), text_bytes(s@)]
}

/// Seeds made of a tag, a key and a text.
pub open spec fn tagged_key_text(tag: &str, a: Key, s: String) -> Seq<Seq<u8>> {
    seq![text_bytes(tag@), a.bytes@, text_bytes(s@)]
}

/// The address for a tag alone.
pub fn address_of_tag(program: &Key, tag: &str) -> (r: Option<(Key, u8)>)
    ensures
        r == program_address(tagged(tag), *program),
{
    let seeds = vec![tag_seed(tag)];
    proof {
        assert(seeds@.map_values(|s: Vec<u8>| s@) =~= tagged(tag));
    }
    find_program_address(&seeds, program)
}

/// The address for a tag and one key.
pub fn address_of_key(program: &Key, tag: &str, a: &Key) -> (r: Option<(Key, u8)>)
    ensures
        r == program_address(tagged_key(tag, *a), *program),
{
    let seeds = vec![tag_seed(tag), key_seed(a)];
    proof {
        assert(seeds@.map_values(|s: Vec<u8>| s@) =~= tagged_key(tag, *a));
    }
    find_program_address(&seeds, program)
}

/// The address for a tag and two keys.
pub fn address_of_keys(program: &Key, tag: &str, a: &Key, b: &Key) -> (r: Option<(Key, u8)>)
    ensures
        r == program_address(tagged_keys(tag, *a, *b), *program),
{
    let seeds = vec![tag_seed(tag), key_seed(a), key_seed(b)];
    proof {
        assert(seeds@.map_values(|s: Vec<u8>| s@) =~= tagged_keys(tag, *a, *b));
    }
    find_program_address(&seeds, program)
}

/// The address for a tag and a text.
pub fn address_of_text(program: &Key, tag: &str, s: &String) -> (r: Option<(Key, u8)>)
    ensures
        r == program_address(tagged_text(tag, *s), *program),
{
    let seeds = vec![tag_seed(tag), text_seed(s)];
    proof {
        assert(seeds@.map_values(|v: Vec<u8>| v@) =~= tagged_text(tag, *s));
    }
    find_program_address(&seeds, program)
}

/// The address for a tag, a key and a text.
pub fn address_of_key_text(program: &Key, tag: &str, a: &Key, s: &String) -> (r: Option<(Key, u8)>)
    ensures
        r == program_address(tagged_key_text(tag, *a, *s), *program),
{
    let seeds = vec![tag_seed(tag), key_seed(a), text_seed(s)];
    proof {
        assert(seeds@.map_values(|v: Vec<u8>| v@) =~= tagged_key_text(tag, *a, *s));
    }
    find_program_address(&seeds, program)
}

} // verus!
