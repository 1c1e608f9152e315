//! Trusted boundary around `heapless::FnvIndexMap`, the fixed-capacity,
//! insertion-ordered map the aggregator stores its active output codes in.
//!
//! The map's contents are modelled as the sequence of its keys in storage
//! order, named by [`code_map_keys`].  Each wrapper states, over that name,
//! what the corresponding `heapless` method does according to its source:
//! an existing key keeps its place, a new key is appended last, and removal
//! swaps the last entry into the vacated slot.

use vstd::prelude::*;

use heapless::FnvIndexMap;

verus! {

/// Declares `heapless::IndexMap` (of which `FnvIndexMap` is an alias) as an
/// opaque type.
#[verifier::external_type_specification]
#[verifier::external_body]
#[verifier::reject_recursive_types(K)]
#[verifier::reject_recursive_types(V)]
#[verifier::reject_recursive_types(S)]
pub struct ExIndexMap<K, V, S, const N: usize>(heapless::IndexMap<K, V, S, N>);

/// Declares the hasher-builder type parameter of `FnvIndexMap`.
#[verifier::external_type_specification]
#[verifier::external_body]
#[verifier::reject_recursive_types(H)]
pub struct ExBuildHasherDefault<H>(hash32::BuildHasherDefault<H>);

/// Declares the FNV hasher that `FnvIndexMap` is keyed with.
#[verifier::external_type_specification]
#[verifier::external_body]
pub struct ExFnvHasher(hash32::FnvHasher);

/// The keys of the map, in storage order.
pub uninterp spec fn code_map_keys(m: FnvIndexMap<u8, bool, 8>) -> Seq<u8>;

/// Removal by swapping: the slot of the removed element is filled with the
/// last element, which is then popped.  Leaves sequences without the element
/// alone.
pub open spec fn spec_swap_remove_code(codes: Seq<u8>, c: u8) -> Seq<u8> {
    if !codes.contains(c) {
        codes
    } else {
        let i = codes.index_of(c);
        codes.update(i, codes.last()).drop_last()
    }
}

/// Relies on `heapless::IndexMap::new`: the map starts empty.
#[verifier::external_body]
pub(crate) fn code_map_new() -> (m: FnvIndexMap<u8, bool, 8>)
    ensures
        code_map_keys(m) == Seq::<u8>::empty(),
{
    FnvIndexMap::new()
}

/// Relies on `heapless::IndexMap::insert`: an existing key keeps its place in
/// the order and only its value is replaced; a new key is appended last; the
/// call fails, leaving the map as it was, exactly when the map is full and
/// the key is new.  Keys are unique.
#[verifier::external_body]
pub(crate) fn code_map_insert(m: &mut FnvIndexMap<u8, bool, 8>, code: u8, value: bool) -> (r:
    Result<Option<bool>, (u8, bool)>)
    ensures
        code_map_keys(*old(m)).contains(code) ==> {
            &&& code_map_keys(*final(m)) == code_map_keys(*old(m))
            &&& r is Ok
        },
        !code_map_keys(*old(m)).contains(code) && code_map_keys(*old(m)).len() < 8 ==> {
            &&& code_map_keys(*final(m)) == code_map_keys(*old(m)).push(code)
            &&& r is Ok
        },
        !code_map_keys(*old(m)).contains(code) && code_map_keys(*old(m)).len() >= 8 ==> {
            &&& code_map_keys(*final(m)) == code_map_keys(*old(m))
            &&& r is Err
        },
        code_map_keys(*final(m)).no_duplicates(),
{
    m.insert(code, value)
}

/// Relies on `heapless::IndexMap::remove` (an alias of `swap_remove`): the
/// removed entry's slot is filled with the last entry; a missing key leaves
/// the map untouched and returns `None`.
#[verifier::external_body]
pub(crate) fn code_map_remove(m: &mut FnvIndexMap<u8, bool, 8>, code: u8) -> (r: Option<bool>)
    ensures
        code_map_keys(*final(m)) == spec_swap_remove_code(code_map_keys(*old(m)), code),
        r is Some <==> code_map_keys(*old(m)).contains(code),
        code_map_keys(*final(m)).no_duplicates(),
{
    m.remove(&code)
}

/// Relies on `heapless::IndexMap::clear`: every entry is dropped.
#[verifier::external_body]
pub(crate) fn code_map_clear(m: &mut FnvIndexMap<u8, bool, 8>)
    ensures
        code_map_keys(*final(m)) == Seq::<u8>::empty(),
{
    m.clear()
}

/// Relies on `heapless::IndexMap::len`: the number of entries.
#[verifier::external_body]
pub(crate) fn code_map_len(m: &FnvIndexMap<u8, bool, 8>) -> (n: usize)
    ensures
        n == code_map_keys(*m).len(),
{
    m.len()
}

/// Relies on `heapless::IndexMap::keys`: iteration yields the keys in
/// storage order.
#[verifier::external_body]
pub(crate) fn code_map_key_vec(m: &FnvIndexMap<u8, bool, 8>) -> (keys: Vec<u8>)
    ensures
        keys@ == code_map_keys(*m),
{
    m.keys().copied().collect()
}

} // verus!
