//! Maps: lookup, size, the functional updates, and iteration.

use vstd::prelude::*;
use crate::wrapper::nif_interface::{
    c_int, size_t, ErlNifMapIteratorEntry, NifInterface, NIF_TERM,
};
use crate::wrapper::{
    checked_pair, checked_term, pair_of_reply, term_of_reply, RawNifEnv, RawNifTerm,
};

pub use crate::wrapper::nif_interface::ErlNifMapIterator;

verus! {

/// The value under `key` in `map`: the VM's answer, where its status is 1.
pub fn get_map_value<'a, V: NifInterface>(
    vm: &V,
    env: RawNifEnv<'a>,
    map: RawNifTerm<'a>,
    key: RawNifTerm<'a>,
) -> (value: Option<RawNifTerm<'a>>)
    ensures
        exists|reply: (c_int, NIF_TERM)|
            #[trigger] call_ensures(V::enif_get_map_value, (vm, env.0, map.0, key.0), reply)
                && value == term_of_reply::<'a>(reply),
{
    let (success, result) = vm.enif_get_map_value(env.0, map.0, key.0);
    checked_term(success, result)
}

/// The size that a status code and an out-parameter stand for.
pub open spec fn size_of_reply(reply: (c_int, size_t)) -> Option<usize> {
    if reply.0 == 1 {
        Some(reply.1)
    } else {
        None
    }
}

/// The number of entries of `map`: the VM's answer, where its status is 1.
pub fn get_map_size<'a, V: NifInterface>(vm: &V, env: RawNifEnv<'a>, map: RawNifTerm<'a>) -> (size:
    Option<usize>)
    ensures
        exists|reply: (c_int, size_t)|
            #[trigger] call_ensures(V::enif_get_map_size, (vm, env.0, map.0), reply) && size
                == size_of_reply(reply),
{
    let (success, size) = vm.enif_get_map_size(env.0, map.0);
    if success != 1 {
        return None;
    }
    Some(size)
}

/// A new empty map, as the VM makes it.
pub fn map_new<'a, V: NifInterface>(vm: &V, env: RawNifEnv<'a>) -> (map: RawNifTerm<'a>)
    ensures
        call_ensures(V::enif_make_new_map, (vm, env.0), map.0),
{
    RawNifTerm::new(vm.enif_make_new_map(env.0))
}

/// A copy of `map` with `key` set to `value`: the VM's answer, where its
/// status is 1.
pub fn map_put<'a, V: NifInterface>(
    vm: &V,
    env: RawNifEnv<'a>,
    map: RawNifTerm<'a>,
    key: RawNifTerm<'a>,
    value: RawNifTerm<'a>,
) -> (new_map: Option<RawNifTerm<'a>>)
    ensures
        exists|reply: (c_int, NIF_TERM)|
            #[trigger] call_ensures(
                V::enif_make_map_put,
                (vm, env.0, map.0, key.0, value.0),
                reply,
            ) && new_map == term_of_reply::<'a>(reply),
{
    let (success, result) = vm.enif_make_map_put(env.0, map.0, key.0, value.0);
    checked_term(success, result)
}

/// A copy of `map` without `key`: the VM's answer, where its status is 1.
pub fn map_remove<'a, V: NifInterface>(
    vm: &V,
    env: RawNifEnv<'a>,
    map: RawNifTerm<'a>,
    key: RawNifTerm<'a>,
) -> (new_map: Option<RawNifTerm<'a>>)
    ensures
        exists|reply: (c_int, NIF_TERM)|
            #[trigger] call_ensures(V::enif_make_map_remove, (vm, env.0, map.0, key.0), reply)
                && new_map == term_of_reply::<'a>(reply),
{
    let (success, result) = vm.enif_make_map_remove(env.0, map.0, key.0);
    checked_term(success, result)
}

/// A copy of `map` with the value under `key` replaced: the VM's answer,
/// where its status is 1.
pub fn map_update<'a, V: NifInterface>(
    vm: &V,
    env: RawNifEnv<'a>,
    map: RawNifTerm<'a>,
    key: RawNifTerm<'a>,
    new_value: RawNifTerm<'a>,
) -> (new_map: Option<RawNifTerm<'a>>)
    ensures
        exists|reply: (c_int, NIF_TERM)|
            #[trigger] call_ensures(
                V::enif_make_map_update,
                (vm, env.0, map.0, key.0, new_value.0),
                reply,
            ) && new_map == term_of_reply::<'a>(reply),
{
    let (success, result) = vm.enif_make_map_update(env.0, map.0, key.0, new_value.0);
    checked_term(success, result)
}

/// A map iterator of the VM, tagged with the lifetime of its environment.
#[derive(Debug)]
pub struct RawNifMapIterator<'a>(pub ErlNifMapIterator, pub std::marker::PhantomData<&'a u8>);

/// The iterator that a status code and an out-parameter stand for.
pub open spec fn iterator_of_reply<'a>(reply: (c_int, ErlNifMapIterator)) -> Option<
    RawNifMapIterator<'a>,
> {
    if reply.0 == 1 {
        Some(RawNifMapIterator(reply.1, std::marker::PhantomData))
    } else {
        None
    }
}

/// An iterator at the head of `map`: the VM's answer, where its status is 1.
pub fn map_iterator_create<'a, V: NifInterface>(
    vm: &V,
    env: RawNifEnv<'a>,
    map: RawNifTerm<'a>,
) -> (iter: Option<RawNifMapIterator<'a>>)
    ensures
        exists|reply: (c_int, ErlNifMapIterator)|
            #[trigger] call_ensures(
                V::enif_map_iterator_create,
                (vm, env.0, map.0, ErlNifMapIteratorEntry::ERL_NIF_MAP_ITERATOR_HEAD),
                reply,
            ) && iter == iterator_of_reply::<'a>(reply),
{
    let (success, iter) = vm.enif_map_iterator_create(
        env.0,
        map.0,
        ErlNifMapIteratorEntry::ERL_NIF_MAP_ITERATOR_HEAD,
    );
    if success != 1 {
        return None;
    }
    Some(RawNifMapIterator(iter, std::marker::PhantomData))
}

/// Hands the iterator back to the VM, which frees what it holds.
pub fn map_iterator_destroy<'a, V: NifInterface>(
    vm: &V,
    env: RawNifEnv<'a>,
    iter: RawNifMapIterator<'a>,
) {
    vm.enif_map_iterator_destroy(env.0, iter.0);
}

/// The key and value under the iterator: the VM's answer, where its status
/// is 1. The iterator stays where it is.
pub fn map_iterator_get_pair<'a, V: NifInterface>(
    vm: &V,
    env: RawNifEnv<'a>,
    iter: &RawNifMapIterator<'a>,
) -> (pair: Option<(RawNifTerm<'a>, RawNifTerm<'a>)>)
    ensures
        exists|reply: (c_int, NIF_TERM, NIF_TERM)|
            #[trigger] call_ensures(V::enif_map_iterator_get_pair, (vm, env.0, &iter.0), reply)
                && pair == pair_of_reply::<'a>(reply),
{
    let (success, key, value) = vm.enif_map_iterator_get_pair(env.0, &iter.0);
    checked_pair(success, key, value)
}

/// Moves the iterator one entry on: the new position is the one the VM
/// answers with, whatever its status.
pub fn map_iterator_next<'a, V: NifInterface>(
    vm: &V,
    env: RawNifEnv<'a>,
    iter: &RawNifMapIterator<'a>,
) -> (moved: RawNifMapIterator<'a>)
    ensures
        exists|reply: (c_int, ErlNifMapIterator)|
            #[trigger] call_ensures(V::enif_map_iterator_next, (vm, env.0, &iter.0), reply)
                && moved.0 == reply.1,
{
    let (_success, moved) = vm.enif_map_iterator_next(env.0, &iter.0);
    RawNifMapIterator(moved, std::marker::PhantomData)
}

} // verus!
