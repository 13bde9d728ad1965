//! Lists: cells, length, and making lists.

use vstd::prelude::*;
use crate::wrapper::nif_interface::{c_int, c_uint, NifInterface, NIF_TERM};
use crate::wrapper::tuple::{count_of, element_count};
use crate::wrapper::{
    checked_pair, checked_term, handles_of, pair_of_reply, raw_handles, term_of_reply, RawNifEnv,
    RawNifTerm,
};

verus! {

/// The head and the tail of `list`: the VM's answer, where its status is 1.
pub fn get_list_cell<'a, V: NifInterface>(vm: &V, env: RawNifEnv<'a>, list: RawNifTerm<'a>) -> (cell:
    Option<(RawNifTerm<'a>, RawNifTerm<'a>)>)
    ensures
        exists|reply: (c_int, NIF_TERM, NIF_TERM)|
            #[trigger] call_ensures(V::enif_get_list_cell, (vm, env.0, list.0), reply) && cell
                == pair_of_reply::<'a>(reply),
{
    let (success, head, tail) = vm.enif_get_list_cell(env.0, list.0);
    checked_pair(success, head, tail)
}

/// The length that a status code and an out-parameter stand for.
pub open spec fn length_of_reply(reply: (c_int, c_uint)) -> Option<usize> {
    if reply.0 == 1 {
        Some(reply.1 as usize)
    } else {
        None
    }
}

/// The length of `list`: the VM's answer, where its status is 1.
pub fn get_list_length<'a, V: NifInterface>(vm: &V, env: RawNifEnv<'a>, list: RawNifTerm<'a>) -> (
    length: Option<usize>)
    ensures
        exists|reply: (c_int, c_uint)|
            #[trigger] call_ensures(V::enif_get_list_length, (vm, env.0, list.0), reply) && length
                == length_of_reply(reply),
{
    let (success, len) = vm.enif_get_list_length(env.0, list.0);
    if success != 1 {
        return None;
    }
    Some(len as usize)
}

/// A list of `arr`: the VM's answer to a request that holds the handles of
/// `arr`, in order, and their count.
pub fn make_list<'a, V: NifInterface>(vm: &V, env: RawNifEnv<'a>, arr: &[RawNifTerm<'a>]) -> (list:
    RawNifTerm<'a>)
    ensures
        exists|handles: Vec<NIF_TERM>|
            handles@ == handles_of(arr@) && #[trigger] call_ensures(
                V::enif_make_list_from_array,
                (vm, env.0, &handles, count_of(arr@.len() as usize)),
                list.0,
            ),
{
    let handles = raw_handles(arr);
    let cnt = element_count(arr.len());
    let list = vm.enif_make_list_from_array(env.0, &handles, cnt);
    assert(call_ensures(
        V::enif_make_list_from_array,
        (vm, env.0, &handles, count_of(arr@.len() as usize)),
        list,
    ));
    RawNifTerm::new(list)
}

/// The list cell of `head` and `tail`, as the VM makes it.
pub fn make_list_cell<'a, V: NifInterface>(
    vm: &V,
    env: RawNifEnv<'a>,
    head: RawNifTerm<'a>,
    tail: RawNifTerm<'a>,
) -> (cell: RawNifTerm<'a>)
    ensures
        call_ensures(V::enif_make_list_cell, (vm, env.0, head.0, tail.0), cell.0),
{
    RawNifTerm::new(vm.enif_make_list_cell(env.0, head.0, tail.0))
}

/// `list` reversed: the VM's answer, where its status is 1.
pub fn make_reverse_list<'a, V: NifInterface>(vm: &V, env: RawNifEnv<'a>, list: RawNifTerm<'a>) -> (
    reversed: Option<RawNifTerm<'a>>)
    ensures
        exists|reply: (c_int, NIF_TERM)|
            #[trigger] call_ensures(V::enif_make_reverse_list, (vm, env.0, list.0), reply)
                && reversed == term_of_reply::<'a>(reply),
{
    let (success, list_out) = vm.enif_make_reverse_list(env.0, list.0);
    checked_term(success, list_out)
}

} // verus!
