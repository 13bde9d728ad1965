//! Tests of what kind a term is.

use vstd::prelude::*;
use crate::wrapper::nif_interface::{c_int, NifInterface};
use crate::wrapper::{RawNifEnv, RawNifTerm};

verus! {

/// Whether a status code of the VM says yes.
pub open spec fn is_yes(status: c_int) -> bool {
    status == 1
}

pub fn is_atom<'a, V: NifInterface>(vm: &V, env: RawNifEnv<'a>, term: RawNifTerm<'a>) -> (yes: bool)
    ensures
        exists|status: c_int|
            #[trigger] call_ensures(V::enif_is_atom, (vm, env.0, term.0), status) && yes == is_yes(
                status,
            ),
{
    vm.enif_is_atom(env.0, term.0) == 1
}

pub fn is_binary<'a, V: NifInterface>(vm: &V, env: RawNifEnv<'a>, term: RawNifTerm<'a>) -> (yes:
    bool)
    ensures
        exists|status: c_int|
            #[trigger] call_ensures(V::enif_is_binary, (vm, env.0, term.0), status) && yes
                == is_yes(status),
{
    vm.enif_is_binary(env.0, term.0) == 1
}

pub fn is_empty_list<'a, V: NifInterface>(vm: &V, env: RawNifEnv<'a>, term: RawNifTerm<'a>) -> (yes:
    bool)
    ensures
        exists|status: c_int|
            #[trigger] call_ensures(V::enif_is_empty_list, (vm, env.0, term.0), status) && yes
                == is_yes(status),
{
    vm.enif_is_empty_list(env.0, term.0) == 1
}

pub fn is_exception<'a, V: NifInterface>(vm: &V, env: RawNifEnv<'a>, term: RawNifTerm<'a>) -> (yes:
    bool)
    ensures
        exists|status: c_int|
            #[trigger] call_ensures(V::enif_is_exception, (vm, env.0, term.0), status) && yes
                == is_yes(status),
{
    vm.enif_is_exception(env.0, term.0) == 1
}

pub fn is_fun<'a, V: NifInterface>(vm: &V, env: RawNifEnv<'a>, term: RawNifTerm<'a>) -> (yes: bool)
    ensures
        exists|status: c_int|
            #[trigger] call_ensures(V::enif_is_fun, (vm, env.0, term.0), status) && yes == is_yes(
                status,
            ),
{
    vm.enif_is_fun(env.0, term.0) == 1
}

pub fn is_list<'a, V: NifInterface>(vm: &V, env: RawNifEnv<'a>, term: RawNifTerm<'a>) -> (yes: bool)
    ensures
        exists|status: c_int|
            #[trigger] call_ensures(V::enif_is_list, (vm, env.0, term.0), status) && yes == is_yes(
                status,
            ),
{
    vm.enif_is_list(env.0, term.0) == 1
}

pub fn is_map<'a, V: NifInterface>(vm: &V, env: RawNifEnv<'a>, term: RawNifTerm<'a>) -> (yes: bool)
    ensures
        exists|status: c_int|
            #[trigger] call_ensures(V::enif_is_map, (vm, env.0, term.0), status) && yes == is_yes(
                status,
            ),
{
    vm.enif_is_map(env.0, term.0) == 1
}

pub fn is_pid<'a, V: NifInterface>(vm: &V, env: RawNifEnv<'a>, term: RawNifTerm<'a>) -> (yes: bool)
    ensures
        exists|status: c_int|
            #[trigger] call_ensures(V::enif_is_pid, (vm, env.0, term.0), status) && yes == is_yes(
                status,
            ),
{
    vm.enif_is_pid(env.0, term.0) == 1
}

pub fn is_port<'a, V: NifInterface>(vm: &V, env: RawNifEnv<'a>, term: RawNifTerm<'a>) -> (yes: bool)
    ensures
        exists|status: c_int|
            #[trigger] call_ensures(V::enif_is_port, (vm, env.0, term.0), status) && yes == is_yes(
                status,
            ),
{
    vm.enif_is_port(env.0, term.0) == 1
}

pub fn is_ref<'a, V: NifInterface>(vm: &V, env: RawNifEnv<'a>, term: RawNifTerm<'a>) -> (yes: bool)
    ensures
        exists|status: c_int|
            #[trigger] call_ensures(V::enif_is_ref, (vm, env.0, term.0), status) && yes == is_yes(
                status,
            ),
{
    vm.enif_is_ref(env.0, term.0) == 1
}

pub fn is_tuple<'a, V: NifInterface>(vm: &V, env: RawNifEnv<'a>, term: RawNifTerm<'a>) -> (yes:
    bool)
    ensures
        exists|status: c_int|
            #[trigger] call_ensures(V::enif_is_tuple, (vm, env.0, term.0), status) && yes
                == is_yes(status),
{
    vm.enif_is_tuple(env.0, term.0) == 1
}

} // verus!
