//! Resource types and resource objects.

use vstd::prelude::*;
use crate::wrapper::nif_interface::{
    c_int, NifInterface, NifResourceDtor, NifResourceFlags, NIF_RESOURCE_HANDLE,
    NIF_RESOURCE_TYPE,
};
use crate::wrapper::{RawNifEnv, RawNifTerm};

verus! {

/// Whether `name` can be handed to the VM as a C string: it holds no zero
/// character.
pub open spec fn is_c_name(name: Seq<char>) -> bool {
    forall|i: int| 0 <= i < name.len() ==> name[i] != '\0'
}

/// The resource type that a handle stands for: nothing for the null handle.
pub open spec fn type_of_reply(reply: NIF_RESOURCE_TYPE) -> Option<NIF_RESOURCE_TYPE> {
    if reply == 0 {
        None
    } else {
        Some(reply)
    }
}

/// Reads a resource type handle as [`type_of_reply`] says.
pub fn checked_type(reply: NIF_RESOURCE_TYPE) -> (r: Option<NIF_RESOURCE_TYPE>)
    ensures
        r == type_of_reply(reply),
{
    if reply == 0 {
        None
    } else {
        Some(reply)
    }
}

/// Opens the resource type `name`: the VM's answer, unless it is the null
/// handle.
pub fn open_resource_type<'a, V: NifInterface>(
    vm: &V,
    env: RawNifEnv<'a>,
    name: &str,
    dtor: Option<NifResourceDtor>,
    flags: NifResourceFlags,
) -> (typ: Option<NIF_RESOURCE_TYPE>)
    requires
        is_c_name(name@),
    ensures
        exists|reply: NIF_RESOURCE_TYPE|
            #[trigger] call_ensures(
                V::enif_open_resource_type,
                (vm, env.0, name, dtor, flags),
                reply,
            ) && typ == type_of_reply(reply),
{
    let res = vm.enif_open_resource_type(env.0, name, dtor, flags);
    checked_type(res)
}

/// The object that a status code and an out-parameter stand for: nothing
/// where the status is 0.
pub open spec fn object_of_reply(reply: (c_int, NIF_RESOURCE_HANDLE)) -> Option<
    NIF_RESOURCE_HANDLE,
> {
    if reply.0 == 0 {
        None
    } else {
        Some(reply.1)
    }
}

/// Reads a status code and an out-parameter as [`object_of_reply`] says.
pub fn checked_object(res: c_int, obj: NIF_RESOURCE_HANDLE) -> (r: Option<NIF_RESOURCE_HANDLE>)
    ensures
        r == object_of_reply((res, obj)),
{
    if res == 0 {
        None
    } else {
        Some(obj)
    }
}

/// The resource object behind `term`, if `term` is a resource of type `typ`:
/// the VM's answer, unless its status is 0.
pub fn get_resource<'a, V: NifInterface>(
    vm: &V,
    env: RawNifEnv<'a>,
    term: RawNifTerm<'a>,
    typ: NIF_RESOURCE_TYPE,
) -> (obj: Option<NIF_RESOURCE_HANDLE>)
    ensures
        exists|reply: (c_int, NIF_RESOURCE_HANDLE)|
            #[trigger] call_ensures(V::enif_get_resource, (vm, env.0, term.0, typ), reply) && obj
                == object_of_reply(reply),
{
    let (res, ret_obj) = vm.enif_get_resource(env.0, term.0, typ);
    checked_object(res, ret_obj)
}

pub fn alloc_resource<V: NifInterface>(vm: &V, typ: NIF_RESOURCE_TYPE, size: usize) -> (obj:
    NIF_RESOURCE_HANDLE)
    ensures
        call_ensures(V::enif_alloc_resource, (vm, typ, size), obj),
{
    vm.enif_alloc_resource(typ, size)
}

pub fn make_resource<'a, V: NifInterface>(vm: &V, env: RawNifEnv<'a>, obj: NIF_RESOURCE_HANDLE) -> (
    term: RawNifTerm<'a>)
    ensures
        call_ensures(V::enif_make_resource, (vm, env.0, obj), term.0),
{
    RawNifTerm::new(vm.enif_make_resource(env.0, obj))
}

pub fn release_resource<V: NifInterface>(vm: &V, obj: NIF_RESOURCE_HANDLE) {
    vm.enif_release_resource(obj)
}

pub fn keep_resource<V: NifInterface>(vm: &V, obj: NIF_RESOURCE_HANDLE) {
    vm.enif_keep_resource(obj)
}

} // verus!
