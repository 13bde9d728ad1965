//! Raising exceptions when the current NIF returns.

use vstd::prelude::*;
use crate::wrapper::nif_interface::{NifInterface, NIF_TERM};
use crate::wrapper::{RawNifEnv, RawNifTerm};

verus! {

/// Tells the VM to raise an error exception with the term `reason` when the
/// current NIF returns.
///
/// What comes back can only be used as the return value of the NIF that
/// asked for it. It must not be passed to any other function.
pub fn raise_exception<'a, V: NifInterface>(
    vm: &V,
    env: RawNifEnv<'a>,
    reason: RawNifTerm<'a>,
) -> (raised: NIF_TERM)
    ensures
        call_ensures(V::enif_raise_exception, (vm, env.0, reason.0), raised),
{
    vm.enif_raise_exception(env.0, reason.0)
}

/// Tells the VM to raise a `badarg` exception when the current NIF returns.
///
/// What comes back can only be used as the return value of the NIF that
/// asked for it. It must not be passed to any other function.
pub fn raise_badarg<'a, V: NifInterface>(vm: &V, env: RawNifEnv<'a>) -> (raised: NIF_TERM)
    ensures
        call_ensures(V::enif_make_badarg, (vm, env.0), raised),
{
    vm.enif_make_badarg(env.0)
}

} // verus!
