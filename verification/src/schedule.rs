//! Telling the VM how much of its timeslice a NIF has used.

use vstd::prelude::*;
use crate::wrapper::check::is_yes;
use crate::wrapper::nif_interface::{c_int, NifInterface};
use crate::NifEnv;

verus! {

/// Reports to the VM that the NIF has used `percent` of a timeslice, and
/// hands on the VM's answer: whether the timeslice is used up.
pub fn consume_timeslice<'a, V: NifInterface>(vm: &V, env: NifEnv<'a>, percent: i32) -> (exhausted:
    bool)
    ensures
        exists|status: c_int|
            #[trigger] call_ensures(V::enif_consume_timeslice, (vm, env.handle(), percent), status)
                && exhausted == is_yes(status),
{
    let success = vm.enif_consume_timeslice(env.raw().as_c_arg(), percent);
    success == 1
}

} // verus!
