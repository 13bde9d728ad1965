//! Creating and reading terms of type binary.

use vstd::prelude::*;
use crate::wrapper::nif_interface::{c_int, NifInterface};
use crate::wrapper::{RawNifEnv, RawNifTerm};

pub use crate::wrapper::nif_interface::ErlNifBinary;

verus! {

/// The buffer that a status code and an out-parameter stand for: nothing
/// where the status is 0.
pub open spec fn binary_of_reply(reply: (c_int, ErlNifBinary)) -> Option<ErlNifBinary> {
    if reply.0 == 0 {
        None
    } else {
        Some(reply.1)
    }
}

/// Reads a status code and an out-parameter as [`binary_of_reply`] says.
pub fn checked_binary(success: c_int, binary: ErlNifBinary) -> (r: Option<ErlNifBinary>)
    ensures
        r == binary_of_reply((success, binary)),
{
    if success == 0 {
        None
    } else {
        Some(binary)
    }
}

/// Allocates a new binary of `size` bytes: the VM's answer, unless its
/// status is 0. The binary must either be released with [`release_binary`]
/// or handed over to a term with [`make_binary`].
pub fn alloc_binary<V: NifInterface>(vm: &V, size: usize) -> (binary: Option<ErlNifBinary>)
    ensures
        exists|reply: (c_int, ErlNifBinary)|
            #[trigger] call_ensures(V::enif_alloc_binary, (vm, size), reply) && binary
                == binary_of_reply(reply),
{
    let (success, binary) = vm.enif_alloc_binary(size);
    checked_binary(success, binary)
}

/// The data of the binary `bin_term`: the VM's answer, unless its status is
/// 0, which it is where `bin_term` is no binary.
pub fn inspect_binary<'a, V: NifInterface>(vm: &V, env: RawNifEnv<'a>, bin_term: RawNifTerm<'a>) -> (
    binary: Option<ErlNifBinary>)
    ensures
        exists|reply: (c_int, ErlNifBinary)|
            #[trigger] call_ensures(V::enif_inspect_binary, (vm, env.0, bin_term.0), reply)
                && binary == binary_of_reply(reply),
{
    let (success, binary) = vm.enif_inspect_binary(env.0, bin_term.0);
    checked_binary(success, binary)
}

/// A term that is the part of `bin_term` that starts at `pos` and is `size`
/// bytes long, as the VM makes it.
///
/// The VM expects `bin_term` to be a binary and `pos + size` to be at most
/// its length; the caller answers for both.
pub fn make_sub_binary<'a, V: NifInterface>(
    vm: &V,
    env: RawNifEnv<'a>,
    bin_term: RawNifTerm<'a>,
    pos: usize,
    size: usize,
) -> (sub: RawNifTerm<'a>)
    ensures
        call_ensures(V::enif_make_sub_binary, (vm, env.0, bin_term.0, pos, size), sub.0),
{
    RawNifTerm::new(vm.enif_make_sub_binary(env.0, bin_term.0, pos, size))
}

/// A binary term of the data of `binary`, as the VM makes it. The buffer
/// belongs to the term afterwards.
pub fn make_binary<'a, V: NifInterface>(vm: &V, env: RawNifEnv<'a>, binary: &ErlNifBinary) -> (term:
    RawNifTerm<'a>)
    ensures
        call_ensures(V::enif_make_binary, (vm, env.0, binary), term.0),
{
    RawNifTerm::new(vm.enif_make_binary(env.0, binary))
}

/// Frees a binary that [`alloc_binary`] gave.
pub fn release_binary<V: NifInterface>(vm: &V, binary: &ErlNifBinary) {
    vm.enif_release_binary(binary);
}

} // verus!
