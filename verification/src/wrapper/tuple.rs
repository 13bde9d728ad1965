//! Tuples: taking one apart and making one.

use vstd::prelude::*;
use crate::wrapper::nif_interface::{c_int, c_uint, NifInterface, NIF_ERROR, NIF_TERM};
use crate::wrapper::{handles_of, raw_handles, tag_handles, tagged, RawNifEnv, RawNifTerm};

verus! {

/// The elements that a status code and an array stand for: the elements in
/// order where the status is 1, `BAD_ARG` otherwise.
pub open spec fn elements_of_reply<'a>(reply: (c_int, Vec<NIF_TERM>)) -> Result<
    Seq<RawNifTerm<'a>>,
    NIF_ERROR,
> {
    if reply.0 == 1 {
        Ok(tagged::<'a>(reply.1@))
    } else {
        Err(NIF_ERROR::BAD_ARG)
    }
}

/// The view of what [`get_tuple`] returns.
pub open spec fn elements_view<'a>(r: Result<Vec<RawNifTerm<'a>>, NIF_ERROR>) -> Result<
    Seq<RawNifTerm<'a>>,
    NIF_ERROR,
> {
    match r {
        Ok(terms) => Ok(terms@),
        Err(e) => Err(e),
    }
}

/// Reads a status code and an array as [`elements_of_reply`] says.
pub fn checked_elements<'a>(success: c_int, array: Vec<NIF_TERM>) -> (r: Result<
    Vec<RawNifTerm<'a>>,
    NIF_ERROR,
>)
    ensures
        elements_view(r) == elements_of_reply::<'a>((success, array)),
{
    if success != 1 {
        return Err(NIF_ERROR::BAD_ARG);
    }
    Ok(tag_handles(&array))
}

/// The elements of the tuple `term`, in order: the VM's answer, where its
/// status is 1, and `BAD_ARG` where it is not.
pub fn get_tuple<'a, V: NifInterface>(vm: &V, env: RawNifEnv<'a>, term: RawNifTerm<'a>) -> (r:
    Result<Vec<RawNifTerm<'a>>, NIF_ERROR>)
    ensures
        exists|reply: (c_int, Vec<NIF_TERM>)|
            #[trigger] call_ensures(V::enif_get_tuple, (vm, env.0, term.0), reply) && elements_view(
                r,
            ) == elements_of_reply::<'a>(reply),
{
    let (success, array) = vm.enif_get_tuple(env.0, term.0);
    checked_elements(success, array)
}

/// The element count handed to the VM for an array of `len` terms: `len`
/// cut down to 32 bits.
pub open spec fn count_of(len: usize) -> c_uint {
    len as c_uint
}

/// Computes [`count_of`].
pub fn element_count(len: usize) -> (cnt: c_uint)
    ensures
        cnt == count_of(len),
{
    #[verifier::truncate]
    (len as c_uint)
}

/// A tuple of `terms`: the VM's answer to a request that holds the handles
/// of `terms`, in order, and their count.
pub fn make_tuple<'a, V: NifInterface>(vm: &V, env: RawNifEnv<'a>, terms: &[RawNifTerm<'a>]) -> (
    tuple: RawNifTerm<'a>)
    ensures
        exists|arr: Vec<NIF_TERM>|
            arr@ == handles_of(terms@) && #[trigger] call_ensures(
                V::enif_make_tuple_from_array,
                (vm, env.0, &arr, count_of(terms@.len() as usize)),
                tuple.0,
            ),
{
    let arr = raw_handles(terms);
    let cnt = element_count(terms.len());
    let tuple = vm.enif_make_tuple_from_array(env.0, &arr, cnt);
    assert(call_ensures(
        V::enif_make_tuple_from_array,
        (vm, env.0, &arr, count_of(terms@.len() as usize)),
        tuple,
    ));
    RawNifTerm::new(tuple)
}

} // verus!
