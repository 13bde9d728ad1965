//! Taking tuples apart and making them.

use vstd::prelude::*;
use crate::wrapper::nif_interface::{c_int, NifInterface, NIF_ERROR, NIF_TERM};
use crate::wrapper::tuple::{count_of, elements_of_reply};
use crate::wrapper::RawNifTerm;
use crate::{NifEnv, NifError, NifTerm};

verus! {

/// The terms `raw`, in order, each in the environment `env`.
pub open spec fn terms_in<'a>(env: NifEnv<'a>, raw: Seq<RawNifTerm<'a>>) -> Seq<NifTerm<'a>> {
    raw.map_values(|term: RawNifTerm<'a>| NifTerm { term: term, env: env })
}

/// The raw terms of `terms`, in order.
pub open spec fn raw_of<'a>(terms: Seq<NifTerm<'a>>) -> Seq<RawNifTerm<'a>> {
    terms.map_values(|term: NifTerm<'a>| term.term)
}

/// The handles of `terms`, in order.
pub open spec fn handles_in<'a>(terms: Seq<NifTerm<'a>>) -> Seq<NIF_TERM> {
    terms.map_values(|term: NifTerm<'a>| term.term.0)
}

/// Puts each of `raw` into `env`, keeping their order.
pub fn wrap_terms<'a>(env: NifEnv<'a>, raw: &Vec<RawNifTerm<'a>>) -> (terms: Vec<NifTerm<'a>>)
    ensures
        terms@ == terms_in(env, raw@),
{
    let mut terms: Vec<NifTerm<'a>> = Vec::new();
    let mut i: usize = 0;
    while i < raw.len()
        invariant
            i <= raw.len(),
            terms@ == terms_in(env, raw@.take(i as int)),
        decreases raw.len() - i,
    {
        terms.push(NifTerm::new(env, raw[i]));
        i += 1;
    }
    terms
}

/// What [`get_tuple`] returns for the elements the VM gave: the elements in
/// order, each in `env`, or `BadArg` where the VM gave none.
pub open spec fn elements_or_badarg<'a, V: NifInterface>(
    env: NifEnv<'a>,
    elements: Result<Seq<RawNifTerm<'a>>, NIF_ERROR>,
) -> Result<Seq<NifTerm<'a>>, NifError<V>> {
    match elements {
        Ok(raw) => Ok(terms_in(env, raw)),
        Err(_) => Err(NifError::BadArg),
    }
}

/// The view of a result that holds a vector of terms.
pub open spec fn terms_view<'a, V: NifInterface>(r: Result<Vec<NifTerm<'a>>, NifError<V>>) -> Result<
    Seq<NifTerm<'a>>,
    NifError<V>,
> {
    match r {
        Ok(terms) => Ok(terms@),
        Err(e) => Err(e),
    }
}

/// The elements of the tuple `term`, in order and in the environment of
/// `term`, or `BadArg` where the VM says that `term` is no tuple.
pub fn get_tuple<'a, V: NifInterface>(vm: &V, term: NifTerm<'a>) -> (r: Result<
    Vec<NifTerm<'a>>,
    NifError<V>,
>)
    ensures
        exists|reply: (c_int, Vec<NIF_TERM>)|
            #[trigger] call_ensures(V::enif_get_tuple, (vm, term.env.handle(), term.term.0), reply)
                && terms_view(r) == elements_or_badarg::<V>(term.env, elements_of_reply(reply)),
{
    let env = term.get_env();
    match crate::wrapper::get_tuple(vm, env.raw(), term.raw()) {
        Ok(terms) => Ok(wrap_terms(env, &terms)),
        Err(_error) => Err(NifError::BadArg),
    }
}

/// Takes each of `terms` out of its environment, keeping their order.
pub fn unwrap_terms<'a>(terms: &[NifTerm<'a>]) -> (raw: Vec<RawNifTerm<'a>>)
    ensures
        raw@ == raw_of(terms@),
{
    let mut raw: Vec<RawNifTerm<'a>> = Vec::new();
    let mut i: usize = 0;
    while i < terms.len()
        invariant
            i <= terms.len(),
            raw@ == raw_of(terms@.take(i as int)),
        decreases terms.len() - i,
    {
        raw.push(terms[i].raw());
        i += 1;
    }
    raw
}

/// A tuple of `terms` in `env`: the VM's answer to a request that holds the
/// handles of `terms`, in order, and their count.
pub fn make_tuple<'a, V: NifInterface>(vm: &V, env: NifEnv<'a>, terms: &[NifTerm<'a>]) -> (tuple:
    NifTerm<'a>)
    ensures
        tuple.env == env,
        exists|arr: Vec<NIF_TERM>|
            arr@ == handles_in(terms@) && #[trigger] call_ensures(
                V::enif_make_tuple_from_array,
                (vm, env.handle(), &arr, count_of(terms@.len() as usize)),
                tuple.term.0,
            ),
{
    let c_terms = unwrap_terms(terms);
    let tuple = crate::wrapper::tuple::make_tuple(vm, env.raw(), c_terms.as_slice());
    proof {
        let arr = choose|arr: Vec<NIF_TERM>|
            arr@ == crate::wrapper::handles_of(c_terms@) && #[trigger] call_ensures(
                V::enif_make_tuple_from_array,
                (vm, env.env.0, &arr, count_of(c_terms@.len() as usize)),
                tuple.0,
            );
        assert(call_ensures(
            V::enif_make_tuple_from_array,
            (vm, env.handle(), &arr, count_of(terms@.len() as usize)),
            tuple.0,
        ));
    }
    NifTerm::new(env, tuple)
}

} // verus!
