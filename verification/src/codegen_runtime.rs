//! The entry points that the VM calls, as far as they decide anything.
//!
//! This is the last layer before the VM. Whatever a native function does,
//! what goes back to the VM from here is a term or a status code.

use vstd::prelude::*;
use crate::atom::get_atom_init;
use crate::tuple::terms_in;
use crate::wrapper::exception;
use crate::wrapper::nif_interface::{c_int, NifInterface, NIF_ENV, NIF_TERM};
use crate::wrapper::{tagged, RawNifEnv, RawNifTerm};
use crate::{raises_atom, NifEnv, NifResult, NifTerm};

verus! {

/// The environment with the handle `r_env`.
pub open spec fn env_of<'a>(r_env: NIF_ENV) -> NifEnv<'a> {
    NifEnv { env: RawNifEnv(r_env, std::marker::PhantomData) }
}

/// The arguments of a call: the handles `argv`, in their order, each a term
/// of the environment `r_env`.
pub open spec fn arguments<'a>(r_env: NIF_ENV, argv: Seq<NIF_TERM>) -> Seq<NifTerm<'a>> {
    terms_in(env_of::<'a>(r_env), tagged::<'a>(argv))
}

/// Wraps the arguments of a call as [`arguments`] says.
pub fn wrap_arguments<'a>(env: NifEnv<'a>, argv: &[NIF_TERM]) -> (terms: Vec<NifTerm<'a>>)
    ensures
        terms@ == arguments::<'a>(env.handle(), argv@),
        terms@.len() == argv@.len(),
        forall|i: int| 0 <= i < argv@.len() ==> terms@[i] == NifTerm::of(env, argv@[i]),
{
    let mut terms: Vec<NifTerm<'a>> = Vec::new();
    let mut i: usize = 0;
    while i < argv.len()
        invariant
            i <= argv.len(),
            terms@ == arguments::<'a>(env.handle(), argv@.take(i as int)),
        decreases argv.len() - i,
    {
        terms.push(NifTerm::new(env, RawNifTerm::new(argv[i])));
        i += 1;
    }
    terms
}

/// Whether `outcome` is what goes back to the VM for the result `result` of
/// a native function: the handle of the term for `Ok`, and for `Err` what
/// the error encodes as.
pub open spec fn answers<V: NifInterface>(
    vm: &V,
    env: NifEnv,
    result: NifResult<NifTerm, V>,
    outcome: NIF_TERM,
) -> bool {
    match result {
        Ok(ret) => outcome == ret.term.0,
        Err(err) => err.encodes_as(vm, env, outcome),
    }
}

/// Turns the result of a native function into what goes back to the VM, as
/// [`answers`] says.
pub fn finish_call<'a, V: NifInterface>(
    vm: &V,
    env: NifEnv<'a>,
    result: NifResult<NifTerm<'a>, V>,
) -> (outcome: NIF_TERM)
    ensures
        answers(vm, env, result, outcome),
{
    match result {
        Ok(ret) => ret.raw().as_c_arg(),
        Err(err) => err.encode(vm, env),
    }
}

/// Whether `outcome` is what goes back to the VM for a call of `function`
/// with the arguments `argv` in the environment `r_env`: `function` was
/// called with that environment and with the arguments wrapped in the order
/// given, and `outcome` answers a result of that call.
pub open spec fn serves<'a, V: NifInterface, F>(
    vm: &V,
    function: F,
    r_env: NIF_ENV,
    argv: Seq<NIF_TERM>,
    outcome: NIF_TERM,
) -> bool where F: Fn(NifEnv<'a>, &Vec<NifTerm<'a>>) -> NifResult<NifTerm<'a>, V> {
    exists|terms: Vec<NifTerm<'a>>, result: NifResult<NifTerm<'a>, V>|
        {
            &&& terms@ == arguments::<'a>(r_env, argv)
            &&& #[trigger] call_ensures(function, (env_of::<'a>(r_env), &terms), result)
            &&& answers(vm, env_of::<'a>(r_env), result, outcome)
        }
}

/// Whether `function` can be called with the arguments `argv` in the
/// environment `r_env`, wrapped in the order given.
pub open spec fn accepts<'a, V: NifInterface, F>(
    function: F,
    r_env: NIF_ENV,
    argv: Seq<NIF_TERM>,
) -> bool where F: Fn(NifEnv<'a>, &Vec<NifTerm<'a>>) -> NifResult<NifTerm<'a>, V> {
    forall|terms: Vec<NifTerm<'a>>|
        terms@ == arguments::<'a>(r_env, argv) ==> call_requires(
            function,
            (env_of::<'a>(r_env), &terms),
        )
}

/// Runs the native function `function` for the VM.
///
/// The arguments are wrapped in the order given, each as a term of the
/// environment `r_env`; `function` is called once with that environment and
/// those arguments; and what goes back to the VM answers its result.
pub fn handle_nif_call<'a, V: NifInterface, F>(
    vm: &V,
    function: F,
    _arity: usize,
    r_env: NIF_ENV,
    argv: &[NIF_TERM],
) -> (outcome: NIF_TERM) where F: Fn(NifEnv<'a>, &Vec<NifTerm<'a>>) -> NifResult<NifTerm<'a>, V>
    requires
        accepts::<V, F>(function, r_env, argv@),
    ensures
        serves(vm, function, r_env, argv@, outcome),
{
    let env = NifEnv::new(RawNifEnv::new(r_env));
    let terms = wrap_arguments(env, argv);
    let result = function(env, &terms);
    let outcome = finish_call(vm, env, result);
    outcome
}

/// What goes back to the VM for a native function that did not come to an
/// end: the VM's answer to the request to raise the atom `nif_panic`.
pub fn handle_nif_panic<V: NifInterface>(vm: &V, r_env: NIF_ENV) -> (outcome: NIF_TERM)
    ensures
        raises_atom(vm, env_of(r_env), "nif_panic", outcome),
{
    let env = NifEnv::new(RawNifEnv::new(r_env));
    let reason = get_atom_init(vm, env, "nif_panic").to_term(env);
    exception::raise_exception(vm, env.raw(), reason.raw())
}

/// The status that the VM gets for the answer of a load function: 0 for
/// `true`, 1 for `false`.
pub open spec fn load_status(loaded: bool) -> c_int {
    if loaded {
        0
    } else {
        1
    }
}

/// Runs the load function `function` for the VM, if there is one.
///
/// Without a function the status is 0. With one, it is called once with the
/// environment `r_env` and the term `load_info` in it, and the status tells
/// its answer.
pub fn handle_nif_init_call<'a, F>(function: Option<F>, r_env: NIF_ENV, load_info: NIF_TERM) -> (
    status: c_int) where F: Fn(NifEnv<'a>, NifTerm<'a>) -> bool
    requires
        function matches Some(inner) ==> call_requires(
            inner,
            (env_of::<'a>(r_env), NifTerm::of(env_of::<'a>(r_env), load_info)),
        ),
    ensures
        function is None ==> status == 0,
        function matches Some(inner) ==> exists|loaded: bool|
            #[trigger] call_ensures(
                inner,
                (env_of::<'a>(r_env), NifTerm::of(env_of::<'a>(r_env), load_info)),
                loaded,
            ) && status == load_status(loaded),
{
    let env = NifEnv::new(RawNifEnv::new(r_env));
    let term = NifTerm::new(env, RawNifTerm::new(load_info));

    if let Some(inner) = function {
        if inner(env, term) {
            0
        } else {
            1
        }
    } else {
        0
    }
}

} // verus!
