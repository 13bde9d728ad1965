#![allow(non_camel_case_types)]

//! A safe layer between the native-function interface of the Erlang VM and
//! the code that implements native functions.
//!
//! An environment and the terms that belong to it carry the same lifetime, so
//! a term cannot be used with another environment without being copied there,
//! and a failure of native code is turned into an exception of the VM at the
//! one place where control goes back to it.
//!
//! The VM itself is reached through [`wrapper::nif_interface::NifInterface`].
//! Every function that talks to the VM takes it as its first argument and
//! says in its contract which request it makes and what it does with each
//! possible answer.

pub mod wrapper;
pub mod codegen_runtime;
pub mod term;
pub mod types;
pub mod resource;
pub mod tuple;
pub mod map;
pub mod list;
pub mod atom;
pub mod ex_struct;
pub mod schedule;

use vstd::prelude::*;
use crate::wrapper::nif_interface::NifInterface;
use crate::wrapper::RawNifEnv;

pub use crate::term::NifTerm;
pub use crate::types::{NifDecoder, NifEncoder};
pub use crate::wrapper::nif_interface::{size_t, ErlNifTaskFlags, NIF_TERM};

verus! {

pub type NifResult<T, V> = Result<T, NifError<V>>;

/// On each NIF call, a `NifEnv` is passed in. It is used for most operations
/// that involve the VM, like decoding and encoding terms.
#[derive(Clone, Copy, Debug)]
pub struct NifEnv<'a> {
    pub env: RawNifEnv<'a>,
}

impl<'a> NifEnv<'a> {
    pub fn new(raw: RawNifEnv<'a>) -> (env: NifEnv<'a>)
        ensures
            env.env == raw,
    {
        NifEnv { env: raw }
    }

    pub fn raw(&self) -> (raw: RawNifEnv<'a>)
        ensures
            raw == self.env,
    {
        self.env
    }

    /// The handle of this environment, without its lifetime.
    pub open spec fn handle(&self) -> wrapper::nif_interface::NIF_ENV {
        self.env.0
    }
}

/// Two environments compare by their handles alone, so that environments of
/// different lifetimes can be told to be the same one.
impl<'a, 'b> PartialEq<NifEnv<'b>> for NifEnv<'a> {
    fn eq(&self, other: &NifEnv<'b>) -> (same: bool) {
        self.env == other.env
    }
}

impl<'a, 'b> vstd::std_specs::cmp::PartialEqSpecImpl<NifEnv<'b>> for NifEnv<'a> {
    open spec fn obeys_eq_spec() -> bool {
        true
    }

    open spec fn eq_spec(&self, other: &NifEnv<'b>) -> bool {
        self.env.0 == other.env.0
    }
}

/// The errors that a NIF can return. One can be made anywhere, also where no
/// `NifEnv` is at hand.
#[verifier::reject_recursive_types(V)]
pub enum NifError<V: NifInterface> {
    /// The NIF has been called with the wrong number or type of arguments.
    BadArg,
    /// The name is made into an atom, and the atom is returned from the NIF.
    Atom(&'static str),
    /// The name is made into an atom, and the atom is raised.
    RaiseAtom(&'static str),
    /// The value is encoded, and the term is raised.
    RaiseTerm(Box<dyn NifEncoder<V>>),
}

/// Whether `raised` is an answer of the VM to the request to raise the atom
/// named `name`: to make the atom, and then to raise an exception with the
/// atom as its reason.
pub open spec fn raises_atom<V: NifInterface>(
    vm: &V,
    env: NifEnv,
    name: &str,
    raised: NIF_TERM,
) -> bool {
    exists|atom: NIF_TERM|
        #[trigger] call_ensures(V::enif_make_atom_len, (vm, env.handle(), name), atom)
            && call_ensures(V::enif_raise_exception, (vm, env.handle(), atom), raised)
}

impl<V: NifInterface> NifError<V> {
    /// Whether `outcome` is what the VM hands back when this error is made
    /// known to it in `env`:
    /// - for `BadArg`, its answer to the request to raise `badarg`;
    /// - for `Atom`, the atom of that name, which is returned, not raised;
    /// - for `RaiseAtom`, its answer to the request to raise that atom;
    /// - for `RaiseTerm`, its answer to the request to raise a term that the
    ///   value encodes to in `env`.
    pub open spec fn encodes_as(self, vm: &V, env: NifEnv, outcome: NIF_TERM) -> bool {
        match self {
            NifError::BadArg => call_ensures(V::enif_make_badarg, (vm, env.handle()), outcome),
            NifError::Atom(name) => call_ensures(
                V::enif_make_atom_len,
                (vm, env.handle(), name),
                outcome,
            ),
            NifError::RaiseAtom(name) => raises_atom(vm, env, name, outcome),
            NifError::RaiseTerm(value) => exists|reason: NIF_TERM|
                value.encodes_to(vm, env, NifTerm::of(env, reason)) && #[trigger] call_ensures(
                    V::enif_raise_exception,
                    (vm, env.handle(), reason),
                    outcome,
                ),
        }
    }

    /// Makes the error known to the VM and returns what the NIF has to
    /// return for it. For `RaiseTerm` the reason raised is the term that the
    /// value encodes to in `env`.
    pub fn encode<'a>(self, vm: &V, env: NifEnv<'a>) -> (outcome: NIF_TERM)
        ensures
            self.encodes_as(vm, env, outcome),
    {
        match self {
            NifError::BadArg => { wrapper::exception::raise_badarg(vm, env.raw()) },
            NifError::Atom(atom_str) => { atom::get_atom_init(vm, env, atom_str).as_c_arg() },
            NifError::RaiseAtom(atom_str) => {
                let atom = atom::get_atom_init(vm, env, atom_str).to_term(env);
                wrapper::exception::raise_exception(vm, env.raw(), atom.raw())
            },
            NifError::RaiseTerm(term_unencoded) => {
                let term = term_unencoded.encode(vm, env);
                let raised = wrapper::exception::raise_exception(vm, env.raw(), term.raw());
                raised
            },
        }
    }
}

} // verus!
