//! The term type that native functions work with.

use vstd::prelude::*;
use crate::wrapper::nif_interface::{NifInterface, NIF_ENV, NIF_TERM};
use crate::wrapper::{copy_term, RawNifTerm};
use crate::{NifDecoder, NifEnv, NifResult};

verus! {

/// `NifTerm` stands for any Erlang term. A term is always limited to the
/// lifetime of the `NifEnv` that owns it.
///
/// `NifTerm` can be cloned and copied, but it cannot exist outside of the
/// lifetime of its environment.
#[derive(Clone, Copy, Debug)]
pub struct NifTerm<'a> {
    pub term: RawNifTerm<'a>,
    pub env: NifEnv<'a>,
}

impl<'a> NifTerm<'a> {
    pub fn new(env: NifEnv<'a>, raw: RawNifTerm<'a>) -> (term: Self)
        ensures
            term.term == raw,
            term.env == env,
    {
        NifTerm { term: raw, env: env }
    }

    /// The handle of this term, as it is passed to the VM.
    pub fn as_c_arg(&self) -> (handle: NIF_TERM)
        ensures
            handle == self.term.0,
    {
        self.term.as_c_arg()
    }

    pub fn raw(&self) -> (raw: RawNifTerm<'a>)
        ensures
            raw == self.term,
    {
        self.term
    }

    pub fn get_env(&self) -> (env: NifEnv<'a>)
        ensures
            env == self.env,
    {
        self.env
    }

    /// The term with the handle `handle` in the environment `env`.
    pub open spec fn of<'b>(env: NifEnv<'b>, handle: NIF_TERM) -> NifTerm<'b> {
        NifTerm { term: RawNifTerm(handle, std::marker::PhantomData), env: env }
    }

    /// Moves the term into `env` without any check or copy: the result has
    /// the handle of `self` and the environment `env`.
    ///
    /// The result is a term of `env` only if `env` is the environment that
    /// owns `self`; the one use of this function is to change the lifetime
    /// once the two environments are known to be the same. [`NifTerm::in_env`]
    /// makes that test.
    pub fn env_cast<'b>(&self, env: NifEnv<'b>) -> (term: NifTerm<'b>)
        ensures
            term == NifTerm::of(env, self.term.0),
    {
        NifTerm::new(env, RawNifTerm::new(self.as_c_arg()))
    }

    /// Whether `term` is a representation of `self` in `env`: `self` with its
    /// handle unchanged where `env` is its environment, and otherwise an
    /// answer of the VM to the request to copy `self` into `env`.
    pub open spec fn moved_to<V: NifInterface>(&self, vm: &V, env: NifEnv, term: NifTerm) -> bool {
        &&& term.env == env
        &&& self.env.handle() == env.handle() ==> term.term.0 == self.term.0
        &&& self.env.handle() != env.handle() ==> call_ensures(
            V::enif_make_copy,
            (vm, env.handle(), self.term.0),
            term.term.0,
        )
    }

    /// A representation of `self` in `env`.
    ///
    /// If the term already is in `env`, it is returned as it is, with its
    /// handle unchanged and no request made. Otherwise the result is the copy
    /// that the VM makes of it in `env`.
    pub fn in_env<'b, V: NifInterface>(&self, vm: &V, env: NifEnv<'b>) -> (term: NifTerm<'b>)
        ensures
            self.moved_to(vm, env, term),
    {
        if self.get_env() == env {
            self.env_cast(env)
        } else {
            NifTerm::new(env, copy_term(vm, env.raw(), self.raw()))
        }
    }

    /// Decodes the term into type `T`, as `T` says terms are decoded.
    pub fn decode<T, V: NifInterface>(self, vm: &V) -> (r: NifResult<T, V>) where
        T: NifDecoder<'a, V>,

        ensures
            T::decodes_to(vm, self, r),
    {
        T::decode(vm, self)
    }
}

/// Whether the copies of the VM keep the content of terms: what a copy
/// holds in the environment it was made in is what the term holds in the
/// environment that owns it. What a term holds is given by `content`, and
/// which environment owns it by `owns`.
pub open spec fn copies_keep_content<V: NifInterface, C>(
    vm: &V,
    content: spec_fn(NIF_ENV, NIF_TERM) -> C,
    owns: spec_fn(NIF_ENV, NIF_TERM) -> bool,
) -> bool {
    forall|dst: NIF_ENV, src: NIF_ENV, term: NIF_TERM, copy: NIF_TERM|
        #![trigger call_ensures(V::enif_make_copy, (vm, dst, term), copy), owns(src, term)]
        call_ensures(V::enif_make_copy, (vm, dst, term), copy) && owns(src, term) ==> content(
            dst,
            copy,
        ) == content(src, term)
}

/// A representation of a term in another environment holds what the term
/// holds, where the copies of the VM keep the content of terms. In its own
/// environment the representation is the term itself.
pub proof fn lemma_in_env_keeps_content<V: NifInterface, C>(
    vm: &V,
    content: spec_fn(NIF_ENV, NIF_TERM) -> C,
    owns: spec_fn(NIF_ENV, NIF_TERM) -> bool,
    term: NifTerm,
    env: NifEnv,
    moved: NifTerm,
)
    requires
        copies_keep_content(vm, content, owns),
        owns(term.env.handle(), term.term.0),
        term.moved_to(vm, env, moved),
    ensures
        moved.env == env,
        content(env.handle(), moved.term.0) == content(term.env.handle(), term.term.0),
        term.env.handle() == env.handle() ==> moved.term.0 == term.term.0,
{
}

} // verus!
