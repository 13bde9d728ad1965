//! How values are turned into terms and terms into values.

pub mod binary;
pub mod primitive;

use vstd::prelude::*;
use crate::wrapper::nif_interface::NifInterface;
use crate::{NifEnv, NifResult, NifTerm};

verus! {

/// A value that can be made into a term of any environment.
pub trait NifEncoder<V: NifInterface> {
    /// Whether `term` is a term that `self` may encode to in `env`. A type
    /// says here which requests to the VM its terms come from; one that
    /// says nothing claims only that the term is one of `env`.
    open spec fn encodes_to(&self, vm: &V, env: NifEnv, term: NifTerm) -> bool {
        term.env == env
    }

    /// A term for `self` in `env`.
    fn encode<'b>(&self, vm: &V, env: NifEnv<'b>) -> (term: NifTerm<'b>)
        ensures
            term.env == env,
            self.encodes_to(vm, env, term),
    ;
}

/// A value that can be read from a term.
pub trait NifDecoder<'a, V: NifInterface>: Sized {
    /// Whether `r` is what `term` may decode to. A type says here which
    /// requests to the VM decide it; one that says nothing claims nothing.
    open spec fn decodes_to(vm: &V, term: NifTerm, r: NifResult<Self, V>) -> bool {
        true
    }

    /// The value that `term` holds, or `BadArg` where it holds none of this
    /// type.
    fn decode(vm: &V, term: NifTerm<'a>) -> (r: NifResult<Self, V>)
        ensures
            Self::decodes_to(vm, term, r),
    ;
}

/// A term encodes as itself, moved into the environment asked for.
impl<'a, V: NifInterface> NifEncoder<V> for NifTerm<'a> {
    open spec fn encodes_to(&self, vm: &V, env: NifEnv, term: NifTerm) -> bool {
        self.moved_to(vm, env, term)
    }

    fn encode<'b>(&self, vm: &V, env: NifEnv<'b>) -> (term: NifTerm<'b>) {
        self.in_env(vm, env)
    }
}

/// A term decodes as itself.
impl<'a, V: NifInterface> NifDecoder<'a, V> for NifTerm<'a> {
    open spec fn decodes_to(vm: &V, term: NifTerm, r: NifResult<Self, V>) -> bool {
        r == Ok::<NifTerm, crate::NifError<V>>(term)
    }

    fn decode(vm: &V, term: NifTerm<'a>) -> NifResult<Self, V> {
        Ok(term)
    }
}

} // verus!
