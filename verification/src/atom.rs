//! Atoms by name.

use vstd::prelude::*;
use crate::wrapper::nif_interface::{NifInterface, NIF_TERM};
use crate::wrapper::RawNifTerm;
use crate::{NifEnv, NifTerm};

verus! {

/// An atom. Atoms belong to no environment: the same handle stands for the
/// same atom in every one.
#[derive(Clone, Copy, Debug, PartialEq, Eq, Structural)]
pub struct NifAtom {
    pub term: NIF_TERM,
}

impl NifAtom {
    pub fn as_c_arg(&self) -> (handle: NIF_TERM)
        ensures
            handle == self.term,
    {
        self.term
    }

    /// The atom as a term of `env`.
    pub fn to_term<'a>(&self, env: NifEnv<'a>) -> (term: NifTerm<'a>)
        ensures
            term == NifTerm::of(env, self.term),
    {
        NifTerm::new(env, RawNifTerm::new(self.term))
    }
}

/// The atom with the name `name`, as the VM makes it when asked in `env`.
pub fn get_atom_init<'a, V: NifInterface>(vm: &V, env: NifEnv<'a>, name: &str) -> (atom: NifAtom)
    ensures
        call_ensures(V::enif_make_atom_len, (vm, env.handle(), name), atom.term),
{
    NifAtom { term: crate::wrapper::atom::make_atom(vm, env.raw(), name).as_c_arg() }
}

} // verus!
