//! Basic wrappers for the Erlang NIF api, one per operation of the VM.
//!
//! The wrappers stay close to the C api. They take handles that are tagged
//! with the lifetime of their environment, make one call, and turn the VM's
//! status code into an `Option` or a `bool`. Making the api pleasant to use
//! is left to the modules above.

pub mod nif_interface;
pub mod atom;
pub mod binary;
pub mod check;
pub mod exception;
pub mod list;
pub mod map;
pub mod resource;
pub mod tuple;

use std::marker::PhantomData;
use vstd::prelude::*;
use crate::wrapper::nif_interface::{c_int, NifInterface, NIF_ENV, NIF_TERM};

pub use self::map::{get_map_size, get_map_value, map_new, map_put};
pub use self::tuple::get_tuple;

verus! {

/// `RawNifEnv` is a `NIF_ENV` tagged with a lifetime, so that terms are only
/// used with the environment they belong to.
///
/// Whoever makes one answers for the tag: no two environments may be given
/// the same lifetime unless they are the same environment.
#[derive(Clone, Copy, Debug)]
pub struct RawNifEnv<'a>(pub NIF_ENV, pub PhantomData<&'a u8>);

impl<'a> RawNifEnv<'a> {
    /// Tags the environment handle `env` with the lifetime `'a`.
    pub fn new(env: NIF_ENV) -> (raw: RawNifEnv<'a>)
        ensures
            raw.0 == env,
    {
        RawNifEnv(env, PhantomData)
    }

    pub fn as_c_arg(&self) -> (env: NIF_ENV)
        ensures
            env == self.0,
    {
        self.0
    }
}

/// Two environments compare by their handles alone, so that environments of
/// different lifetimes can be told to be the same one.
impl<'a, 'b> PartialEq<RawNifEnv<'b>> for RawNifEnv<'a> {
    fn eq(&self, other: &RawNifEnv<'b>) -> (same: bool) {
        self.0 == other.0
    }
}

impl<'a, 'b> vstd::std_specs::cmp::PartialEqSpecImpl<RawNifEnv<'b>> for RawNifEnv<'a> {
    open spec fn obeys_eq_spec() -> bool {
        true
    }

    open spec fn eq_spec(&self, other: &RawNifEnv<'b>) -> bool {
        self.0 == other.0
    }
}

/// `RawNifTerm` is a `NIF_TERM` tagged with the lifetime of the environment
/// that owns the term.
#[derive(Clone, Copy, Debug)]
pub struct RawNifTerm<'a>(pub NIF_TERM, pub PhantomData<&'a u8>);

impl<'a> RawNifTerm<'a> {
    /// Tags the term handle `term` with the lifetime `'a`. The caller answers
    /// for the term belonging to the environment of that lifetime.
    pub fn new(term: NIF_TERM) -> (raw: RawNifTerm<'a>)
        ensures
            raw.0 == term,
    {
        RawNifTerm(term, PhantomData)
    }

    pub fn as_c_arg(&self) -> (term: NIF_TERM)
        ensures
            term == self.0,
    {
        self.0
    }
}

/// Two terms of one environment are equal where their handles are.
impl<'a> PartialEq for RawNifTerm<'a> {
    fn eq(&self, other: &RawNifTerm<'a>) -> (same: bool) {
        self.0 == other.0
    }
}

impl<'a> vstd::std_specs::cmp::PartialEqSpecImpl for RawNifTerm<'a> {
    open spec fn obeys_eq_spec() -> bool {
        true
    }

    open spec fn eq_spec(&self, other: &RawNifTerm<'a>) -> bool {
        self.0 == other.0
    }
}

/// The handles of `terms`, in order and without their tags.
pub open spec fn handles_of<'a>(terms: Seq<RawNifTerm<'a>>) -> Seq<NIF_TERM> {
    terms.map_values(|term: RawNifTerm<'a>| term.0)
}

/// The handles `terms`, in order, each tagged with the lifetime `'a`.
pub open spec fn tagged<'a>(terms: Seq<NIF_TERM>) -> Seq<RawNifTerm<'a>> {
    terms.map_values(|term: NIF_TERM| RawNifTerm(term, PhantomData))
}

/// Strips the tags off `terms`, keeping their order.
pub fn raw_handles<'a>(terms: &[RawNifTerm<'a>]) -> (handles: Vec<NIF_TERM>)
    ensures
        handles@ == handles_of(terms@),
{
    let mut handles: Vec<NIF_TERM> = Vec::new();
    let mut i: usize = 0;
    while i < terms.len()
        invariant
            i <= terms.len(),
            handles@ == handles_of(terms@.take(i as int)),
        decreases terms.len() - i,
    {
        handles.push(terms[i].0);
        i += 1;
    }
    handles
}

/// Tags each of `handles` with the lifetime `'a`, keeping their order.
pub fn tag_handles<'a>(handles: &Vec<NIF_TERM>) -> (terms: Vec<RawNifTerm<'a>>)
    ensures
        terms@ == tagged::<'a>(handles@),
{
    let mut terms: Vec<RawNifTerm<'a>> = Vec::new();
    let mut i: usize = 0;
    while i < handles.len()
        invariant
            i <= handles.len(),
            terms@ == tagged::<'a>(handles@.take(i as int)),
        decreases handles.len() - i,
    {
        terms.push(RawNifTerm::new(handles[i]));
        i += 1;
    }
    terms
}

/// The term that a status code and an out-parameter stand for: the term where
/// the status is 1, nothing otherwise.
pub open spec fn term_of_reply<'a>(reply: (c_int, NIF_TERM)) -> Option<RawNifTerm<'a>> {
    if reply.0 == 1 {
        Some(RawNifTerm(reply.1, PhantomData))
    } else {
        None
    }
}

/// Reads a status code and an out-parameter as [`term_of_reply`] says.
pub fn checked_term<'a>(success: c_int, term: NIF_TERM) -> (r: Option<RawNifTerm<'a>>)
    ensures
        r == term_of_reply::<'a>((success, term)),
{
    if success != 1 {
        return None;
    }
    Some(RawNifTerm::new(term))
}

/// The pair that a status code and two out-parameters stand for.
pub open spec fn pair_of_reply<'a>(reply: (c_int, NIF_TERM, NIF_TERM)) -> Option<
    (RawNifTerm<'a>, RawNifTerm<'a>),
> {
    if reply.0 == 1 {
        Some(
            (
                RawNifTerm(reply.1, PhantomData),
                RawNifTerm(reply.2, PhantomData),
            ),
        )
    } else {
        None
    }
}

/// Reads a status code and two out-parameters as [`pair_of_reply`] says.
pub fn checked_pair<'a>(success: c_int, first: NIF_TERM, second: NIF_TERM) -> (r: Option<
    (RawNifTerm<'a>, RawNifTerm<'a>),
>)
    ensures
        r == pair_of_reply::<'a>((success, first, second)),
{
    if success != 1 {
        return None;
    }
    Some((RawNifTerm::new(first), RawNifTerm::new(second)))
}

/// Copies `src_term` into the environment `dst`; the result is the VM's
/// answer to that one request, tagged with the lifetime of `dst`.
pub fn copy_term<'src, 'dst, V: NifInterface>(
    vm: &V,
    dst: RawNifEnv<'dst>,
    src_term: RawNifTerm<'src>,
) -> (copy: RawNifTerm<'dst>)
    ensures
        call_ensures(V::enif_make_copy, (vm, dst.0, src_term.0), copy.0),
{
    RawNifTerm::new(vm.enif_make_copy(dst.0, src_term.0))
}

} // verus!
