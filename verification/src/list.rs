//! Utilities used to access and create Erlang lists.

use vstd::prelude::*;
use crate::map::{found_or_badarg, size_or_badarg, term_or_badarg};
use crate::tuple::{handles_in, terms_view, unwrap_terms};
use crate::wrapper::list::length_of_reply;
use crate::wrapper::nif_interface::{c_int, c_uint, NifInterface, NIF_TERM};
use crate::wrapper::tuple::count_of;
use crate::wrapper::{handles_of, pair_of_reply, term_of_reply, RawNifTerm};
use crate::{NifEnv, NifError, NifResult, NifTerm};

verus! {

/// What [`NifTerm::list_get_cell`] returns for the pair the VM gave: the
/// head and the tail, in `env`, or `BadArg` where the VM gave none.
pub open spec fn cell_or_badarg<'a, V: NifInterface>(
    env: NifEnv<'a>,
    cell: Option<(RawNifTerm<'a>, RawNifTerm<'a>)>,
) -> NifResult<(NifTerm<'a>, NifTerm<'a>), V> {
    match cell {
        Some((head, tail)) => Ok(
            (NifTerm { term: head, env: env }, NifTerm { term: tail, env: env }),
        ),
        None => Err(NifError::BadArg),
    }
}

/// A list of `terms` in `env`: the VM's answer to a request that holds the
/// handles of `terms`, in order, and their count.
pub fn make_list<'a, V: NifInterface>(vm: &V, env: NifEnv<'a>, terms: &[NifTerm<'a>]) -> (list:
    NifTerm<'a>)
    ensures
        list.env == env,
        exists|arr: Vec<NIF_TERM>|
            arr@ == handles_in(terms@) && #[trigger] call_ensures(
                V::enif_make_list_from_array,
                (vm, env.handle(), &arr, count_of(terms@.len() as usize)),
                list.term.0,
            ),
{
    let c_terms = unwrap_terms(terms);
    let list = crate::wrapper::list::make_list(vm, env.raw(), c_terms.as_slice());
    proof {
        let arr = choose|arr: Vec<NIF_TERM>|
            arr@ == handles_of(c_terms@) && #[trigger] call_ensures(
                V::enif_make_list_from_array,
                (vm, env.env.0, &arr, count_of(c_terms@.len() as usize)),
                list.0,
            );
        assert(call_ensures(
            V::enif_make_list_from_array,
            (vm, env.handle(), &arr, count_of(terms@.len() as usize)),
            list.0,
        ));
    }
    NifTerm::new(env, list)
}

/// Whether walking `list` cell by cell gives the heads `heads`, in order,
/// and ends at `rest`: each step is an answer of the VM to the request for
/// the head and the tail of what the step before ended at.
pub open spec fn walks<V: NifInterface>(
    vm: &V,
    env: NifEnv,
    list: NIF_TERM,
    heads: Seq<NIF_TERM>,
    rest: NIF_TERM,
) -> bool
    decreases heads.len(),
{
    if heads.len() == 0 {
        rest == list
    } else {
        exists|before: NIF_TERM|
            {
                &&& walks(vm, env, list, heads.drop_last(), before)
                &&& #[trigger] call_ensures(
                    V::enif_get_list_cell,
                    (vm, env.handle(), before),
                    (1 as c_int, heads.last(), rest),
                )
            }
    }
}

/// Whether the VM ends a walk of `list` after `heads`: it gives no cell for
/// what the walk ended at.
pub open spec fn stops_after<V: NifInterface>(
    vm: &V,
    env: NifEnv,
    list: NIF_TERM,
    heads: Seq<NIF_TERM>,
) -> bool {
    exists|rest: NIF_TERM, reply: (c_int, NIF_TERM, NIF_TERM)|
        {
            &&& walks(vm, env, list, heads, rest)
            &&& #[trigger] call_ensures(V::enif_get_list_cell, (vm, env.handle(), rest), reply)
            &&& reply.0 != 1
        }
}

/// Whether `r` is what reading the elements of a list of `length` elements
/// may give: the heads of a walk of `length` steps, each in the environment
/// of the list, or `BadArg` where the VM ends the walk before that.
pub open spec fn reads_elements<V: NifInterface>(
    vm: &V,
    list: NifTerm,
    length: usize,
    r: Result<Seq<NifTerm>, NifError<V>>,
) -> bool {
    match r {
        Ok(elements) => {
            &&& elements.len() == length
            &&& forall|i: int| 0 <= i < elements.len() ==> (#[trigger] elements[i]).env == list.env
            &&& exists|rest: NIF_TERM| #[trigger]
                walks(vm, list.env, list.term.0, handles_in(elements), rest)
        },
        Err(e) => {
            &&& e is BadArg
            &&& exists|heads: Seq<NIF_TERM>|
                heads.len() < length && #[trigger] stops_after(vm, list.env, list.term.0, heads)
        },
    }
}

/// Whether `r` is what [`list_to_vec`] may return for `list`: `BadArg`
/// where the VM gives no length, which is when `list` is no proper list,
/// and otherwise what reading that many elements gives.
pub open spec fn reads_list<V: NifInterface>(
    vm: &V,
    list: NifTerm,
    r: Result<Seq<NifTerm>, NifError<V>>,
) -> bool {
    exists|reply: (c_int, c_uint)|
        {
            &&& #[trigger] call_ensures(
                V::enif_get_list_length,
                (vm, list.env.handle(), list.term.0),
                reply,
            )
            &&& match length_of_reply(reply) {
                Some(length) => reads_elements(vm, list, length, r),
                None => r == Err::<Seq<NifTerm>, NifError<V>>(NifError::BadArg),
            }
        }
}

/// ## List terms
impl<'a> NifTerm<'a> {
    /// The number of elements of a list term, or `BadArg` where the VM
    /// gives none, which is when the term is no proper list.
    pub fn list_length<V: NifInterface>(self, vm: &V) -> (r: NifResult<usize, V>)
        ensures
            exists|reply: (c_int, c_uint)|
                #[trigger] call_ensures(
                    V::enif_get_list_length,
                    (vm, self.env.handle(), self.term.0),
                    reply,
                ) && r == size_or_badarg::<V>(length_of_reply(reply)),
    {
        let env = self.get_env();
        match crate::wrapper::list::get_list_length(vm, env.raw(), self.raw()) {
            Some(length) => Ok(length),
            None => Err(NifError::BadArg),
        }
    }

    /// The head and the tail of a list term, in its environment, or
    /// `BadArg` where the VM gives none, which is when the term is no list
    /// or the empty one.
    pub fn list_get_cell<V: NifInterface>(self, vm: &V) -> (r: NifResult<
        (NifTerm<'a>, NifTerm<'a>),
        V,
    >)
        ensures
            exists|reply: (c_int, NIF_TERM, NIF_TERM)|
                #[trigger] call_ensures(
                    V::enif_get_list_cell,
                    (vm, self.env.handle(), self.term.0),
                    reply,
                ) && r == cell_or_badarg::<V>(self.env, pair_of_reply(reply)),
    {
        let env = self.get_env();
        match crate::wrapper::list::get_list_cell(vm, env.raw(), self.raw()) {
            Some((head, tail)) => Ok((NifTerm::new(env, head), NifTerm::new(env, tail))),
            None => Err(NifError::BadArg),
        }
    }

    /// The list term reversed, or `BadArg` where the VM makes no such list,
    /// which is when the term is no proper list.
    pub fn list_reverse<V: NifInterface>(self, vm: &V) -> (r: NifResult<NifTerm<'a>, V>)
        ensures
            exists|reply: (c_int, NIF_TERM)|
                #[trigger] call_ensures(
                    V::enif_make_reverse_list,
                    (vm, self.env.handle(), self.term.0),
                    reply,
                ) && r == found_or_badarg::<V>(self.env, term_of_reply(reply)),
    {
        let env = self.get_env();
        term_or_badarg(env, crate::wrapper::list::make_reverse_list(vm, env.raw(), self.raw()))
    }

    /// The list with `head` in front of this list term, as the VM makes it.
    /// `head` has to be a term of the environment of the list.
    pub fn list_prepend<V: NifInterface>(self, vm: &V, head: NifTerm<'a>) -> (list: NifTerm<'a>)
        requires
            self.env.handle() == head.env.handle(),
        ensures
            list.env == self.env,
            call_ensures(
                V::enif_make_list_cell,
                (vm, self.env.handle(), head.term.0, self.term.0),
                list.term.0,
            ),
    {
        let env = self.get_env();
        let cell = crate::wrapper::list::make_list_cell(vm, env.raw(), head.raw(), self.raw());
        NifTerm::new(env, cell)
    }
}

/// The elements of `list`, in order; see [`reads_list`].
///
/// The VM is asked for the length first, and then for one cell after the
/// other, that many times.
pub fn list_to_vec<'a, V: NifInterface>(vm: &V, list: NifTerm<'a>) -> (r: NifResult<
    Vec<NifTerm<'a>>,
    V,
>)
    ensures
        reads_list(vm, list, terms_view(r)),
{
    let counted = list.list_length(vm);
    let ghost length_reply = choose|reply: (c_int, c_uint)|
        #[trigger] call_ensures(
            V::enif_get_list_length,
            (vm, list.env.handle(), list.term.0),
            reply,
        ) && counted == size_or_badarg::<V>(length_of_reply(reply));
    let length = match counted {
        Ok(length) => length,
        Err(_) => {
            return Err(NifError::BadArg);
        },
    };
    let mut elements: Vec<NifTerm<'a>> = Vec::new();
    let mut current = list;
    while elements.len() < length
        invariant
            elements@.len() <= length,
            current.env == list.env,
            call_ensures(
                V::enif_get_list_length,
                (vm, list.env.handle(), list.term.0),
                length_reply,
            ),
            length_of_reply(length_reply) == Some(length),
            forall|i: int| 0 <= i < elements@.len() ==> (#[trigger] elements@[i]).env == list.env,
            walks(vm, list.env, list.term.0, handles_in(elements@), current.term.0),
        decreases length - elements@.len(),
    {
        let ghost before = current;
        let ghost heads = handles_in(elements@);
        match current.list_get_cell(vm) {
            Ok((head, tail)) => {
                elements.push(head);
                current = tail;
                proof {
                    assert(handles_in(elements@).drop_last() == heads);
                    assert(call_ensures(
                        V::enif_get_list_cell,
                        (vm, list.env.handle(), before.term.0),
                        (1 as c_int, head.term.0, tail.term.0),
                    ));
                }
            },
            Err(_) => {
                proof {
                    let reply = choose|reply: (c_int, NIF_TERM, NIF_TERM)|
                        #[trigger] call_ensures(
                            V::enif_get_list_cell,
                            (vm, before.env.handle(), before.term.0),
                            reply,
                        ) && pair_of_reply::<'a>(reply) is None;
                    assert(stops_after(vm, list.env, list.term.0, heads));
                    assert(reads_elements(
                        vm,
                        list,
                        length,
                        Err::<Seq<NifTerm>, NifError<V>>(NifError::BadArg),
                    ));
                }
                return Err(NifError::BadArg);
            },
        }
    }
    Ok(elements)
}

} // verus!
