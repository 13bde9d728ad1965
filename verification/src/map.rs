//! Utilities used to access and create Erlang maps.

use vstd::prelude::*;
use crate::wrapper::map::RawNifMapIterator;
use crate::wrapper::nif_interface::{
    c_int, size_t, ErlNifMapIterator, ErlNifMapIteratorEntry, NifInterface, NIF_TERM,
};
use crate::wrapper::{pair_of_reply, term_of_reply, RawNifTerm};
use crate::{NifDecoder, NifEnv, NifError, NifResult, NifTerm};

verus! {

/// A new empty map in `env`, as the VM makes it.
pub fn map_new<'a, V: NifInterface>(vm: &V, env: NifEnv<'a>) -> (new_map: NifTerm<'a>)
    ensures
        new_map.env == env,
        call_ensures(V::enif_make_new_map, (vm, env.handle()), new_map.term.0),
{
    NifTerm::new(env, crate::wrapper::map::map_new(vm, env.raw()))
}

/// What a map operation returns for what the VM found: the term, in `env`,
/// or `BadArg` where the VM found none.
pub open spec fn found_or_badarg<'a, V: NifInterface>(
    env: NifEnv<'a>,
    found: Option<RawNifTerm<'a>>,
) -> NifResult<NifTerm<'a>, V> {
    match found {
        Some(term) => Ok(NifTerm { term: term, env: env }),
        None => Err(NifError::BadArg),
    }
}

/// Computes [`found_or_badarg`].
pub fn term_or_badarg<'a, V: NifInterface>(env: NifEnv<'a>, found: Option<RawNifTerm<'a>>) -> (r:
    NifResult<NifTerm<'a>, V>)
    ensures
        r == found_or_badarg::<V>(env, found),
{
    match found {
        Some(term) => Ok(NifTerm::new(env, term)),
        None => Err(NifError::BadArg),
    }
}

/// What [`NifTerm::map_size`] returns for what the VM found.
pub open spec fn size_or_badarg<V: NifInterface>(found: Option<usize>) -> NifResult<usize, V> {
    match found {
        Some(size) => Ok(size),
        None => Err(NifError::BadArg),
    }
}

/// ## Map terms
impl<'a> NifTerm<'a> {
    /// Whether `r` is what a lookup of `key` in this map may give: the term
    /// that the VM finds, in the environment of the map, or `BadArg` where
    /// the VM finds none.
    pub open spec fn gets<V: NifInterface>(
        self,
        vm: &V,
        key: NifTerm,
        r: NifResult<NifTerm<'a>, V>,
    ) -> bool {
        exists|reply: (c_int, NIF_TERM)|
            #[trigger] call_ensures(
                V::enif_get_map_value,
                (vm, self.env.handle(), self.term.0, key.term.0),
                reply,
            ) && r == found_or_badarg::<V>(self.env, term_of_reply(reply))
    }

    /// Whether `r` is what putting `value` under `key` into this map may
    /// give: the map that the VM makes, in the environment of this map, or
    /// `BadArg` where the VM makes none.
    pub open spec fn puts<V: NifInterface>(
        self,
        vm: &V,
        key: NifTerm,
        value: NifTerm,
        r: NifResult<NifTerm<'a>, V>,
    ) -> bool {
        exists|reply: (c_int, NIF_TERM)|
            #[trigger] call_ensures(
                V::enif_make_map_put,
                (vm, self.env.handle(), self.term.0, key.term.0, value.term.0),
                reply,
            ) && r == found_or_badarg::<V>(self.env, term_of_reply(reply))
    }

    /// Gets the value corresponding to a key in a map term.
    ///
    /// Returns `Err(NifError::BadArg)` if the VM finds no value, which is
    /// when the term is not a map or `key` is not in it. Otherwise the
    /// result is the term the VM found, in the environment of the map.
    pub fn map_get<V: NifInterface>(self, vm: &V, key: NifTerm<'a>) -> (r: NifResult<
        NifTerm<'a>,
        V,
    >)
        ensures
            self.gets(vm, key, r),
    {
        let env = self.get_env();
        let found = crate::wrapper::map::get_map_value(vm, env.raw(), self.raw(), key.raw());
        term_or_badarg(env, found)
    }

    /// Gets the size of a map term.
    ///
    /// Returns `Err(NifError::BadArg)` if the VM gives no size, which is
    /// when the term is not a map.
    pub fn map_size<V: NifInterface>(self, vm: &V) -> (r: NifResult<usize, V>)
        ensures
            exists|reply: (c_int, size_t)|
                #[trigger] call_ensures(
                    V::enif_get_map_size,
                    (vm, self.env.handle(), self.term.0),
                    reply,
                ) && r == size_or_badarg::<V>(crate::wrapper::map::size_of_reply(reply)),
    {
        let env = self.get_env();
        match crate::wrapper::map::get_map_size(vm, env.raw(), self.raw()) {
            Some(size) => Ok(size),
            None => Err(NifError::BadArg),
        }
    }

    /// Makes a copy of the self map term and sets key to value. If the key
    /// already exists, its value is overwritten.
    ///
    /// The key and the value have to be terms of the environment of the map.
    /// Returns `Err(NifError::BadArg)` if the VM makes no map, which is when
    /// the term is not a map.
    pub fn map_put<V: NifInterface>(self, vm: &V, key: NifTerm<'a>, value: NifTerm<'a>) -> (r:
        NifResult<NifTerm<'a>, V>)
        requires
            self.env.handle() == key.env.handle(),
            self.env.handle() == value.env.handle(),
        ensures
            self.puts(vm, key, value, r),
    {
        let map_env = self.get_env();
        let env = map_env.raw();
        term_or_badarg(map_env, crate::wrapper::map::map_put(vm, env, self.raw(), key.raw(), value.raw()))
    }

    /// Makes a copy of the self map term and removes key. If the key does
    /// not exist, the VM answers with the map as it was.
    ///
    /// The key has to be a term of the environment of the map. Returns
    /// `Err(NifError::BadArg)` if the VM makes no map, which is when the
    /// term is not a map.
    pub fn map_remove<V: NifInterface>(self, vm: &V, key: NifTerm<'a>) -> (r: NifResult<
        NifTerm<'a>,
        V,
    >)
        requires
            self.env.handle() == key.env.handle(),
        ensures
            exists|reply: (c_int, NIF_TERM)|
                #[trigger] call_ensures(
                    V::enif_make_map_remove,
                    (vm, self.env.handle(), self.term.0, key.term.0),
                    reply,
                ) && r == found_or_badarg::<V>(self.env, term_of_reply(reply)),
    {
        let map_env = self.get_env();
        let env = map_env.raw();
        term_or_badarg(map_env, crate::wrapper::map::map_remove(vm, env, self.raw(), key.raw()))
    }

    /// Makes a copy of the self map term where key is set to value.
    ///
    /// The key and the value have to be terms of the environment of the map.
    /// Returns `Err(NifError::BadArg)` if the VM makes no map, which is when
    /// the term is not a map or the key does not exist.
    pub fn map_update<V: NifInterface>(
        self,
        vm: &V,
        key: NifTerm<'a>,
        new_value: NifTerm<'a>,
    ) -> (r: NifResult<NifTerm<'a>, V>)
        requires
            self.env.handle() == key.env.handle(),
            self.env.handle() == new_value.env.handle(),
        ensures
            exists|reply: (c_int, NIF_TERM)|
                #[trigger] call_ensures(
                    V::enif_make_map_update,
                    (vm, self.env.handle(), self.term.0, key.term.0, new_value.term.0),
                    reply,
                ) && r == found_or_badarg::<V>(self.env, term_of_reply(reply)),
    {
        let map_env = self.get_env();
        let env = map_env.raw();
        term_or_badarg(
            map_env,
            crate::wrapper::map::map_update(vm, env, self.raw(), key.raw(), new_value.raw()),
        )
    }
}

/// Whether `key` is not in `map`, as far as the VM tells: it finds nothing
/// under `key`.
pub open spec fn absent<V: NifInterface>(vm: &V, map: NifTerm, key: NifTerm) -> bool {
    forall|reply: (c_int, NIF_TERM)|
        #[trigger] call_ensures(
            V::enif_get_map_value,
            (vm, map.env.handle(), map.term.0, key.term.0),
            reply,
        ) ==> reply.0 != 1
}

/// Whether the VM keeps what is put into a map: in a map that it made by
/// putting a value under a key, it finds that value under that key.
pub open spec fn keeps_what_is_put<V: NifInterface>(vm: &V) -> bool {
    forall|
        env: crate::wrapper::nif_interface::NIF_ENV,
        map: NIF_TERM,
        key: NIF_TERM,
        value: NIF_TERM,
        put: (c_int, NIF_TERM),
        found: (c_int, NIF_TERM),
    |
        #![trigger
            call_ensures(V::enif_make_map_put, (vm, env, map, key, value), put),
            call_ensures(V::enif_get_map_value, (vm, env, put.1, key), found)
        ]
        call_ensures(V::enif_make_map_put, (vm, env, map, key, value), put) && put.0 == 1
            && call_ensures(V::enif_get_map_value, (vm, env, put.1, key), found) ==> found == (
            1 as c_int,
            value,
        )
}

/// A lookup of a key that is not in the map fails with `BadArg`.
pub proof fn lemma_map_get_of_absent_key<'a, V: NifInterface>(
    vm: &V,
    map: NifTerm<'a>,
    key: NifTerm<'a>,
    r: NifResult<NifTerm<'a>, V>,
)
    requires
        absent(vm, map, key),
        map.gets(vm, key, r),
    ensures
        r == Err::<NifTerm<'a>, NifError<V>>(NifError::BadArg),
{
}

/// A lookup of a key in the map that `map_put` made for that key succeeds
/// and returns the value that was put, where the VM keeps what is put.
pub proof fn lemma_map_put_then_get<'a, V: NifInterface>(
    vm: &V,
    map: NifTerm<'a>,
    key: NifTerm<'a>,
    value: NifTerm<'a>,
    new_map: NifTerm<'a>,
    r: NifResult<NifTerm<'a>, V>,
)
    requires
        keeps_what_is_put(vm),
        map.env == key.env,
        map.env == value.env,
        map.puts(vm, key, value, Ok(new_map)),
        new_map.gets(vm, key, r),
    ensures
        r == Ok::<NifTerm<'a>, NifError<V>>(value),
{
}

/// An iterator over the entries of a map. It holds a resource of the VM
/// until it is handed back with [`NifMapIterator::destroy`].
#[derive(Debug)]
pub struct NifMapIterator<'a> {
    pub env: NifEnv<'a>,
    pub iter: RawNifMapIterator<'a>,
}

/// The iterator that [`NifMapIterator::new`] returns for what the VM made.
pub open spec fn iterator_in<'a>(env: NifEnv<'a>, made: Option<RawNifMapIterator<'a>>) -> Option<
    NifMapIterator<'a>,
> {
    match made {
        Some(iter) => Some(NifMapIterator { env: env, iter: iter }),
        None => None,
    }
}

/// The entry that [`NifMapIterator::next`] returns for the pair the VM gave.
pub open spec fn entry_in<'a>(
    env: NifEnv<'a>,
    pair: Option<(RawNifTerm<'a>, RawNifTerm<'a>)>,
) -> Option<(NifTerm<'a>, NifTerm<'a>)> {
    match pair {
        Some((key, value)) => Some(
            (NifTerm { term: key, env: env }, NifTerm { term: value, env: env }),
        ),
        None => None,
    }
}

impl<'a> NifMapIterator<'a> {
    /// Whether one step takes the iterator `self` to `after` and gives `r`.
    ///
    /// `r` is the entry that the VM gives for the position of `self`, in the
    /// environment of the map, or nothing where the VM gives none. Where
    /// there is an entry, `after` is at the position that the VM answers
    /// with when asked to move on from `self`; where there is none, `after`
    /// is `self`.
    pub open spec fn steps<V: NifInterface>(
        self,
        vm: &V,
        r: Option<(NifTerm<'a>, NifTerm<'a>)>,
        after: NifMapIterator<'a>,
    ) -> bool {
        &&& after.env == self.env
        &&& exists|reply: (c_int, NIF_TERM, NIF_TERM)|
            {
                &&& #[trigger] call_ensures(
                    V::enif_map_iterator_get_pair,
                    (vm, self.env.handle(), &self.iter.0),
                    reply,
                )
                &&& r == entry_in(self.env, pair_of_reply(reply))
            }
        &&& r is Some ==> exists|moved: (c_int, ErlNifMapIterator)|
            #[trigger] call_ensures(
                V::enif_map_iterator_next,
                (vm, self.env.handle(), &self.iter.0),
                moved,
            ) && after.iter.0 == moved.1
        &&& r is None ==> after == self
    }

    /// An iterator at the head of `map`, or nothing where the VM makes
    /// none, which is when `map` is not a map.
    pub fn new<V: NifInterface>(vm: &V, map: NifTerm<'a>) -> (r: Option<NifMapIterator<'a>>)
        ensures
            exists|reply: (c_int, ErlNifMapIterator)|
                #[trigger] call_ensures(
                    V::enif_map_iterator_create,
                    (
                        vm,
                        map.env.handle(),
                        map.term.0,
                        ErlNifMapIteratorEntry::ERL_NIF_MAP_ITERATOR_HEAD,
                    ),
                    reply,
                ) && r == iterator_in(map.env, crate::wrapper::map::iterator_of_reply(reply)),
    {
        let env = map.get_env();
        match crate::wrapper::map::map_iterator_create(vm, env.raw(), map.raw()) {
            Some(iter) => Some(NifMapIterator { env: env, iter: iter }),
            None => None,
        }
    }

    /// The entry under the iterator, in the environment of the map. Where
    /// the VM gives an entry, the iterator then moves one entry on, to the
    /// position the VM answers with; where it gives none, the iterator stays
    /// as it is.
    pub fn next<V: NifInterface>(&mut self, vm: &V) -> (r: Option<(NifTerm<'a>, NifTerm<'a>)>)
        ensures
            old(self).steps(vm, r, *final(self)),
    {
        match crate::wrapper::map::map_iterator_get_pair(vm, self.env.raw(), &self.iter) {
            Some((key, value)) => {
                let moved = crate::wrapper::map::map_iterator_next(vm, self.env.raw(), &self.iter);
                self.iter = moved;
                Some((NifTerm::new(self.env, key), NifTerm::new(self.env, value)))
            },
            None => None,
        }
    }

    /// Hands the iterator back to the VM, which frees what it holds. Every
    /// iterator has to end here, also one that was not run to its end.
    pub fn destroy<V: NifInterface>(self, vm: &V) {
        crate::wrapper::map::map_iterator_destroy(vm, self.env.raw(), self.iter);
    }
}

/// What decoding a term as a map iterator returns for what
/// [`NifMapIterator::new`] made.
pub open spec fn iterator_or_badarg<'a, V: NifInterface>(made: Option<NifMapIterator<'a>>) -> NifResult<
    NifMapIterator<'a>,
    V,
> {
    match made {
        Some(iter) => Ok(iter),
        None => Err(NifError::BadArg),
    }
}

impl<'a, V: NifInterface> NifDecoder<'a, V> for NifMapIterator<'a> {
    open spec fn decodes_to(vm: &V, term: NifTerm, r: NifResult<Self, V>) -> bool {
        exists|reply: (c_int, ErlNifMapIterator)|
            #[trigger] call_ensures(
                V::enif_map_iterator_create,
                (
                    vm,
                    term.env.handle(),
                    term.term.0,
                    ErlNifMapIteratorEntry::ERL_NIF_MAP_ITERATOR_HEAD,
                ),
                reply,
            ) && r == iterator_or_badarg::<V>(
                iterator_in(term.env, crate::wrapper::map::iterator_of_reply(reply)),
            )
    }

    fn decode(vm: &V, term: NifTerm<'a>) -> (r: NifResult<Self, V>) {
        match NifMapIterator::new(vm, term) {
            Some(iter) => Ok(iter),
            None => Err(NifError::BadArg),
        }
    }
}

} // verus!
