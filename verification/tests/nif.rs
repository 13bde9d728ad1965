use std::cell::RefCell;

use rustler::atom::get_atom_init;
use rustler::codegen_runtime::{
    finish_call, handle_nif_call, handle_nif_init_call, handle_nif_panic, wrap_arguments,
};
use rustler::ex_struct::{
    decode_fields, decode_struct, encode_fields, encode_struct, field_names, get_ex_struct_name,
    get_field, get_meta_item_value, make_ex_struct, put_field, transcoder_decorator, Annotatable,
    MetaItem, StructField, TranscoderError,
};
use rustler::list::{list_to_vec, make_list as make_term_list};
use rustler::map::{map_new, NifMapIterator};
use rustler::resource::{
    align_alloced_mem_for_struct, alloc_resource_type, get_alloc_size_struct, NifResourceType,
};
use rustler::schedule::consume_timeslice;
use rustler::tuple::{get_tuple, make_tuple};
use rustler::types::binary::{copy_range, NifBinary, OwnedNifBinary};
use rustler::wrapper::atom::{checked_name, get_atom, latin1_to_string, make_atom};
use rustler::wrapper::nif_interface::{
    c_int, c_uint, size_t, ErlNifBinary, ErlNifMapIterator, ErlNifMapIteratorEntry,
    NifInterface, NifResourceDtor, NifResourceFlags, NIF_ENV, NIF_ERROR, NIF_RESOURCE_HANDLE,
    NIF_RESOURCE_TYPE, NIF_TERM,
};
use rustler::wrapper::{checked_term, copy_term, RawNifEnv, RawNifTerm};
use rustler::wrapper::check::{
    is_atom, is_binary, is_empty_list, is_exception, is_fun, is_list, is_map, is_pid, is_port,
    is_ref, is_tuple,
};
use rustler::wrapper::list::{
    get_list_cell, get_list_length, make_list, make_list_cell, make_reverse_list,
};
use rustler::wrapper::resource::{
    alloc_resource, get_resource, keep_resource, make_resource, open_resource_type,
    release_resource,
};
use rustler::{NifDecoder, NifEncoder, NifEnv, NifError, NifResult, NifTerm};

/// What a term of the stand-in VM holds.
#[derive(Clone, Debug, PartialEq)]
enum Data {
    Int(i128),
    Atom(Vec<u8>),
    Binary(Vec<u8>),
    Tuple(Vec<NIF_TERM>),
    Nil,
    Cons(NIF_TERM, NIF_TERM),
    Entries(Vec<(NIF_TERM, NIF_TERM)>),
    Resource(NIF_RESOURCE_HANDLE),
    Raised(NIF_TERM),
    BadArg,
}

struct State {
    /// The term with handle `h` is `terms[h - 1]`: its environment and data.
    terms: Vec<(NIF_ENV, Data)>,
    /// The names of the operations asked for, in order.
    calls: Vec<&'static str>,
    /// Buffers handed out and not yet released or made into a term.
    buffers: Vec<usize>,
    next_buffer: usize,
    /// Live iterators: handle, entries, position.
    iterators: Vec<(usize, Vec<(NIF_TERM, NIF_TERM)>, usize)>,
    next_iterator: usize,
    /// Registered resource types, by name.
    resource_types: Vec<String>,
    /// Resource objects: type and reference count.
    objects: Vec<(NIF_RESOURCE_TYPE, usize)>,
}

/// A small VM that keeps its terms in a table.
struct Beam {
    state: RefCell<State>,
}

impl Beam {
    fn new() -> Beam {
        Beam {
            state: RefCell::new(State {
                terms: Vec::new(),
                calls: Vec::new(),
                buffers: Vec::new(),
                next_buffer: 1,
                iterators: Vec::new(),
                next_iterator: 1,
                resource_types: Vec::new(),
                objects: Vec::new(),
            }),
        }
    }

    fn log(&self, name: &'static str) {
        self.state.borrow_mut().calls.push(name);
    }

    fn count(&self, name: &str) -> usize {
        self.state.borrow().calls.iter().filter(|c| **c == name).count()
    }

    fn put(&self, env: NIF_ENV, data: Data) -> NIF_TERM {
        let mut state = self.state.borrow_mut();
        if let Data::Atom(_) = data {
            if let Some(i) = state.terms.iter().position(|(_, d)| *d == data) {
                return i + 1;
            }
        }
        state.terms.push((env, data));
        state.terms.len()
    }

    fn data(&self, term: NIF_TERM) -> Option<Data> {
        let state = self.state.borrow();
        if term == 0 || term > state.terms.len() {
            None
        } else {
            Some(state.terms[term - 1].1.clone())
        }
    }

    fn env_of(&self, term: NIF_TERM) -> NIF_ENV {
        self.state.borrow().terms[term - 1].0
    }

    /// Whether two terms hold the same value, whatever their environments.
    fn same(&self, a: NIF_TERM, b: NIF_TERM) -> bool {
        match (self.data(a), self.data(b)) {
            (Some(Data::Tuple(x)), Some(Data::Tuple(y))) => {
                x.len() == y.len() && x.iter().zip(y.iter()).all(|(p, q)| self.same(*p, *q))
            }
            (Some(Data::Cons(h1, t1)), Some(Data::Cons(h2, t2))) => {
                self.same(h1, h2) && self.same(t1, t2)
            }
            (Some(Data::Entries(x)), Some(Data::Entries(y))) => {
                x.len() == y.len()
                    && x.iter().all(|(k, v)| {
                        y.iter().any(|(k2, v2)| self.same(*k, *k2) && self.same(*v, *v2))
                    })
            }
            (Some(Data::Raised(x)), Some(Data::Raised(y))) => self.same(x, y),
            (Some(x), Some(y)) => x == y,
            _ => false,
        }
    }

    fn copy(&self, dst: NIF_ENV, term: NIF_TERM) -> NIF_TERM {
        let data = match self.data(term).unwrap() {
            Data::Tuple(x) => Data::Tuple(x.iter().map(|t| self.copy(dst, *t)).collect()),
            Data::Cons(h, t) => Data::Cons(self.copy(dst, h), self.copy(dst, t)),
            Data::Entries(x) => {
                Data::Entries(x.iter().map(|(k, v)| (self.copy(dst, *k), self.copy(dst, *v))).collect())
            }
            other => other,
        };
        self.put(dst, data)
    }

    fn number(&self, env: NIF_ENV, value: i128) -> NIF_TERM {
        self.put(env, Data::Int(value))
    }

    fn atom(&self, name: &str) -> NIF_TERM {
        self.put(0, Data::Atom(name.chars().map(|c| c as u32 as u8).collect()))
    }

    fn binary(&self, env: NIF_ENV, bytes: &[u8]) -> NIF_TERM {
        self.put(env, Data::Binary(bytes.to_vec()))
    }

    fn list(&self, env: NIF_ENV, items: &[NIF_TERM]) -> NIF_TERM {
        let mut list = self.put(env, Data::Nil);
        for item in items.iter().rev() {
            list = self.put(env, Data::Cons(*item, list));
        }
        list
    }

    fn is(&self, name: &'static str, term: NIF_TERM, test: fn(&Data) -> bool) -> c_int {
        self.log(name);
        match self.data(term) {
            Some(d) if test(&d) => 1,
            _ => 0,
        }
    }

    fn get_number(&self, term: NIF_TERM, min: i128, max: i128) -> (c_int, i128) {
        match self.data(term) {
            Some(Data::Int(v)) if min <= v && v <= max => (1, v),
            _ => (0, 0),
        }
    }

    fn map_entries(&self, map: NIF_TERM) -> Option<Vec<(NIF_TERM, NIF_TERM)>> {
        match self.data(map) {
            Some(Data::Entries(entries)) => Some(entries),
            _ => None,
        }
    }
}

impl NifInterface for Beam {
    fn enif_make_copy(&self, dst_env: NIF_ENV, src_term: NIF_TERM) -> NIF_TERM {
        self.log("enif_make_copy");
        self.copy(dst_env, src_term)
    }

    fn enif_is_atom(&self, _env: NIF_ENV, term: NIF_TERM) -> c_int {
        self.is("enif_is_atom", term, |d| matches!(d, Data::Atom(_)))
    }

    fn enif_is_binary(&self, _env: NIF_ENV, term: NIF_TERM) -> c_int {
        self.is("enif_is_binary", term, |d| matches!(d, Data::Binary(_)))
    }

    fn enif_is_empty_list(&self, _env: NIF_ENV, term: NIF_TERM) -> c_int {
        self.is("enif_is_empty_list", term, |d| matches!(d, Data::Nil))
    }

    fn enif_is_exception(&self, _env: NIF_ENV, term: NIF_TERM) -> c_int {
        self.is("enif_is_exception", term, |d| matches!(d, Data::Raised(_) | Data::BadArg))
    }

    fn enif_is_fun(&self, _env: NIF_ENV, term: NIF_TERM) -> c_int {
        self.is("enif_is_fun", term, |_| false)
    }

    fn enif_is_list(&self, _env: NIF_ENV, term: NIF_TERM) -> c_int {
        self.is("enif_is_list", term, |d| matches!(d, Data::Nil | Data::Cons(_, _)))
    }

    fn enif_is_map(&self, _env: NIF_ENV, term: NIF_TERM) -> c_int {
        self.is("enif_is_map", term, |d| matches!(d, Data::Entries(_)))
    }

    fn enif_is_pid(&self, _env: NIF_ENV, term: NIF_TERM) -> c_int {
        self.is("enif_is_pid", term, |_| false)
    }

    fn enif_is_port(&self, _env: NIF_ENV, term: NIF_TERM) -> c_int {
        self.is("enif_is_port", term, |_| false)
    }

    fn enif_is_ref(&self, _env: NIF_ENV, term: NIF_TERM) -> c_int {
        self.is("enif_is_ref", term, |_| false)
    }

    fn enif_is_tuple(&self, _env: NIF_ENV, term: NIF_TERM) -> c_int {
        self.is("enif_is_tuple", term, |d| matches!(d, Data::Tuple(_)))
    }

    fn enif_raise_exception(&self, env: NIF_ENV, reason: NIF_TERM) -> NIF_TERM {
        self.log("enif_raise_exception");
        self.put(env, Data::Raised(reason))
    }

    fn enif_make_badarg(&self, env: NIF_ENV) -> NIF_TERM {
        self.log("enif_make_badarg");
        self.put(env, Data::BadArg)
    }

    fn enif_make_atom_len(&self, _env: NIF_ENV, name: &str) -> NIF_TERM {
        self.log("enif_make_atom_len");
        self.atom(name)
    }

    fn enif_get_atom_length_latin1(&self, _env: NIF_ENV, term: NIF_TERM) -> (c_int, c_uint) {
        self.log("enif_get_atom_length_latin1");
        match self.data(term) {
            Some(Data::Atom(bytes)) => (1, bytes.len() as c_uint),
            _ => (0, 0),
        }
    }

    fn enif_get_atom_latin1(&self, _env: NIF_ENV, term: NIF_TERM, size: c_uint) -> (c_int, Vec<u8>) {
        self.log("enif_get_atom_latin1");
        match self.data(term) {
            Some(Data::Atom(mut bytes)) if bytes.len() < size as usize => {
                bytes.push(0);
                (bytes.len() as c_int, bytes)
            }
            _ => (0, Vec::new()),
        }
    }

    fn enif_alloc_binary(&self, size: size_t) -> (c_int, ErlNifBinary) {
        self.log("enif_alloc_binary");
        if size > 1 << 20 {
            return (0, ErlNifBinary { data: Vec::new(), handle: 0 });
        }
        let mut state = self.state.borrow_mut();
        let handle = state.next_buffer;
        state.next_buffer += 1;
        state.buffers.push(handle);
        (1, ErlNifBinary { data: vec![0; size], handle })
    }

    fn enif_inspect_binary(&self, _env: NIF_ENV, bin_term: NIF_TERM) -> (c_int, ErlNifBinary) {
        self.log("enif_inspect_binary");
        match self.data(bin_term) {
            Some(Data::Binary(bytes)) => (1, ErlNifBinary { data: bytes, handle: bin_term }),
            _ => (0, ErlNifBinary { data: Vec::new(), handle: 0 }),
        }
    }

    fn enif_make_sub_binary(
        &self,
        env: NIF_ENV,
        bin_term: NIF_TERM,
        pos: size_t,
        size: size_t,
    ) -> NIF_TERM {
        self.log("enif_make_sub_binary");
        match self.data(bin_term) {
            Some(Data::Binary(bytes)) => self.put(env, Data::Binary(bytes[pos..pos + size].to_vec())),
            _ => panic!("not a binary"),
        }
    }

    fn enif_make_binary(&self, env: NIF_ENV, binary: &ErlNifBinary) -> NIF_TERM {
        self.log("enif_make_binary");
        self.state.borrow_mut().buffers.retain(|h| *h != binary.handle);
        self.put(env, Data::Binary(binary.data.clone()))
    }

    fn enif_release_binary(&self, binary: &ErlNifBinary) {
        self.log("enif_release_binary");
        self.state.borrow_mut().buffers.retain(|h| *h != binary.handle);
    }

    fn enif_get_list_cell(&self, _env: NIF_ENV, list: NIF_TERM) -> (c_int, NIF_TERM, NIF_TERM) {
        self.log("enif_get_list_cell");
        match self.data(list) {
            Some(Data::Cons(head, tail)) => (1, head, tail),
            _ => (0, 0, 0),
        }
    }

    fn enif_get_list_length(&self, _env: NIF_ENV, list: NIF_TERM) -> (c_int, c_uint) {
        self.log("enif_get_list_length");
        let mut len = 0;
        let mut at = list;
        loop {
            match self.data(at) {
                Some(Data::Nil) => return (1, len),
                Some(Data::Cons(_, tail)) => {
                    len += 1;
                    at = tail;
                }
                _ => return (0, 0),
            }
        }
    }

    fn enif_make_list_from_array(&self, env: NIF_ENV, arr: &Vec<NIF_TERM>, cnt: c_uint) -> NIF_TERM {
        self.log("enif_make_list_from_array");
        self.list(env, &arr[..cnt as usize])
    }

    fn enif_make_list_cell(&self, env: NIF_ENV, head: NIF_TERM, tail: NIF_TERM) -> NIF_TERM {
        self.log("enif_make_list_cell");
        self.put(env, Data::Cons(head, tail))
    }

    fn enif_make_reverse_list(&self, env: NIF_ENV, list: NIF_TERM) -> (c_int, NIF_TERM) {
        self.log("enif_make_reverse_list");
        let mut items = Vec::new();
        let mut at = list;
        loop {
            match self.data(at) {
                Some(Data::Nil) => break,
                Some(Data::Cons(head, tail)) => {
                    items.push(head);
                    at = tail;
                }
                _ => return (0, 0),
            }
        }
        items.reverse();
        (1, self.list(env, &items))
    }

    fn enif_get_map_value(&self, _env: NIF_ENV, map: NIF_TERM, key: NIF_TERM) -> (c_int, NIF_TERM) {
        self.log("enif_get_map_value");
        match self.map_entries(map) {
            Some(entries) => match entries.iter().find(|(k, _)| self.same(*k, key)) {
                Some((_, v)) => (1, *v),
                None => (0, 0),
            },
            None => (0, 0),
        }
    }

    fn enif_get_map_size(&self, _env: NIF_ENV, map: NIF_TERM) -> (c_int, size_t) {
        self.log("enif_get_map_size");
        match self.map_entries(map) {
            Some(entries) => (1, entries.len()),
            None => (0, 0),
        }
    }

    fn enif_make_new_map(&self, env: NIF_ENV) -> NIF_TERM {
        self.log("enif_make_new_map");
        self.put(env, Data::Entries(Vec::new()))
    }

    fn enif_make_map_put(
        &self,
        env: NIF_ENV,
        map: NIF_TERM,
        key: NIF_TERM,
        value: NIF_TERM,
    ) -> (c_int, NIF_TERM) {
        self.log("enif_make_map_put");
        match self.map_entries(map) {
            Some(mut entries) => {
                entries.retain(|(k, _)| !self.same(*k, key));
                entries.push((key, value));
                (1, self.put(env, Data::Entries(entries)))
            }
            None => (0, 0),
        }
    }

    fn enif_make_map_remove(&self, env: NIF_ENV, map: NIF_TERM, key: NIF_TERM) -> (c_int, NIF_TERM) {
        self.log("enif_make_map_remove");
        match self.map_entries(map) {
            Some(mut entries) => {
                entries.retain(|(k, _)| !self.same(*k, key));
                (1, self.put(env, Data::Entries(entries)))
            }
            None => (0, 0),
        }
    }

    fn enif_make_map_update(
        &self,
        env: NIF_ENV,
        map: NIF_TERM,
        key: NIF_TERM,
        new_value: NIF_TERM,
    ) -> (c_int, NIF_TERM) {
        self.log("enif_make_map_update");
        match self.map_entries(map) {
            Some(mut entries) => match entries.iter().position(|(k, _)| self.same(*k, key)) {
                Some(i) => {
                    entries[i].1 = new_value;
                    (1, self.put(env, Data::Entries(entries)))
                }
                None => (0, 0),
            },
            None => (0, 0),
        }
    }

    fn enif_map_iterator_create(
        &self,
        _env: NIF_ENV,
        map: NIF_TERM,
        entry: ErlNifMapIteratorEntry,
    ) -> (c_int, ErlNifMapIterator) {
        self.log("enif_map_iterator_create");
        match self.map_entries(map) {
            Some(entries) => {
                let mut state = self.state.borrow_mut();
                let handle = state.next_iterator;
                state.next_iterator += 1;
                let at = match entry {
                    ErlNifMapIteratorEntry::ERL_NIF_MAP_ITERATOR_HEAD => 0,
                    ErlNifMapIteratorEntry::ERL_NIF_MAP_ITERATOR_TAIL => {
                        entries.len().saturating_sub(1)
                    }
                };
                state.iterators.push((handle, entries, at));
                (1, ErlNifMapIterator { handle })
            }
            None => (0, ErlNifMapIterator { handle: 0 }),
        }
    }

    fn enif_map_iterator_destroy(&self, _env: NIF_ENV, iter: ErlNifMapIterator) {
        self.log("enif_map_iterator_destroy");
        self.state.borrow_mut().iterators.retain(|(h, _, _)| *h != iter.handle);
    }

    fn enif_map_iterator_get_pair(
        &self,
        _env: NIF_ENV,
        iter: &ErlNifMapIterator,
    ) -> (c_int, NIF_TERM, NIF_TERM) {
        self.log("enif_map_iterator_get_pair");
        let state = self.state.borrow();
        match state.iterators.iter().find(|(h, _, _)| *h == iter.handle) {
            Some((_, entries, at)) if *at < entries.len() => (1, entries[*at].0, entries[*at].1),
            _ => (0, 0, 0),
        }
    }

    fn enif_map_iterator_next(
        &self,
        _env: NIF_ENV,
        iter: &ErlNifMapIterator,
    ) -> (c_int, ErlNifMapIterator) {
        self.log("enif_map_iterator_next");
        let mut state = self.state.borrow_mut();
        match state.iterators.iter_mut().find(|(h, _, _)| *h == iter.handle) {
            Some((_, entries, at)) => {
                *at += 1;
                ((*at < entries.len()) as c_int, ErlNifMapIterator { handle: iter.handle })
            }
            None => (0, ErlNifMapIterator { handle: iter.handle }),
        }
    }

    fn enif_open_resource_type(
        &self,
        _env: NIF_ENV,
        name: &str,
        _dtor: Option<NifResourceDtor>,
        _flags: NifResourceFlags,
    ) -> NIF_RESOURCE_TYPE {
        self.log("enif_open_resource_type");
        let mut state = self.state.borrow_mut();
        if state.resource_types.iter().any(|n| n == name) {
            return 0;
        }
        state.resource_types.push(name.to_string());
        state.resource_types.len()
    }

    fn enif_get_resource(
        &self,
        _env: NIF_ENV,
        term: NIF_TERM,
        typ: NIF_RESOURCE_TYPE,
    ) -> (c_int, NIF_RESOURCE_HANDLE) {
        self.log("enif_get_resource");
        match self.data(term) {
            Some(Data::Resource(obj)) if self.state.borrow().objects[obj - 1].0 == typ => (1, obj),
            _ => (0, 0),
        }
    }

    fn enif_alloc_resource(&self, typ: NIF_RESOURCE_TYPE, _size: size_t) -> NIF_RESOURCE_HANDLE {
        self.log("enif_alloc_resource");
        let mut state = self.state.borrow_mut();
        state.objects.push((typ, 1));
        state.objects.len()
    }

    fn enif_make_resource(&self, env: NIF_ENV, obj: NIF_RESOURCE_HANDLE) -> NIF_TERM {
        self.log("enif_make_resource");
        self.put(env, Data::Resource(obj))
    }

    fn enif_release_resource(&self, obj: NIF_RESOURCE_HANDLE) {
        self.log("enif_release_resource");
        self.state.borrow_mut().objects[obj - 1].1 -= 1;
    }

    fn enif_keep_resource(&self, obj: NIF_RESOURCE_HANDLE) {
        self.log("enif_keep_resource");
        self.state.borrow_mut().objects[obj - 1].1 += 1;
    }

    fn enif_get_tuple(&self, _env: NIF_ENV, term: NIF_TERM) -> (c_int, Vec<NIF_TERM>) {
        self.log("enif_get_tuple");
        match self.data(term) {
            Some(Data::Tuple(items)) => (1, items),
            _ => (0, Vec::new()),
        }
    }

    fn enif_make_tuple_from_array(&self, env: NIF_ENV, arr: &Vec<NIF_TERM>, cnt: c_uint) -> NIF_TERM {
        self.log("enif_make_tuple_from_array");
        self.put(env, Data::Tuple(arr[..cnt as usize].to_vec()))
    }

    fn enif_consume_timeslice(&self, _env: NIF_ENV, percent: c_int) -> c_int {
        self.log("enif_consume_timeslice");
        (percent >= 100) as c_int
    }

    fn enif_get_int(&self, _env: NIF_ENV, term: NIF_TERM) -> (c_int, c_int) {
        self.log("enif_get_int");
        let (ok, v) = self.get_number(term, i32::MIN as i128, i32::MAX as i128);
        (ok, v as c_int)
    }

    fn enif_get_uint(&self, _env: NIF_ENV, term: NIF_TERM) -> (c_int, c_uint) {
        self.log("enif_get_uint");
        let (ok, v) = self.get_number(term, 0, u32::MAX as i128);
        (ok, v as c_uint)
    }

    fn enif_get_int64(&self, _env: NIF_ENV, term: NIF_TERM) -> (c_int, i64) {
        self.log("enif_get_int64");
        let (ok, v) = self.get_number(term, i64::MIN as i128, i64::MAX as i128);
        (ok, v as i64)
    }

    fn enif_get_uint64(&self, _env: NIF_ENV, term: NIF_TERM) -> (c_int, u64) {
        self.log("enif_get_uint64");
        let (ok, v) = self.get_number(term, 0, u64::MAX as i128);
        (ok, v as u64)
    }

    fn enif_make_int(&self, env: NIF_ENV, i: c_int) -> NIF_TERM {
        self.log("enif_make_int");
        self.number(env, i as i128)
    }

    fn enif_make_uint(&self, env: NIF_ENV, i: c_uint) -> NIF_TERM {
        self.log("enif_make_uint");
        self.number(env, i as i128)
    }

    fn enif_make_int64(&self, env: NIF_ENV, i: i64) -> NIF_TERM {
        self.log("enif_make_int64");
        self.number(env, i as i128)
    }

    fn enif_make_uint64(&self, env: NIF_ENV, i: u64) -> NIF_TERM {
        self.log("enif_make_uint64");
        self.number(env, i as i128)
    }
}

fn env<'a>(handle: NIF_ENV) -> NifEnv<'a> {
    NifEnv::new(RawNifEnv::new(handle))
}

fn term<'a>(e: NifEnv<'a>, handle: NIF_TERM) -> NifTerm<'a> {
    NifTerm::new(e, RawNifTerm::new(handle))
}

fn is_badarg<T>(r: &NifResult<T, Beam>) -> bool {
    matches!(r, Err(NifError::BadArg))
}

#[test]
fn env_and_term_keep_their_handles() {
    let e = env(7);
    assert_eq!(e.raw().as_c_arg(), 7);
    let t = term(e, 42);
    assert_eq!(t.as_c_arg(), 42);
    assert_eq!(t.raw().as_c_arg(), 42);
    assert_eq!(t.get_env().raw().as_c_arg(), 7);
}

#[test]
fn envs_compare_by_handle() {
    assert!(env(3) == env(3));
    assert!(env(3) != env(4));
    assert!(RawNifEnv::new(3) == RawNifEnv::new(3));
    assert!(RawNifEnv::new(3) != RawNifEnv::new(5));
}

#[test]
fn in_env_of_the_same_env_makes_no_copy() {
    let vm = Beam::new();
    let e1 = env(1);
    let t = term(e1, vm.number(1, 5));
    let moved = t.in_env(&vm, env(1));
    assert_eq!(moved.as_c_arg(), t.as_c_arg());
    assert!(moved.get_env() == e1);
    assert_eq!(vm.count("enif_make_copy"), 0);
}

#[test]
fn in_env_of_another_env_copies() {
    let vm = Beam::new();
    let inner = [vm.number(1, 1), vm.atom("ok")];
    let t = term(env(1), vm.put(1, Data::Tuple(inner.to_vec())));
    let moved = t.in_env(&vm, env(2));
    assert!(moved.get_env() == env(2));
    assert_ne!(moved.as_c_arg(), t.as_c_arg());
    assert_eq!(vm.env_of(moved.as_c_arg()), 2);
    assert!(vm.same(moved.as_c_arg(), t.as_c_arg()));
    assert_eq!(vm.count("enif_make_copy"), 1);
}

#[test]
fn env_cast_keeps_the_handle() {
    let t = term(env(1), 9);
    let cast = t.env_cast(env(2));
    assert_eq!(cast.as_c_arg(), 9);
    assert!(cast.get_env() == env(2));
}

#[test]
fn copy_term_asks_the_vm() {
    let vm = Beam::new();
    let src = vm.binary(1, &[1, 2, 3]);
    let copy = copy_term(&vm, RawNifEnv::new(2), RawNifTerm::new(src));
    assert_eq!(vm.data(copy.as_c_arg()), Some(Data::Binary(vec![1, 2, 3])));
    assert_eq!(vm.env_of(copy.as_c_arg()), 2);
}

#[test]
fn checked_term_reads_the_status() {
    assert_eq!(checked_term(1, 8).map(|t| t.as_c_arg()), Some(8));
    assert_eq!(checked_term(0, 8).map(|t| t.as_c_arg()), None);
    assert_eq!(checked_term(2, 8).map(|t| t.as_c_arg()), None);
    assert_eq!(checked_term(-1, 8).map(|t| t.as_c_arg()), None);
}

#[test]
fn map_get_of_a_missing_key_is_badarg() {
    let vm = Beam::new();
    let e = env(1);
    let m = map_new(&vm, e);
    let k = term(e, vm.atom("k"));
    assert!(is_badarg(&m.map_get(&vm, k)));
}

#[test]
fn map_put_then_get_returns_the_value() {
    let vm = Beam::new();
    let e = env(1);
    let m = map_new(&vm, e);
    let k = term(e, vm.atom("k"));
    let v = term(e, vm.number(1, 11));
    let m2 = m.map_put(&vm, k, v).ok().unwrap();
    let got = m2.map_get(&vm, k).ok().unwrap();
    assert_eq!(got.as_c_arg(), v.as_c_arg());
    assert!(got.get_env() == e);
    assert_eq!(m2.map_size(&vm).ok(), Some(1));
    assert_eq!(m.map_size(&vm).ok(), Some(0));
    assert!(is_badarg(&m.map_get(&vm, k)));
}

#[test]
fn map_put_overwrites() {
    let vm = Beam::new();
    let e = env(1);
    let k = term(e, vm.atom("k"));
    let m = map_new(&vm, e).map_put(&vm, k, term(e, vm.number(1, 1))).ok().unwrap();
    let v2 = term(e, vm.number(1, 2));
    let m2 = m.map_put(&vm, k, v2).ok().unwrap();
    assert_eq!(m2.map_size(&vm).ok(), Some(1));
    assert_eq!(m2.map_get(&vm, k).ok().unwrap().as_c_arg(), v2.as_c_arg());
}

#[test]
fn map_remove_and_update() {
    let vm = Beam::new();
    let e = env(1);
    let k = term(e, vm.atom("k"));
    let other = term(e, vm.atom("other"));
    let v = term(e, vm.number(1, 1));
    let w = term(e, vm.number(1, 2));
    let m = map_new(&vm, e).map_put(&vm, k, v).ok().unwrap();
    assert!(is_badarg(&m.map_update(&vm, other, w)));
    let updated = m.map_update(&vm, k, w).ok().unwrap();
    assert_eq!(updated.map_get(&vm, k).ok().unwrap().as_c_arg(), w.as_c_arg());
    let removed = updated.map_remove(&vm, k).ok().unwrap();
    assert_eq!(removed.map_size(&vm).ok(), Some(0));
    let still = m.map_remove(&vm, other).ok().unwrap();
    assert_eq!(still.map_size(&vm).ok(), Some(1));
}

#[test]
fn map_operations_on_a_non_map_are_badarg() {
    let vm = Beam::new();
    let e = env(1);
    let not_map = term(e, vm.number(1, 3));
    let k = term(e, vm.atom("k"));
    assert!(is_badarg(&not_map.map_get(&vm, k)));
    assert!(is_badarg(&not_map.map_size(&vm)));
    assert!(is_badarg(&not_map.map_put(&vm, k, k)));
    assert!(is_badarg(&not_map.map_remove(&vm, k)));
    assert!(is_badarg(&not_map.map_update(&vm, k, k)));
    assert!(NifMapIterator::new(&vm, not_map).is_none());
    assert!(matches!(not_map.decode::<NifMapIterator, Beam>(&vm), Err(NifError::BadArg)));
}

#[test]
fn map_iterator_walks_every_entry_once() {
    let vm = Beam::new();
    let e = env(1);
    let mut m = map_new(&vm, e);
    for i in 0..3 {
        m = m.map_put(&vm, term(e, vm.number(1, i)), term(e, vm.number(1, 10 * i))).ok().unwrap();
    }
    let mut iter = NifMapIterator::new(&vm, m).unwrap();
    let mut seen = Vec::new();
    while let Some((k, v)) = iter.next(&vm) {
        assert!(k.get_env() == e && v.get_env() == e);
        seen.push((vm.data(k.as_c_arg()).unwrap(), vm.data(v.as_c_arg()).unwrap()));
    }
    assert_eq!(
        seen,
        vec![
            (Data::Int(0), Data::Int(0)),
            (Data::Int(1), Data::Int(10)),
            (Data::Int(2), Data::Int(20)),
        ]
    );
    assert!(iter.next(&vm).is_none());
    assert_eq!(vm.count("enif_map_iterator_next"), 3);
    assert_eq!(vm.state.borrow().iterators.len(), 1);
    iter.destroy(&vm);
    assert_eq!(vm.state.borrow().iterators.len(), 0);
}

#[test]
fn map_iterator_dropped_early_is_handed_back() {
    let vm = Beam::new();
    let e = env(1);
    let m = map_new(&vm, e).map_put(&vm, term(e, vm.atom("a")), term(e, vm.atom("b"))).ok().unwrap();
    let iter: NifMapIterator = m.decode(&vm).ok().unwrap();
    assert_eq!(vm.state.borrow().iterators.len(), 1);
    iter.destroy(&vm);
    assert_eq!(vm.state.borrow().iterators.len(), 0);
}

#[test]
fn get_tuple_keeps_the_order() {
    let vm = Beam::new();
    let e = env(1);
    let items = vec![vm.number(1, 3), vm.atom("x"), vm.number(1, 4)];
    let t = term(e, vm.put(1, Data::Tuple(items.clone())));
    let got = get_tuple(&vm, t).ok().unwrap();
    assert_eq!(got.iter().map(|t| t.as_c_arg()).collect::<Vec<_>>(), items);
    assert!(got.iter().all(|t| t.get_env() == e));
    assert!(is_badarg(&get_tuple(&vm, term(e, items[0]))));
}

#[test]
fn make_tuple_then_get_tuple() {
    let vm = Beam::new();
    let e = env(1);
    let items = [term(e, vm.number(1, 1)), term(e, vm.number(1, 2))];
    let t = make_tuple(&vm, e, &items);
    assert!(t.get_env() == e);
    let back = get_tuple(&vm, t).ok().unwrap();
    assert_eq!(back.len(), 2);
    assert_eq!(back[0].as_c_arg(), items[0].as_c_arg());
    assert_eq!(back[1].as_c_arg(), items[1].as_c_arg());
    let empty = make_tuple(&vm, e, &[]);
    assert_eq!(get_tuple(&vm, empty).ok().unwrap().len(), 0);
}

#[test]
fn raw_tuple_reports_bad_arg() {
    let vm = Beam::new();
    let r = rustler::wrapper::get_tuple(&vm, RawNifEnv::new(1), RawNifTerm::new(vm.atom("a")));
    assert_eq!(r.err(), Some(NIF_ERROR::BAD_ARG));
}

#[test]
fn subbinary_holds_the_part() {
    let vm = Beam::new();
    let e = env(1);
    let b = NifBinary::from_term(&vm, term(e, vm.binary(1, &[10, 11, 12, 13, 14]))).ok().unwrap();
    assert_eq!(b.as_slice(), &[10, 11, 12, 13, 14]);
    let sub = b.make_subbinary(&vm, 1, 3).ok().unwrap();
    assert_eq!(sub.as_slice(), &[11, 12, 13]);
    assert_eq!(vm.data(sub.get_term(&vm, e).as_c_arg()), Some(Data::Binary(vec![11, 12, 13])));
    let whole = b.make_subbinary(&vm, 0, 5).ok().unwrap();
    assert_eq!(whole.as_slice(), b.as_slice());
    let empty = b.make_subbinary(&vm, 5, 0).ok().unwrap();
    assert_eq!(empty.as_slice(), &[] as &[u8]);
}

#[test]
fn subbinary_out_of_bounds_is_badarg() {
    let vm = Beam::new();
    let e = env(1);
    let b = term(e, vm.binary(1, &[1, 2, 3])).into_binary(&vm).ok().unwrap();
    assert!(is_badarg(&b.make_subbinary(&vm, 1, 3)));
    assert!(is_badarg(&b.make_subbinary(&vm, 4, 0)));
    assert!(is_badarg(&b.make_subbinary(&vm, 0, 4)));
    assert!(is_badarg(&b.make_subbinary(&vm, usize::MAX, 1)));
    assert!(is_badarg(&b.make_subbinary(&vm, 2, usize::MAX)));
    assert_eq!(vm.count("enif_make_sub_binary"), 0);
}

#[test]
fn binary_of_a_non_binary_is_badarg() {
    let vm = Beam::new();
    let e = env(1);
    let t = term(e, vm.number(1, 1));
    assert!(is_badarg(&NifBinary::from_term(&vm, t)));
    assert!(is_badarg(&t.into_binary(&vm)));
    assert!(is_badarg(&t.decode::<NifBinary, Beam>(&vm)));
}

#[test]
fn binary_term_in_another_env_is_a_copy() {
    let vm = Beam::new();
    let b = NifBinary::from_term(&vm, term(env(1), vm.binary(1, &[5, 6]))).ok().unwrap();
    let same = b.get_term(&vm, env(1));
    assert_eq!(vm.count("enif_make_copy"), 0);
    let copy = b.encode(&vm, env(2));
    assert_ne!(copy.as_c_arg(), same.as_c_arg());
    assert_eq!(vm.data(copy.as_c_arg()), Some(Data::Binary(vec![5, 6])));
}

#[test]
fn owned_binary_is_released_into_a_term() {
    let vm = Beam::new();
    let mut owned = OwnedNifBinary::allocate(&vm, 3).unwrap();
    assert_eq!(owned.as_slice(), &[0, 0, 0]);
    owned.as_mut_slice().copy_from_slice(&[7, 8, 9]);
    assert_eq!(owned.as_slice(), &[7, 8, 9]);
    assert_eq!(vm.state.borrow().buffers.len(), 1);
    let e = env(1);
    let b = owned.release(&vm, e);
    assert_eq!(b.as_slice(), &[7, 8, 9]);
    assert_eq!(vm.data(b.get_term(&vm, e).as_c_arg()), Some(Data::Binary(vec![7, 8, 9])));
    assert_eq!(vm.state.borrow().buffers.len(), 0);
    assert_eq!(vm.count("enif_release_binary"), 0);
}

#[test]
fn owned_binary_is_freed() {
    let vm = Beam::new();
    let owned = OwnedNifBinary::allocate(&vm, 2).unwrap();
    owned.free(&vm);
    assert_eq!(vm.state.borrow().buffers.len(), 0);
    assert_eq!(vm.count("enif_release_binary"), 1);
    assert_eq!(vm.count("enif_make_binary"), 0);
    assert!(OwnedNifBinary::allocate(&vm, usize::MAX).is_none());
}

#[test]
fn copy_range_takes_the_part() {
    assert_eq!(copy_range(&[1, 2, 3, 4], 1, 2), vec![2, 3]);
    assert_eq!(copy_range(&[1, 2, 3, 4], 4, 0), Vec::<u8>::new());
}

#[test]
fn atom_names_are_read_as_latin1() {
    let vm = Beam::new();
    let e = RawNifEnv::new(1);
    let ascii = make_atom(&vm, e, "hello");
    assert_eq!(get_atom(&vm, e, ascii).ok(), Some("hello".to_string()));
    let latin = RawNifTerm::new(vm.put(0, Data::Atom(vec![0x63, 0x61, 0x66, 0xE9])));
    assert_eq!(get_atom(&vm, e, latin).ok(), Some("caf\u{e9}".to_string()));
    let empty = make_atom(&vm, e, "");
    assert_eq!(get_atom(&vm, e, empty).ok(), Some(String::new()));
    assert!(is_badarg(&get_atom(&vm, e, RawNifTerm::new(vm.number(1, 1)))));
}

#[test]
fn latin1_maps_each_byte_to_its_code_point() {
    assert_eq!(latin1_to_string(&[]), "");
    assert_eq!(latin1_to_string(&[0x41, 0x7F, 0x80, 0xFF]), "A\u{7f}\u{80}\u{ff}");
    assert_eq!(latin1_to_string(&[0xE9]).len(), 2);
}

#[test]
fn atoms_are_the_same_in_every_env() {
    let vm = Beam::new();
    let a = get_atom_init(&vm, env(1), "ok");
    let b = get_atom_init(&vm, env(2), "ok");
    assert_eq!(a, b);
    assert_eq!(a.to_term(env(3)).as_c_arg(), a.as_c_arg());
    assert_ne!(a, get_atom_init(&vm, env(1), "error"));
}

fn add_u32<'a>(vm: &Beam, e: NifEnv<'a>, args: &Vec<NifTerm<'a>>) -> NifResult<NifTerm<'a>, Beam> {
    let a: u32 = args[0].decode(vm)?;
    let b: u32 = args[1].decode(vm)?;
    Ok((a + b).encode(vm, e))
}

#[test]
fn call_adapter_returns_the_sum() {
    let vm = Beam::new();
    let argv = [vm.number(1, 3), vm.number(1, 4)];
    let out = handle_nif_call(&vm, |e, args: &Vec<NifTerm>| add_u32(&vm, e, args), 2, 1, &argv);
    assert_eq!(vm.data(out), Some(Data::Int(7)));
    assert_eq!(vm.env_of(out), 1);
    assert_eq!(vm.count("enif_raise_exception"), 0);
    assert_eq!(vm.count("enif_make_badarg"), 0);
}

#[test]
fn call_adapter_raises_badarg_for_a_non_integer() {
    let vm = Beam::new();
    let argv = [vm.number(1, 3), vm.atom("four")];
    let out = handle_nif_call(&vm, |e, args: &Vec<NifTerm>| add_u32(&vm, e, args), 2, 1, &argv);
    assert_eq!(vm.data(out), Some(Data::BadArg));
    assert_eq!(vm.count("enif_make_badarg"), 1);
    assert_eq!(vm.count("enif_make_uint"), 0);
}

#[test]
fn call_adapter_keeps_the_order_of_arguments() {
    let vm = Beam::new();
    let argv = [vm.number(1, 5), vm.number(1, 6), vm.number(1, 7)];
    let seen = RefCell::new(Vec::new());
    let out = handle_nif_call(
        &vm,
        |e: NifEnv, args: &Vec<NifTerm>| -> NifResult<NifTerm, Beam> {
            assert_eq!(e.raw().as_c_arg(), 9);
            *seen.borrow_mut() = args.iter().map(|t| t.as_c_arg()).collect();
            assert!(args.iter().all(|t| t.get_env() == e));
            Ok(args[2])
        },
        3,
        9,
        &argv,
    );
    assert_eq!(*seen.borrow(), argv.to_vec());
    assert_eq!(out, argv[2]);
    let terms = wrap_arguments(env(9), &argv);
    assert_eq!(terms.iter().map(|t| t.as_c_arg()).collect::<Vec<_>>(), argv.to_vec());
    assert_eq!(wrap_arguments(env(9), &[]).len(), 0);
}

#[test]
fn panic_is_raised_as_nif_panic() {
    let vm = Beam::new();
    let out = handle_nif_panic(&vm, 1);
    match vm.data(out) {
        Some(Data::Raised(reason)) => assert_eq!(vm.data(reason), Some(Data::Atom(b"nif_panic".to_vec()))),
        other => panic!("not raised: {:?}", other),
    }
    let argv = [vm.number(1, 1), vm.number(1, 2)];
    let next = handle_nif_call(&vm, |e, args: &Vec<NifTerm>| add_u32(&vm, e, args), 2, 1, &argv);
    assert_eq!(vm.data(next), Some(Data::Int(3)));
}

#[test]
fn errors_encode_to_what_the_vm_hands_back() {
    let vm = Beam::new();
    let e = env(1);
    let badarg = NifError::<Beam>::BadArg.encode(&vm, e);
    assert_eq!(vm.data(badarg), Some(Data::BadArg));
    let atom = NifError::<Beam>::Atom("nope").encode(&vm, e);
    assert_eq!(vm.data(atom), Some(Data::Atom(b"nope".to_vec())));
    assert_eq!(vm.count("enif_raise_exception"), 0);
    let raised = NifError::<Beam>::RaiseAtom("boom").encode(&vm, e);
    match vm.data(raised) {
        Some(Data::Raised(reason)) => assert_eq!(vm.data(reason), Some(Data::Atom(b"boom".to_vec()))),
        other => panic!("not raised: {:?}", other),
    }
    let term_error: NifError<Beam> = NifError::RaiseTerm(Box::new(77u32));
    let raised = term_error.encode(&vm, e);
    match vm.data(raised) {
        Some(Data::Raised(reason)) => assert_eq!(vm.data(reason), Some(Data::Int(77))),
        other => panic!("not raised: {:?}", other),
    }
}

#[test]
fn finish_call_returns_the_term_of_ok() {
    let vm = Beam::new();
    let e = env(1);
    assert_eq!(finish_call(&vm, e, Ok(term(e, 5))), 5);
    assert_eq!(vm.state.borrow().calls.len(), 0);
    let out = finish_call(&vm, e, Err(NifError::BadArg));
    assert_eq!(vm.data(out), Some(Data::BadArg));
}

#[test]
fn load_adapter_maps_the_answer_to_a_status() {
    let none: Option<fn(NifEnv, NifTerm) -> bool> = None;
    assert_eq!(handle_nif_init_call(none, 1, 2), 0);
    assert_eq!(handle_nif_init_call(Some(|_e: NifEnv, _t: NifTerm| true), 1, 2), 0);
    assert_eq!(handle_nif_init_call(Some(|_e: NifEnv, _t: NifTerm| false), 1, 2), 1);
    let status = handle_nif_init_call(
        Some(|e: NifEnv, t: NifTerm| e.raw().as_c_arg() == 4 && t.as_c_arg() == 5 && t.get_env() == e),
        4,
        5,
    );
    assert_eq!(status, 0);
}

#[test]
fn integers_round_trip() {
    let vm = Beam::new();
    let e = env(1);
    assert_eq!(i32::MIN.encode(&vm, e).decode::<i32, Beam>(&vm).ok(), Some(i32::MIN));
    assert_eq!(u32::MAX.encode(&vm, e).decode::<u32, Beam>(&vm).ok(), Some(u32::MAX));
    assert_eq!(i64::MIN.encode(&vm, e).decode::<i64, Beam>(&vm).ok(), Some(i64::MIN));
    assert_eq!(u64::MAX.encode(&vm, e).decode::<u64, Beam>(&vm).ok(), Some(u64::MAX));
    assert_eq!((-128i8).encode(&vm, e).decode::<i8, Beam>(&vm).ok(), Some(-128));
    assert_eq!(i16::MAX.encode(&vm, e).decode::<i16, Beam>(&vm).ok(), Some(i16::MAX));
    assert_eq!(255u8.encode(&vm, e).decode::<u8, Beam>(&vm).ok(), Some(255));
    assert_eq!(u16::MAX.encode(&vm, e).decode::<u16, Beam>(&vm).ok(), Some(u16::MAX));
    assert_eq!(vm.data(7u8.encode(&vm, e).as_c_arg()), Some(Data::Int(7)));
}

#[test]
fn integers_out_of_range_are_badarg() {
    let vm = Beam::new();
    let e = env(1);
    assert!(is_badarg(&256u32.encode(&vm, e).decode::<u8, Beam>(&vm)));
    assert!(is_badarg(&(-1i32).encode(&vm, e).decode::<u8, Beam>(&vm)));
    assert!(is_badarg(&128i32.encode(&vm, e).decode::<i8, Beam>(&vm)));
    assert!(is_badarg(&(-129i32).encode(&vm, e).decode::<i8, Beam>(&vm)));
    assert!(is_badarg(&65536u32.encode(&vm, e).decode::<u16, Beam>(&vm)));
    assert!(is_badarg(&32768i32.encode(&vm, e).decode::<i16, Beam>(&vm)));
    assert!(is_badarg(&(-1i64).encode(&vm, e).decode::<u32, Beam>(&vm)));
    assert!(is_badarg(&u64::MAX.encode(&vm, e).decode::<i64, Beam>(&vm)));
    assert!(is_badarg(&term(e, vm.atom("x")).decode::<i32, Beam>(&vm)));
}

#[test]
fn booleans_are_atoms() {
    let vm = Beam::new();
    let e = env(1);
    let t = true.encode(&vm, e);
    assert_eq!(vm.data(t.as_c_arg()), Some(Data::Atom(b"true".to_vec())));
    assert_eq!(t.decode::<bool, Beam>(&vm).ok(), Some(true));
    assert_eq!(false.encode(&vm, e).decode::<bool, Beam>(&vm).ok(), Some(false));
    assert!(is_badarg(&term(e, vm.atom("maybe")).decode::<bool, Beam>(&vm)));
    assert!(is_badarg(&term(e, vm.number(1, 1)).decode::<bool, Beam>(&vm)));
}

#[test]
fn terms_encode_and_decode_as_themselves() {
    let vm = Beam::new();
    let e = env(1);
    let t = term(e, vm.number(1, 5));
    assert_eq!(t.decode::<NifTerm, Beam>(&vm).ok().unwrap().as_c_arg(), t.as_c_arg());
    assert_eq!(t.encode(&vm, e).as_c_arg(), t.as_c_arg());
    assert_eq!(vm.state.borrow().calls.len(), 0);
}

#[test]
fn kinds_of_terms_are_told_apart() {
    let vm = Beam::new();
    let e = RawNifEnv::new(1);
    let atom = RawNifTerm::new(vm.atom("a"));
    let bin = RawNifTerm::new(vm.binary(1, &[1]));
    let nil = RawNifTerm::new(vm.list(1, &[]));
    let list = RawNifTerm::new(vm.list(1, &[atom.as_c_arg()]));
    let map = RawNifTerm::new(vm.put(1, Data::Entries(vec![])));
    let tuple = RawNifTerm::new(vm.put(1, Data::Tuple(vec![])));
    let raised = RawNifTerm::new(rustler::wrapper::exception::raise_badarg(&vm, e));
    assert!(is_atom(&vm, e, atom) && !is_atom(&vm, e, bin));
    assert!(is_binary(&vm, e, bin) && !is_binary(&vm, e, atom));
    assert!(is_empty_list(&vm, e, nil) && !is_empty_list(&vm, e, list));
    assert!(is_list(&vm, e, nil) && is_list(&vm, e, list) && !is_list(&vm, e, map));
    assert!(is_map(&vm, e, map) && !is_map(&vm, e, tuple));
    assert!(is_tuple(&vm, e, tuple) && !is_tuple(&vm, e, map));
    assert!(is_exception(&vm, e, raised) && !is_exception(&vm, e, atom));
    assert!(!is_fun(&vm, e, atom) && !is_pid(&vm, e, atom));
    assert!(!is_port(&vm, e, atom) && !is_ref(&vm, e, atom));
}

#[test]
fn lists_are_taken_apart_and_made() {
    let vm = Beam::new();
    let e = RawNifEnv::new(1);
    let items = [RawNifTerm::new(vm.number(1, 1)), RawNifTerm::new(vm.number(1, 2))];
    let list = make_list(&vm, e, &items);
    assert_eq!(get_list_length(&vm, e, list), Some(2));
    let (head, tail) = get_list_cell(&vm, e, list).unwrap();
    assert_eq!(head.as_c_arg(), items[0].as_c_arg());
    assert_eq!(get_list_length(&vm, e, tail), Some(1));
    let longer = make_list_cell(&vm, e, items[1], list);
    assert_eq!(get_list_length(&vm, e, longer), Some(3));
    let reversed = make_reverse_list(&vm, e, list).unwrap();
    let (first, _) = get_list_cell(&vm, e, reversed).unwrap();
    assert_eq!(first.as_c_arg(), items[1].as_c_arg());
    let empty = make_list(&vm, e, &[]);
    assert!(get_list_cell(&vm, e, empty).is_none());
    assert_eq!(get_list_length(&vm, e, items[0]), None);
    assert!(make_reverse_list(&vm, e, items[0]).is_none());
}

#[test]
fn timeslice_answer_is_handed_on() {
    let vm = Beam::new();
    assert!(!consume_timeslice(&vm, env(1), 10));
    assert!(consume_timeslice(&vm, env(1), 100));
}

#[test]
fn resource_types_are_registered_once() {
    let vm = Beam::new();
    let e = env(1);
    let typ = alloc_resource_type(&vm, e, "thing", None, NifResourceFlags::ERL_NIF_RT_CREATE);
    assert_eq!(typ, Some(NifResourceType { res: 1 }));
    let again = alloc_resource_type(&vm, e, "thing", Some(64), NifResourceFlags::ERL_NIF_RT_CREATE);
    assert_eq!(again, None);
}

#[test]
fn resource_objects_are_kept_and_released() {
    let vm = Beam::new();
    let e = RawNifEnv::new(1);
    let flags = NifResourceFlags::ERL_NIF_RT_CREATE;
    let typ = open_resource_type(&vm, e, "a", None, flags).unwrap();
    let other = open_resource_type(&vm, e, "b", None, flags).unwrap();
    let obj = alloc_resource(&vm, typ, 16);
    let t = make_resource(&vm, e, obj);
    assert_eq!(get_resource(&vm, e, t, typ), Some(obj));
    assert_eq!(get_resource(&vm, e, t, other), None);
    assert_eq!(get_resource(&vm, e, RawNifTerm::new(vm.atom("x")), typ), None);
    keep_resource(&vm, obj);
    assert_eq!(vm.state.borrow().objects[obj - 1].1, 2);
    release_resource(&vm, obj);
    release_resource(&vm, obj);
    assert_eq!(vm.state.borrow().objects[obj - 1].1, 0);
}

#[test]
fn values_are_aligned_inside_their_block() {
    assert_eq!(align_alloced_mem_for_struct(0x1000, 8), 0x1008);
    assert_eq!(align_alloced_mem_for_struct(0x1001, 8), 0x1008);
    assert_eq!(align_alloced_mem_for_struct(0x1007, 8), 0x1008);
    assert_eq!(align_alloced_mem_for_struct(0x1008, 8), 0x1010);
    assert_eq!(align_alloced_mem_for_struct(5, 1), 6);
    assert_eq!(get_alloc_size_struct(24, 8), Some(32));
    assert_eq!(get_alloc_size_struct(0, 1), Some(1));
    assert_eq!(get_alloc_size_struct(usize::MAX, 1), None);
}

/// A record type of a user, with its encoder and decoder written by hand.
struct Point {
    x: i32,
    y: i32,
}

impl NifEncoder<Beam> for Point {
    fn encode<'b>(&self, vm: &Beam, e: NifEnv<'b>) -> NifTerm<'b> {
        let x = term(e, vm.atom("x"));
        let y = term(e, vm.atom("y"));
        let m = map_new(vm, e).map_put(vm, x, self.x.encode(vm, e)).ok().unwrap();
        m.map_put(vm, y, self.y.encode(vm, e)).ok().unwrap()
    }
}

impl<'a> NifDecoder<'a, Beam> for Point {
    fn decode(vm: &Beam, t: NifTerm<'a>) -> NifResult<Self, Beam> {
        let e = t.get_env();
        let x = t.map_get(vm, term(e, vm.atom("x")))?.decode(vm)?;
        let y = t.map_get(vm, term(e, vm.atom("y")))?.decode(vm)?;
        Ok(Point { x, y })
    }
}

#[test]
fn user_types_encode_and_decode() {
    let vm = Beam::new();
    let e = env(1);
    let t = Point { x: 3, y: -4 }.encode(&vm, e);
    let back: Point = t.decode(&vm).ok().unwrap();
    assert_eq!((back.x, back.y), (3, -4));
    assert!(is_badarg(&map_new(&vm, e).decode::<Point, Beam>(&vm)));
    let raised = NifError::RaiseTerm(Box::new(Point { x: 1, y: 2 })).encode(&vm, e);
    match vm.data(raised) {
        Some(Data::Raised(reason)) => {
            let p: Point = term(e, reason).decode(&vm).ok().unwrap();
            assert_eq!((p.x, p.y), (1, 2));
        }
        other => panic!("not raised: {:?}", other),
    }
}

fn s(text: &str) -> String {
    text.to_string()
}

fn attribute(items: Vec<MetaItem>) -> MetaItem {
    MetaItem::List(s("ExStruct"), items)
}

fn named(names: &[&str]) -> Vec<StructField> {
    names.iter().map(|n| StructField { ident: Some(s(n)) }).collect()
}

#[test]
fn meta_item_value_is_the_first_with_a_value() {
    let item = attribute(vec![
        MetaItem::Word(s("module")),
        MetaItem::NameValue(s("other"), s("X")),
        MetaItem::NameValue(s("module"), s("Elixir.First")),
        MetaItem::NameValue(s("module"), s("Elixir.Second")),
    ]);
    assert_eq!(get_meta_item_value(&item, &s("module")), Some(s("Elixir.First")));
    assert_eq!(get_meta_item_value(&item, &s("other")), Some(s("X")));
    assert_eq!(get_meta_item_value(&item, &s("missing")), None);
    assert_eq!(get_meta_item_value(&attribute(vec![]), &s("module")), None);
    assert_eq!(get_meta_item_value(&MetaItem::Word(s("module")), &s("module")), None);
    let pair = MetaItem::NameValue(s("module"), s("M"));
    assert_eq!(get_meta_item_value(&pair, &s("module")), None);
    let nested = attribute(vec![attribute(vec![MetaItem::NameValue(s("module"), s("M"))])]);
    assert_eq!(get_meta_item_value(&nested, &s("module")), None);
    assert_eq!(pair.name(), "module");
    assert_eq!(pair.value_str(), Some(&s("M")));
    assert_eq!(item.value_str(), None);
}

#[test]
fn transcoder_is_made_for_a_struct_with_named_fields() {
    let item = attribute(vec![MetaItem::NameValue(s("module"), s("Elixir.Point"))]);
    let plain = Annotatable::Struct { lifetimes: 0, fields: named(&["x", "y"]) };
    let t = transcoder_decorator(&item, &plain).ok().unwrap();
    assert_eq!(t.module, "Elixir.Point");
    assert_eq!(t.fields, vec![s("x"), s("y")]);
    assert!(!t.has_lifetime);
    let borrowed = Annotatable::Struct { lifetimes: 1, fields: vec![] };
    let t = transcoder_decorator(&item, &borrowed).ok().unwrap();
    assert!(t.has_lifetime);
    assert!(t.fields.is_empty());
}

#[test]
fn transcoder_is_refused_with_a_reason() {
    let with_module = attribute(vec![MetaItem::NameValue(s("module"), s("M"))]);
    let without = attribute(vec![MetaItem::Word(s("module"))]);
    let good = Annotatable::Struct { lifetimes: 0, fields: named(&["a"]) };
    let many = Annotatable::Struct { lifetimes: 2, fields: named(&["a"]) };
    let tuple = Annotatable::Struct { lifetimes: 0, fields: vec![StructField { ident: None }] };
    let many_tuple = Annotatable::Struct { lifetimes: 2, fields: vec![StructField { ident: None }] };
    assert_eq!(transcoder_decorator(&without, &good).err(), Some(TranscoderError::NoModule));
    assert_eq!(transcoder_decorator(&without, &Annotatable::Other).err(), Some(TranscoderError::NoModule));
    assert_eq!(transcoder_decorator(&with_module, &Annotatable::Other).err(), Some(TranscoderError::NotAStruct));
    assert_eq!(transcoder_decorator(&with_module, &many).err(), Some(TranscoderError::ManyLifetimes));
    assert_eq!(transcoder_decorator(&with_module, &many_tuple).err(), Some(TranscoderError::ManyLifetimes));
    assert_eq!(transcoder_decorator(&with_module, &tuple).err(), Some(TranscoderError::TupleStruct));
    assert_eq!(TranscoderError::NoModule.message(), "attribute must have module parameter");
    assert_eq!(TranscoderError::ManyLifetimes.message(), "struct can only have one lifetime argument");
    assert_eq!(TranscoderError::TupleStruct.message(), "a tuple struct can't be converted to a elixir struct");
    assert_eq!(TranscoderError::NotAStruct.message(), "must decorate a struct");
    assert_eq!(field_names(&named(&["a", "b"])), Some(vec![s("a"), s("b")]));
    let mixed = vec![StructField { ident: Some(s("a")) }, StructField { ident: None }];
    assert_eq!(field_names(&mixed), None);
}

#[test]
fn structs_are_maps_with_their_module() {
    let vm = Beam::new();
    let e = env(1);
    let made = make_ex_struct(&vm, e, "Elixir.Point").unwrap();
    assert!(made.get_env() == e);
    assert_eq!(made.map_size(&vm).ok(), Some(1));
    let name = get_ex_struct_name(&vm, made).unwrap();
    assert_eq!(name, get_atom_init(&vm, e, "Elixir.Point"));
    assert_eq!(get_field(&vm, made, "__struct__").ok().unwrap().as_c_arg(), name.as_c_arg());
    assert!(get_ex_struct_name(&vm, map_new(&vm, e)).is_none());
    assert!(get_ex_struct_name(&vm, term(e, vm.number(1, 1))).is_none());
    let odd = put_field(&vm, map_new(&vm, e), "__struct__", term(e, vm.number(1, 5))).ok().unwrap();
    assert!(get_ex_struct_name(&vm, odd).is_none());
    assert!(is_badarg(&put_field(&vm, term(e, vm.number(1, 1)), "a", made)));
}

#[test]
fn struct_fields_round_trip_in_order() {
    let vm = Beam::new();
    let e = env(1);
    let x = term(e, vm.number(1, 3));
    let y = term(e, vm.number(1, 4));
    let built = encode_struct(&vm, e, "Elixir.Point", &[("x", x), ("y", y)]).unwrap();
    assert!(built.get_env() == e);
    assert_eq!(built.map_size(&vm).ok(), Some(3));
    let fields = decode_struct(&vm, built, "Elixir.Point", &["y", "x"]).ok().unwrap();
    assert_eq!(fields.iter().map(|t| t.as_c_arg()).collect::<Vec<_>>(), vec![y.as_c_arg(), x.as_c_arg()]);
    assert!(fields.iter().all(|t| t.get_env() == e));
    assert_eq!(decode_struct(&vm, built, "Elixir.Point", &[]).ok().unwrap().len(), 0);
    assert!(is_badarg(&decode_struct(&vm, built, "Elixir.Other", &["x", "y"])));
    assert!(is_badarg(&decode_struct(&vm, built, "Elixir.Point", &["x", "z", "y"])));
    assert!(is_badarg(&decode_struct(&vm, map_new(&vm, e), "Elixir.Point", &[])));
    assert!(is_badarg(&decode_fields(&vm, built, &["q"])));
    assert_eq!(decode_fields(&vm, built, &["x"]).ok().unwrap()[0].as_c_arg(), x.as_c_arg());
}

#[test]
fn encode_fields_puts_later_values_over_earlier_ones() {
    let vm = Beam::new();
    let e = env(1);
    let a = term(e, vm.number(1, 1));
    let b = term(e, vm.number(1, 2));
    let m = encode_fields(&vm, map_new(&vm, e), &[("k", a), ("k", b)]).unwrap();
    assert_eq!(m.map_size(&vm).ok(), Some(1));
    assert_eq!(get_field(&vm, m, "k").ok().unwrap().as_c_arg(), b.as_c_arg());
    let same = encode_fields(&vm, m, &[]).unwrap();
    assert_eq!(same.as_c_arg(), m.as_c_arg());
    assert!(encode_fields(&vm, a, &[("k", b)]).is_none());
    assert!(encode_fields(&vm, a, &[]).is_some());
}

#[test]
fn list_elements_come_in_order() {
    let vm = Beam::new();
    let e = env(1);
    let items = [term(e, vm.number(1, 1)), term(e, vm.number(1, 2)), term(e, vm.number(1, 3))];
    let list = make_term_list(&vm, e, &items);
    assert!(list.get_env() == e);
    assert_eq!(list.list_length(&vm).ok(), Some(3));
    let back = list_to_vec(&vm, list).ok().unwrap();
    assert_eq!(
        back.iter().map(|t| t.as_c_arg()).collect::<Vec<_>>(),
        items.iter().map(|t| t.as_c_arg()).collect::<Vec<_>>()
    );
    assert!(back.iter().all(|t| t.get_env() == e));
    assert_eq!(list_to_vec(&vm, make_term_list(&vm, e, &[])).ok().unwrap().len(), 0);
    assert!(is_badarg(&list_to_vec(&vm, items[0])));
    let improper = term(e, vm.put(1, Data::Cons(items[0].as_c_arg(), items[1].as_c_arg())));
    assert!(is_badarg(&list_to_vec(&vm, improper)));
    assert!(is_badarg(&improper.list_length(&vm)));
}

#[test]
fn list_terms_are_taken_apart_and_extended() {
    let vm = Beam::new();
    let e = env(1);
    let items = [term(e, vm.number(1, 1)), term(e, vm.number(1, 2))];
    let list = make_term_list(&vm, e, &items);
    let (head, tail) = list.list_get_cell(&vm).ok().unwrap();
    assert_eq!(head.as_c_arg(), items[0].as_c_arg());
    assert_eq!(tail.list_length(&vm).ok(), Some(1));
    assert!(head.get_env() == e && tail.get_env() == e);
    let longer = list.list_prepend(&vm, items[1]);
    assert_eq!(longer.list_length(&vm).ok(), Some(3));
    assert_eq!(longer.list_get_cell(&vm).ok().unwrap().0.as_c_arg(), items[1].as_c_arg());
    let reversed = list.list_reverse(&vm).ok().unwrap();
    assert_eq!(reversed.list_get_cell(&vm).ok().unwrap().0.as_c_arg(), items[1].as_c_arg());
    assert!(is_badarg(&make_term_list(&vm, e, &[]).list_get_cell(&vm)));
    assert!(is_badarg(&head.list_get_cell(&vm)));
    assert!(is_badarg(&head.list_reverse(&vm)));
}

#[test]
fn atom_answers_that_do_not_fit_are_badarg() {
    assert_eq!(checked_name::<Beam>(2, 3, vec![0x6f, 0x6b, 0]).ok(), Some("ok".to_string()));
    assert_eq!(checked_name::<Beam>(0, 1, vec![0]).ok(), Some(String::new()));
    assert!(is_badarg(&checked_name::<Beam>(2, 2, vec![0x6f, 0x6b, 0])));
    assert!(is_badarg(&checked_name::<Beam>(2, 3, vec![0x6f])));
    assert!(is_badarg(&checked_name::<Beam>(2, 0, vec![])));
    assert!(is_badarg(&checked_name::<Beam>(2, -1, vec![0x6f, 0x6b, 0])));
    assert!(is_badarg(&checked_name::<Beam>(u32::MAX, 0, vec![])));
}

#[test]
fn every_small_integer_round_trips() {
    let vm = Beam::new();
    let e = env(1);
    for v in u8::MIN..=u8::MAX {
        assert_eq!(v.encode(&vm, e).decode::<u8, Beam>(&vm).ok(), Some(v));
    }
    for v in i8::MIN..=i8::MAX {
        assert_eq!(v.encode(&vm, e).decode::<i8, Beam>(&vm).ok(), Some(v));
        let wide = (v as i32).encode(&vm, e);
        assert_eq!(wide.decode::<u8, Beam>(&vm).ok(), if v >= 0 { Some(v as u8) } else { None });
    }
}

#[test]
fn every_part_of_a_binary_is_in_bounds_or_badarg() {
    let vm = Beam::new();
    let e = env(1);
    let bytes = [1u8, 2, 3, 4, 5, 6];
    let b = NifBinary::from_term(&vm, term(e, vm.binary(1, &bytes))).ok().unwrap();
    for offset in 0..9usize {
        for length in 0..9usize {
            let r = b.make_subbinary(&vm, offset, length);
            if offset + length <= bytes.len() {
                let sub = r.ok().unwrap();
                assert_eq!(sub.as_slice(), &bytes[offset..offset + length]);
                assert!(sub.get_term(&vm, e).get_env() == e);
            } else {
                assert!(is_badarg(&r));
            }
        }
    }
}

#[test]
fn every_aligned_address_is_a_multiple_inside_the_block() {
    for align in [1usize, 2, 4, 8, 16, 64] {
        for addr in 0..200usize {
            let aligned = align_alloced_mem_for_struct(addr, align);
            assert_eq!(aligned % align, 0);
            assert!(addr < aligned && aligned <= addr + align);
            assert_eq!(aligned, addr + (align - addr % align));
            let block = get_alloc_size_struct(24, align).unwrap();
            assert!(aligned + 24 <= addr + block);
        }
    }
}

#[test]
fn every_byte_is_its_own_code_point() {
    for b in u8::MIN..=u8::MAX {
        let text = latin1_to_string(&[b]);
        assert_eq!(text.chars().collect::<Vec<char>>(), vec![b as char]);
        assert_eq!(text.chars().next().unwrap() as u32, b as u32);
    }
}
