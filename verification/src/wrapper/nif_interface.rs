//! The call surface of the Erlang VM, as this library sees it.
//!
//! Every operation of the VM is a method of [`NifInterface`]. The methods take
//! and return plain values: handles are integers, buffers are vectors, and a
//! C out-parameter comes back beside the status code. The trait promises
//! nothing about what the VM answers; the library is verified for every
//! answer, and its contracts speak of the answer through `call_ensures`.

use vstd::prelude::*;

verus! {

/// An environment handle, as the VM hands it out.
pub type NIF_ENV = usize;

/// A term handle, meaningful only together with the environment that owns it.
pub type NIF_TERM = usize;

/// A resource type handle; 0 stands for the null handle.
pub type NIF_RESOURCE_TYPE = usize;

/// A handle to a resource object.
pub type NIF_RESOURCE_HANDLE = usize;

/// A handle to a resource object that may be written through.
pub type MUTABLE_NIF_RESOURCE_HANDLE = usize;

/// A resource destructor, by the address the VM calls.
pub type NifResourceDtor = usize;

pub type c_int = i32;

pub type c_uint = u32;

pub type size_t = usize;

/// The one failure the VM reports for a term of the wrong kind.
#[derive(Clone, Copy, Debug, PartialEq, Eq, Structural)]
pub enum NIF_ERROR {
    BAD_ARG,
}

/// How a resource type is opened.
#[derive(Clone, Copy, Debug, PartialEq, Eq, Structural)]
pub enum NifResourceFlags {
    ERL_NIF_RT_CREATE,
    ERL_NIF_RT_TAKEOVER,
}

/// Where a map iterator starts.
#[derive(Clone, Copy, Debug, PartialEq, Eq, Structural)]
pub enum ErlNifMapIteratorEntry {
    ERL_NIF_MAP_ITERATOR_HEAD,
    ERL_NIF_MAP_ITERATOR_TAIL,
}

/// What a NIF may declare about how long it runs.
#[derive(Clone, Copy, Debug, PartialEq, Eq, Structural)]
pub enum ErlNifTaskFlags {
    ERL_NIF_NORMAL_JOB,
    ERL_NIF_DIRTY_JOB_CPU_BOUND,
    ERL_NIF_DIRTY_JOB_IO_BOUND,
}

/// A byte buffer of the VM: its bytes, and the VM's own name for the buffer.
///
/// `handle` is what the VM needs to find the buffer again when it is made
/// into a term or released; the library only carries it.
#[derive(Debug)]
pub struct ErlNifBinary {
    pub data: Vec<u8>,
    pub handle: usize,
}

/// The position of a map iterator, as the VM keeps it.
#[derive(Debug)]
pub struct ErlNifMapIterator {
    pub handle: usize,
}

/// The operations of the VM that the library calls.
///
/// A status code of 1 is the VM's "true"; what counts as failure is decided
/// by the caller of each method, not here.
pub trait NifInterface {
    fn enif_make_copy(&self, dst_env: NIF_ENV, src_term: NIF_TERM) -> NIF_TERM;

    fn enif_is_atom(&self, env: NIF_ENV, term: NIF_TERM) -> c_int;

    fn enif_is_binary(&self, env: NIF_ENV, term: NIF_TERM) -> c_int;

    fn enif_is_empty_list(&self, env: NIF_ENV, term: NIF_TERM) -> c_int;

    fn enif_is_exception(&self, env: NIF_ENV, term: NIF_TERM) -> c_int;

    fn enif_is_fun(&self, env: NIF_ENV, term: NIF_TERM) -> c_int;

    fn enif_is_list(&self, env: NIF_ENV, term: NIF_TERM) -> c_int;

    fn enif_is_map(&self, env: NIF_ENV, term: NIF_TERM) -> c_int;

    fn enif_is_pid(&self, env: NIF_ENV, term: NIF_TERM) -> c_int;

    fn enif_is_port(&self, env: NIF_ENV, term: NIF_TERM) -> c_int;

    fn enif_is_ref(&self, env: NIF_ENV, term: NIF_TERM) -> c_int;

    fn enif_is_tuple(&self, env: NIF_ENV, term: NIF_TERM) -> c_int;

    fn enif_raise_exception(&self, env: NIF_ENV, reason: NIF_TERM) -> NIF_TERM;

    fn enif_make_badarg(&self, env: NIF_ENV) -> NIF_TERM;

    fn enif_make_atom_len(&self, env: NIF_ENV, name: &str) -> NIF_TERM;

    /// The status, and the atom's length in Latin-1 bytes.
    fn enif_get_atom_length_latin1(&self, env: NIF_ENV, term: NIF_TERM) -> (c_int, c_uint);

    /// The number of bytes written into a buffer of `size` bytes, and those
    /// bytes, the terminating zero included.
    fn enif_get_atom_latin1(&self, env: NIF_ENV, term: NIF_TERM, size: c_uint) -> (
        c_int,
        Vec<u8>,
    );

    fn enif_alloc_binary(&self, size: size_t) -> (c_int, ErlNifBinary);

    fn enif_inspect_binary(&self, env: NIF_ENV, bin_term: NIF_TERM) -> (c_int, ErlNifBinary);

    fn enif_make_sub_binary(
        &self,
        env: NIF_ENV,
        bin_term: NIF_TERM,
        pos: size_t,
        size: size_t,
    ) -> NIF_TERM;

    fn enif_make_binary(&self, env: NIF_ENV, binary: &ErlNifBinary) -> NIF_TERM;

    fn enif_release_binary(&self, binary: &ErlNifBinary);

    /// The status, the head and the tail.
    fn enif_get_list_cell(&self, env: NIF_ENV, list: NIF_TERM) -> (c_int, NIF_TERM, NIF_TERM);

    fn enif_get_list_length(&self, env: NIF_ENV, list: NIF_TERM) -> (c_int, c_uint);

    fn enif_make_list_from_array(&self, env: NIF_ENV, arr: &Vec<NIF_TERM>, cnt: c_uint) -> NIF_TERM;

    fn enif_make_list_cell(&self, env: NIF_ENV, head: NIF_TERM, tail: NIF_TERM) -> NIF_TERM;

    fn enif_make_reverse_list(&self, env: NIF_ENV, list: NIF_TERM) -> (c_int, NIF_TERM);

    fn enif_get_map_value(&self, env: NIF_ENV, map: NIF_TERM, key: NIF_TERM) -> (c_int, NIF_TERM);

    fn enif_get_map_size(&self, env: NIF_ENV, map: NIF_TERM) -> (c_int, size_t);

    fn enif_make_new_map(&self, env: NIF_ENV) -> NIF_TERM;

    fn enif_make_map_put(
        &self,
        env: NIF_ENV,
        map: NIF_TERM,
        key: NIF_TERM,
        value: NIF_TERM,
    ) -> (c_int, NIF_TERM);

    fn enif_make_map_remove(&self, env: NIF_ENV, map: NIF_TERM, key: NIF_TERM) -> (
        c_int,
        NIF_TERM,
    );

    fn enif_make_map_update(
        &self,
        env: NIF_ENV,
        map: NIF_TERM,
        key: NIF_TERM,
        new_value: NIF_TERM,
    ) -> (c_int, NIF_TERM);

    fn enif_map_iterator_create(
        &self,
        env: NIF_ENV,
        map: NIF_TERM,
        entry: ErlNifMapIteratorEntry,
    ) -> (c_int, ErlNifMapIterator);

    fn enif_map_iterator_destroy(&self, env: NIF_ENV, iter: ErlNifMapIterator);

    /// The status, the key and the value under the iterator.
    fn enif_map_iterator_get_pair(&self, env: NIF_ENV, iter: &ErlNifMapIterator) -> (
        c_int,
        NIF_TERM,
        NIF_TERM,
    );

    /// The status, and the iterator moved one entry on.
    fn enif_map_iterator_next(&self, env: NIF_ENV, iter: &ErlNifMapIterator) -> (
        c_int,
        ErlNifMapIterator,
    );

    fn enif_open_resource_type(
        &self,
        env: NIF_ENV,
        name: &str,
        dtor: Option<NifResourceDtor>,
        flags: NifResourceFlags,
    ) -> NIF_RESOURCE_TYPE;

    fn enif_get_resource(&self, env: NIF_ENV, term: NIF_TERM, typ: NIF_RESOURCE_TYPE) -> (
        c_int,
        NIF_RESOURCE_HANDLE,
    );

    fn enif_alloc_resource(&self, typ: NIF_RESOURCE_TYPE, size: size_t) -> NIF_RESOURCE_HANDLE;

    fn enif_make_resource(&self, env: NIF_ENV, obj: NIF_RESOURCE_HANDLE) -> NIF_TERM;

    fn enif_release_resource(&self, obj: NIF_RESOURCE_HANDLE);

    fn enif_keep_resource(&self, obj: NIF_RESOURCE_HANDLE);

    /// The status, and the elements of the tuple in order.
    fn enif_get_tuple(&self, env: NIF_ENV, term: NIF_TERM) -> (c_int, Vec<NIF_TERM>);

    fn enif_make_tuple_from_array(&self, env: NIF_ENV, arr: &Vec<NIF_TERM>, cnt: c_uint) -> NIF_TERM;

    fn enif_consume_timeslice(&self, env: NIF_ENV, percent: c_int) -> c_int;

    fn enif_get_int(&self, env: NIF_ENV, term: NIF_TERM) -> (c_int, c_int);

    fn enif_get_uint(&self, env: NIF_ENV, term: NIF_TERM) -> (c_int, c_uint);

    fn enif_get_int64(&self, env: NIF_ENV, term: NIF_TERM) -> (c_int, i64);

    fn enif_get_uint64(&self, env: NIF_ENV, term: NIF_TERM) -> (c_int, u64);

    fn enif_make_int(&self, env: NIF_ENV, i: c_int) -> NIF_TERM;

    fn enif_make_uint(&self, env: NIF_ENV, i: c_uint) -> NIF_TERM;

    fn enif_make_int64(&self, env: NIF_ENV, i: i64) -> NIF_TERM;

    fn enif_make_uint64(&self, env: NIF_ENV, i: u64) -> NIF_TERM;
}

} // verus!
