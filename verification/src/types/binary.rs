//! Binaries: buffers that the library owns, and the data of binary terms.

use vstd::prelude::*;
use crate::wrapper::binary::{binary_of_reply, ErlNifBinary};
use crate::wrapper::nif_interface::{c_int, NifInterface};
use crate::{NifDecoder, NifEncoder, NifEnv, NifError, NifResult, NifTerm};

verus! {

/// A buffer that the VM allocated and that belongs to no environment yet.
///
/// It has to end in one of two ways: [`OwnedNifBinary::release`] hands it to
/// a term, or [`OwnedNifBinary::free`] hands it back to the VM.
#[derive(Debug)]
pub struct OwnedNifBinary {
    pub inner: ErlNifBinary,
}

/// The data of a binary term. It can be read as long as the term lives.
#[derive(Debug)]
pub struct NifBinary<'a> {
    pub inner: ErlNifBinary,
    pub term: NifTerm<'a>,
}

impl View for OwnedNifBinary {
    type V = Seq<u8>;

    /// The bytes of the buffer.
    open spec fn view(&self) -> Seq<u8> {
        self.inner.data@
    }
}

impl<'a> View for NifBinary<'a> {
    type V = Seq<u8>;

    /// The bytes of the binary.
    open spec fn view(&self) -> Seq<u8> {
        self.inner.data@
    }
}

/// The buffer that [`OwnedNifBinary::allocate`] returns for what the VM gave.
pub open spec fn owned_of(binary: Option<ErlNifBinary>) -> Option<OwnedNifBinary> {
    match binary {
        Some(inner) => Some(OwnedNifBinary { inner: inner }),
        None => None,
    }
}

/// What [`NifBinary::from_term`] returns for what the VM gave: the data
/// beside the term, or `BadArg` where the VM gave none.
pub open spec fn binary_or_badarg<'a, V: NifInterface>(
    term: NifTerm<'a>,
    binary: Option<ErlNifBinary>,
) -> NifResult<NifBinary<'a>, V> {
    match binary {
        Some(inner) => Ok(NifBinary { inner: inner, term: term }),
        None => Err(NifError::BadArg),
    }
}

/// Whether the part of `length` bytes from `offset` on lies inside a binary
/// of `size` bytes.
pub open spec fn in_bounds(size: nat, offset: usize, length: usize) -> bool {
    offset + length <= size
}

/// The bytes of `data` from `offset` on, `length` of them.
pub fn copy_range(data: &[u8], offset: usize, length: usize) -> (part: Vec<u8>)
    requires
        offset + length <= data@.len(),
    ensures
        part@ == data@.subrange(offset as int, offset + length),
{
    let size = data.len();
    let mut part: Vec<u8> = Vec::new();
    let mut i: usize = 0;
    while i < length
        invariant
            i <= length,
            size == data@.len(),
            offset + length <= data@.len(),
            part@ == data@.subrange(offset as int, offset + i),
        decreases length - i,
    {
        part.push(data[offset + i]);
        i += 1;
    }
    part
}

impl OwnedNifBinary {
    /// A new buffer of `size` bytes, or nothing where the VM gives none.
    pub fn allocate<V: NifInterface>(vm: &V, size: usize) -> (r: Option<OwnedNifBinary>)
        ensures
            exists|reply: (c_int, ErlNifBinary)|
                #[trigger] call_ensures(V::enif_alloc_binary, (vm, size), reply) && r == owned_of(
                    binary_of_reply(reply),
                ),
    {
        match crate::wrapper::binary::alloc_binary(vm, size) {
            Some(binary) => Some(OwnedNifBinary { inner: binary }),
            None => None,
        }
    }

    pub fn as_slice(&self) -> (bytes: &[u8])
        ensures
            bytes@ == self@,
    {
        self.inner.data.as_slice()
    }

    /// The bytes of the buffer, to be written: what is written through the
    /// result is what the buffer holds afterwards.
    pub fn as_mut_slice(&mut self) -> (bytes: &mut [u8])
        ensures
            bytes@ == old(self)@,
            final(bytes)@ == final(self)@,
            final(self).inner.handle == old(self).inner.handle,
    {
        self.inner.data.as_mut_slice()
    }

    /// Hands the buffer over to a new binary term in `env`. The data stays
    /// readable through the result.
    pub fn release<'a, V: NifInterface>(self, vm: &V, env: NifEnv<'a>) -> (binary: NifBinary<'a>)
        ensures
            binary.inner == self.inner,
            binary.term.env == env,
            call_ensures(
                V::enif_make_binary,
                (vm, env.handle(), &self.inner),
                binary.term.term.0,
            ),
    {
        NifBinary::from_owned(vm, self, env)
    }

    /// Hands the buffer back to the VM, which frees it.
    pub fn free<V: NifInterface>(self, vm: &V) {
        crate::wrapper::binary::release_binary(vm, &self.inner);
    }
}

impl<'a> NifBinary<'a> {
    /// Makes `bin` into a binary term of `env`: the term is the VM's answer
    /// to that request, and the data is that of `bin`.
    pub fn from_owned<V: NifInterface>(vm: &V, bin: OwnedNifBinary, env: NifEnv<'a>) -> (binary:
        Self)
        ensures
            binary.inner == bin.inner,
            binary.term.env == env,
            call_ensures(
                V::enif_make_binary,
                (vm, env.handle(), &bin.inner),
                binary.term.term.0,
            ),
    {
        let raw = crate::wrapper::binary::make_binary(vm, env.raw(), &bin.inner);
        let term = NifTerm::new(env, raw);
        NifBinary { inner: bin.inner, term: term }
    }

    /// The data of the binary `term`, or `BadArg` where the VM gives none,
    /// which is when `term` is no binary.
    pub fn from_term<V: NifInterface>(vm: &V, term: NifTerm<'a>) -> (r: Result<Self, NifError<V>>)
        ensures
            exists|reply: (c_int, ErlNifBinary)|
                #[trigger] call_ensures(
                    V::enif_inspect_binary,
                    (vm, term.env.handle(), term.term.0),
                    reply,
                ) && r == binary_or_badarg::<V>(term, binary_of_reply(reply)),
    {
        match crate::wrapper::binary::inspect_binary(vm, term.get_env().raw(), term.raw()) {
            None => Err(NifError::BadArg),
            Some(binary) => Ok(NifBinary { inner: binary, term: term }),
        }
    }

    pub fn as_slice(&self) -> (bytes: &[u8])
        ensures
            bytes@ == self@,
    {
        self.inner.data.as_slice()
    }

    /// The term of this binary, in `env`: the term itself where `env` is its
    /// environment, a copy that the VM makes otherwise.
    pub fn get_term<'b, V: NifInterface>(&self, vm: &V, env: NifEnv<'b>) -> (term: NifTerm<'b>)
        ensures
            self.term.moved_to(vm, env, term),
    {
        self.term.in_env(vm, env)
    }

    /// Whether `r` is what [`NifBinary::make_subbinary`] may return for the
    /// part of `length` bytes from `offset` on: `BadArg` where the part does
    /// not lie inside the binary, and otherwise a binary of the same
    /// environment that holds exactly the bytes of the part, with the term
    /// that the VM made for the part.
    pub open spec fn parts<V: NifInterface>(
        &self,
        vm: &V,
        offset: usize,
        length: usize,
        r: NifResult<NifBinary<'a>, V>,
    ) -> bool {
        if in_bounds(self@.len(), offset, length) {
            &&& r matches Ok(sub)
            &&& sub@ == self@.subrange(offset as int, offset + length)
            &&& sub.inner.handle == self.inner.handle
            &&& sub.term.env == self.term.env
            &&& call_ensures(
                V::enif_make_sub_binary,
                (vm, self.term.env.handle(), self.term.term.0, offset, length),
                sub.term.term.0,
            )
        } else {
            r == Err::<NifBinary<'a>, NifError<V>>(NifError::BadArg)
        }
    }

    /// The part of this binary that starts at `offset` and is `length` bytes
    /// long, as a binary of its own in the same environment.
    ///
    /// Returns `BadArg`, and asks the VM for nothing, where the part does
    /// not lie inside the binary; that `offset + length` does not fit the
    /// size type is one such case. Otherwise the result holds exactly the
    /// bytes of that part, and its term is the VM's answer to the request
    /// for that part.
    pub fn make_subbinary<V: NifInterface>(&self, vm: &V, offset: usize, length: usize) -> (r:
        NifResult<NifBinary<'a>, V>)
        ensures
            self.parts(vm, offset, length, r),
    {
        let size = self.inner.data.len();
        let min_len = length.checked_add(offset);
        match min_len {
            None => {
                return Err(NifError::BadArg);
            },
            Some(end) => {
                if end > size {
                    return Err(NifError::BadArg);
                }
            },
        }
        let raw_term = crate::wrapper::binary::make_sub_binary(
            vm,
            self.term.get_env().raw(),
            self.term.raw(),
            offset,
            length,
        );
        let data = copy_range(self.inner.data.as_slice(), offset, length);
        Ok(
            NifBinary {
                inner: ErlNifBinary { data: data, handle: self.inner.handle },
                term: NifTerm::new(self.term.get_env(), raw_term),
            },
        )
    }
}

impl<'a, V: NifInterface> NifDecoder<'a, V> for NifBinary<'a> {
    open spec fn decodes_to(vm: &V, term: NifTerm, r: NifResult<Self, V>) -> bool {
        exists|reply: (c_int, ErlNifBinary)|
            #[trigger] call_ensures(
                V::enif_inspect_binary,
                (vm, term.env.handle(), term.term.0),
                reply,
            ) && r == binary_or_badarg::<V>(term, binary_of_reply(reply))
    }

    fn decode(vm: &V, term: NifTerm<'a>) -> (r: Result<Self, NifError<V>>) {
        NifBinary::from_term(vm, term)
    }
}

impl<'a, V: NifInterface> NifEncoder<V> for NifBinary<'a> {
    open spec fn encodes_to(&self, vm: &V, env: NifEnv, term: NifTerm) -> bool {
        self.term.moved_to(vm, env, term)
    }

    fn encode<'b>(&self, vm: &V, env: NifEnv<'b>) -> (term: NifTerm<'b>) {
        self.get_term(vm, env)
    }
}

/// ## Binary terms
impl<'a> NifTerm<'a> {
    /// The data of this term, if it is a binary; see [`NifBinary::from_term`].
    pub fn into_binary<V: NifInterface>(self, vm: &V) -> (r: NifResult<NifBinary<'a>, V>)
        ensures
            exists|reply: (c_int, ErlNifBinary)|
                #[trigger] call_ensures(
                    V::enif_inspect_binary,
                    (vm, self.env.handle(), self.term.0),
                    reply,
                ) && r == binary_or_badarg::<V>(self, binary_of_reply(reply)),
    {
        NifBinary::from_term(vm, self)
    }
}

} // verus!
