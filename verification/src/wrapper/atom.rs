//! Atoms: making one from its name and reading the name of one.

use vstd::prelude::*;
use crate::wrapper::nif_interface::{c_int, c_uint, NifInterface};
use crate::wrapper::{RawNifEnv, RawNifTerm};
use crate::{NifError, NifResult};

verus! {

/// The atom with the name `name`, as the VM makes it.
pub fn make_atom<'a, V: NifInterface>(vm: &V, env: RawNifEnv<'a>, name: &str) -> (atom: RawNifTerm<
    'a,
>)
    ensures
        call_ensures(V::enif_make_atom_len, (vm, env.0, name), atom.0),
{
    RawNifTerm::new(vm.enif_make_atom_len(env.0, name))
}

/// The text that the Latin-1 bytes `bytes` stand for: each byte is the code
/// point of one character.
pub open spec fn latin1_text(bytes: Seq<u8>) -> Seq<char> {
    bytes.map_values(|b: u8| b as char)
}

/// Appends `c` to `s`.
///
/// This is `String::push` of the standard library, which appends the given
/// character to the end of the string; the contract claims that and nothing
/// else.
#[verifier::external_body]
fn push_char(s: &mut String, c: char)
    ensures
        final(s)@ == old(s)@.push(c),
{
    s.push(c)
}

/// Transcodes `bytes` from Latin-1 to a string.
pub fn latin1_to_string(bytes: &[u8]) -> (text: String)
    ensures
        text@ == latin1_text(bytes@),
{
    let mut out = String::new();
    let mut i: usize = 0;
    while i < bytes.len()
        invariant
            i <= bytes.len(),
            out@ == latin1_text(bytes@.take(i as int)),
        decreases bytes.len() - i,
    {
        push_char(&mut out, bytes[i] as char);
        i += 1;
    }
    out
}

/// Whether the VM's answer to the request for the bytes of an atom of `len`
/// bytes is whole: it reports `len + 1` bytes written, the terminating zero
/// being one of them, and holds at least the `len` bytes of the name.
pub open spec fn is_whole(len: c_uint, reply: (c_int, Vec<u8>)) -> bool {
    reply.0 as c_uint == len + 1 && reply.1@.len() >= len
}

/// The name that the VM's answer stands for: the first `len` bytes, read as
/// Latin-1, where the answer is whole, and `BadArg` where it is not.
pub open spec fn name_of_reply<V: NifInterface>(len: c_uint, reply: (c_int, Vec<u8>)) -> Result<
    Seq<char>,
    NifError<V>,
> {
    if is_whole(len, reply) {
        Ok(latin1_text(reply.1@.take(len as int)))
    } else {
        Err(NifError::BadArg)
    }
}

/// The view of what [`get_atom`] returns.
pub open spec fn name_view<V: NifInterface>(r: NifResult<String, V>) -> Result<
    Seq<char>,
    NifError<V>,
> {
    match r {
        Ok(name) => Ok(name@),
        Err(e) => Err(e),
    }
}

/// Reads the VM's answer to the request for the bytes of an atom of `len`
/// bytes as [`name_of_reply`] says.
pub fn checked_name<V: NifInterface>(len: c_uint, nbytes: c_int, bytes: Vec<u8>) -> (r: NifResult<
    String,
    V,
>)
    ensures
        name_view(r) == name_of_reply::<V>(len, (nbytes, bytes)),
{
    let written: c_uint = #[verifier::truncate]
    (nbytes as c_uint);
    match len.checked_add(1) {
        Some(expected) => {
            if written != expected {
                return Err(NifError::BadArg);
            }
        },
        None => {
            return Err(NifError::BadArg);
        },
    }
    if bytes.len() < len as usize {
        return Err(NifError::BadArg);
    }
    let name = vstd::slice::slice_subrange(bytes.as_slice(), 0, len as usize);
    Ok(latin1_to_string(name))
}

/// What [`get_atom`] returns once the VM has answered the request for the
/// length of the atom with `length`: `BadArg` where the status is 0 or the
/// length leaves no room for the terminating zero, and otherwise what the
/// VM's answer to the request for the bytes stands for.
pub open spec fn atom_name<V: NifInterface>(
    vm: &V,
    env: RawNifEnv,
    term: RawNifTerm,
    length: (c_int, c_uint),
    r: NifResult<String, V>,
) -> bool {
    if length.0 == 0 || length.1 == c_uint::MAX {
        r == Err::<String, NifError<V>>(NifError::BadArg)
    } else {
        exists|reply: (c_int, Vec<u8>)|
            #[trigger] call_ensures(
                V::enif_get_atom_latin1,
                (vm, env.0, term.0, (length.1 + 1) as c_uint),
                reply,
            ) && name_view(r) == name_of_reply::<V>(length.1, reply)
    }
}

/// Get the contents of this atom as a string.
///
/// If you only need to test for equality, comparing the terms directly is
/// much faster.
///
/// # Errors
///
/// `NifError::BadArg` if the VM gives no length, which is when `term` is not
/// an atom, or if its answers do not fit together.
pub fn get_atom<'a, V: NifInterface>(vm: &V, env: RawNifEnv<'a>, term: RawNifTerm<'a>) -> (r:
    NifResult<String, V>)
    ensures
        exists|length: (c_int, c_uint)|
            #[trigger] call_ensures(V::enif_get_atom_length_latin1, (vm, env.0, term.0), length)
                && atom_name(vm, env, term, length, r),
{
    // Determine the length of the atom, in bytes.
    let (success, len) = vm.enif_get_atom_length_latin1(env.0, term.0);
    if success == 0 {
        return Err(NifError::BadArg);
    }
    // The VM writes a zero behind the name, so ask for one byte more.
    if len == c_uint::MAX {
        return Err(NifError::BadArg);
    }
    let (nbytes, bytes) = vm.enif_get_atom_latin1(env.0, term.0, len + 1);
    checked_name(len, nbytes, bytes)
}

} // verus!
