//! Numbers and booleans as terms.
//!
//! Each integer type is read and made through the VM's operation for the
//! narrowest of its four integer kinds that holds it. A narrower type widens
//! without loss on the way in, and is checked against its range on the way
//! out: a term whose number does not fit decodes to `BadArg`.
//!
//! A value that was encoded decodes to itself, as long as the VM reads back
//! from a term the number that it was asked to make it from. The lemmas at
//! the end of each type say so.

use vstd::prelude::*;
use crate::wrapper::nif_interface::{c_int, c_uint, NifInterface, NIF_ENV, NIF_TERM};
use crate::wrapper::RawNifTerm;
use crate::{NifDecoder, NifEncoder, NifEnv, NifError, NifResult, NifTerm};

verus! {

/// Whether the VM reads back its numbers of the kind `c_int`: a term that
/// it made from a number reads, in the same environment, as that number.
pub open spec fn reads_back_int<V: NifInterface>(vm: &V) -> bool {
    forall|env: NIF_ENV, number: c_int, term: NIF_TERM, reply: (c_int, c_int)|
        #![trigger
            call_ensures(V::enif_make_int, (vm, env, number), term),
            call_ensures(V::enif_get_int, (vm, env, term), reply)
        ]
        call_ensures(V::enif_make_int, (vm, env, number), term) && call_ensures(
            V::enif_get_int,
            (vm, env, term),
            reply,
        ) ==> reply == (1 as c_int, number)
}

/// Whether the VM reads back its numbers of the kind `c_uint`: a term that
/// it made from a number reads, in the same environment, as that number.
pub open spec fn reads_back_uint<V: NifInterface>(vm: &V) -> bool {
    forall|env: NIF_ENV, number: c_uint, term: NIF_TERM, reply: (c_int, c_uint)|
        #![trigger
            call_ensures(V::enif_make_uint, (vm, env, number), term),
            call_ensures(V::enif_get_uint, (vm, env, term), reply)
        ]
        call_ensures(V::enif_make_uint, (vm, env, number), term) && call_ensures(
            V::enif_get_uint,
            (vm, env, term),
            reply,
        ) ==> reply == (1 as c_int, number)
}

/// Whether the VM reads back its numbers of the kind `i64`: a term that
/// it made from a number reads, in the same environment, as that number.
pub open spec fn reads_back_int64<V: NifInterface>(vm: &V) -> bool {
    forall|env: NIF_ENV, number: i64, term: NIF_TERM, reply: (c_int, i64)|
        #![trigger
            call_ensures(V::enif_make_int64, (vm, env, number), term),
            call_ensures(V::enif_get_int64, (vm, env, term), reply)
        ]
        call_ensures(V::enif_make_int64, (vm, env, number), term) && call_ensures(
            V::enif_get_int64,
            (vm, env, term),
            reply,
        ) ==> reply == (1 as c_int, number)
}

/// Whether the VM reads back its numbers of the kind `u64`: a term that
/// it made from a number reads, in the same environment, as that number.
pub open spec fn reads_back_uint64<V: NifInterface>(vm: &V) -> bool {
    forall|env: NIF_ENV, number: u64, term: NIF_TERM, reply: (c_int, u64)|
        #![trigger
            call_ensures(V::enif_make_uint64, (vm, env, number), term),
            call_ensures(V::enif_get_uint64, (vm, env, term), reply)
        ]
        call_ensures(V::enif_make_uint64, (vm, env, number), term) && call_ensures(
            V::enif_get_uint64,
            (vm, env, term),
            reply,
        ) ==> reply == (1 as c_int, number)
}

/// The number that the VM is asked to make for `value`.
pub open spec fn i32_request(value: i32) -> c_int {
    value
}

/// The `i32` that a status code and a number stand for: the number where the
/// status is 1, `BadArg` otherwise.
pub open spec fn i32_of_reply<V: NifInterface>(reply: (c_int, c_int)) -> NifResult<i32, V> {
    if reply.0 == 1 {
        Ok(reply.1)
    } else {
        Err(NifError::BadArg)
    }
}

/// Reads a status code and a number as [`i32_of_reply`] says.
pub fn checked_i32<V: NifInterface>(success: c_int, number: c_int) -> (r: NifResult<i32, V>)
    ensures
        r == i32_of_reply::<V>((success, number)),
{
    if success != 1 {
        return Err(NifError::BadArg);
    }
    Ok(number)
}

impl<V: NifInterface> NifEncoder<V> for i32 {
    open spec fn encodes_to(&self, vm: &V, env: NifEnv, term: NifTerm) -> bool {
        term.env == env && call_ensures(
            V::enif_make_int,
            (vm, env.handle(), i32_request(*self)),
            term.term.0,
        )
    }

    fn encode<'b>(&self, vm: &V, env: NifEnv<'b>) -> (term: NifTerm<'b>) {
        NifTerm::new(env, RawNifTerm::new(vm.enif_make_int(env.raw().as_c_arg(), *self)))
    }
}

impl<'a, V: NifInterface> NifDecoder<'a, V> for i32 {
    open spec fn decodes_to(vm: &V, term: NifTerm, r: NifResult<Self, V>) -> bool {
        exists|reply: (c_int, c_int)|
            #[trigger] call_ensures(V::enif_get_int, (vm, term.env.handle(), term.term.0), reply)
                && r == i32_of_reply::<V>(reply)
    }

    fn decode(vm: &V, term: NifTerm<'a>) -> (r: NifResult<Self, V>) {
        let (success, number) = vm.enif_get_int(term.get_env().raw().as_c_arg(), term.as_c_arg());
        checked_i32(success, number)
    }
}

/// Round trip: a term that `value` encodes to, in whatever environment,
/// decodes to `value`, where the VM reads back its numbers of the kind
/// `c_int`.
pub proof fn lemma_i32_round_trip<V: NifInterface>(
    vm: &V,
    env: NifEnv,
    value: i32,
    term: NifTerm,
    r: NifResult<i32, V>,
)
    requires
        reads_back_int(vm),
        value.encodes_to(vm, env, term),
        <i32 as NifDecoder<V>>::decodes_to(vm, term, r),
    ensures
        r == Ok::<i32, NifError<V>>(value),
{
}

/// The number that the VM is asked to make for `value`.
pub open spec fn u32_request(value: u32) -> c_uint {
    value
}

/// The `u32` that a status code and a number stand for: the number where the
/// status is 1, `BadArg` otherwise.
pub open spec fn u32_of_reply<V: NifInterface>(reply: (c_int, c_uint)) -> NifResult<u32, V> {
    if reply.0 == 1 {
        Ok(reply.1)
    } else {
        Err(NifError::BadArg)
    }
}

/// Reads a status code and a number as [`u32_of_reply`] says.
pub fn checked_u32<V: NifInterface>(success: c_int, number: c_uint) -> (r: NifResult<u32, V>)
    ensures
        r == u32_of_reply::<V>((success, number)),
{
    if success != 1 {
        return Err(NifError::BadArg);
    }
    Ok(number)
}

impl<V: NifInterface> NifEncoder<V> for u32 {
    open spec fn encodes_to(&self, vm: &V, env: NifEnv, term: NifTerm) -> bool {
        term.env == env && call_ensures(
            V::enif_make_uint,
            (vm, env.handle(), u32_request(*self)),
            term.term.0,
        )
    }

    fn encode<'b>(&self, vm: &V, env: NifEnv<'b>) -> (term: NifTerm<'b>) {
        NifTerm::new(env, RawNifTerm::new(vm.enif_make_uint(env.raw().as_c_arg(), *self)))
    }
}

impl<'a, V: NifInterface> NifDecoder<'a, V> for u32 {
    open spec fn decodes_to(vm: &V, term: NifTerm, r: NifResult<Self, V>) -> bool {
        exists|reply: (c_int, c_uint)|
            #[trigger] call_ensures(V::enif_get_uint, (vm, term.env.handle(), term.term.0), reply)
                && r == u32_of_reply::<V>(reply)
    }

    fn decode(vm: &V, term: NifTerm<'a>) -> (r: NifResult<Self, V>) {
        let (success, number) = vm.enif_get_uint(term.get_env().raw().as_c_arg(), term.as_c_arg());
        checked_u32(success, number)
    }
}

/// Round trip: a term that `value` encodes to, in whatever environment,
/// decodes to `value`, where the VM reads back its numbers of the kind
/// `c_uint`.
pub proof fn lemma_u32_round_trip<V: NifInterface>(
    vm: &V,
    env: NifEnv,
    value: u32,
    term: NifTerm,
    r: NifResult<u32, V>,
)
    requires
        reads_back_uint(vm),
        value.encodes_to(vm, env, term),
        <u32 as NifDecoder<V>>::decodes_to(vm, term, r),
    ensures
        r == Ok::<u32, NifError<V>>(value),
{
}

/// The number that the VM is asked to make for `value`.
pub open spec fn i64_request(value: i64) -> i64 {
    value
}

/// The `i64` that a status code and a number stand for: the number where the
/// status is 1, `BadArg` otherwise.
pub open spec fn i64_of_reply<V: NifInterface>(reply: (c_int, i64)) -> NifResult<i64, V> {
    if reply.0 == 1 {
        Ok(reply.1)
    } else {
        Err(NifError::BadArg)
    }
}

/// Reads a status code and a number as [`i64_of_reply`] says.
pub fn checked_i64<V: NifInterface>(success: c_int, number: i64) -> (r: NifResult<i64, V>)
    ensures
        r == i64_of_reply::<V>((success, number)),
{
    if success != 1 {
        return Err(NifError::BadArg);
    }
    Ok(number)
}

impl<V: NifInterface> NifEncoder<V> for i64 {
    open spec fn encodes_to(&self, vm: &V, env: NifEnv, term: NifTerm) -> bool {
        term.env == env && call_ensures(
            V::enif_make_int64,
            (vm, env.handle(), i64_request(*self)),
            term.term.0,
        )
    }

    fn encode<'b>(&self, vm: &V, env: NifEnv<'b>) -> (term: NifTerm<'b>) {
        NifTerm::new(env, RawNifTerm::new(vm.enif_make_int64(env.raw().as_c_arg(), *self)))
    }
}

impl<'a, V: NifInterface> NifDecoder<'a, V> for i64 {
    open spec fn decodes_to(vm: &V, term: NifTerm, r: NifResult<Self, V>) -> bool {
        exists|reply: (c_int, i64)|
            #[trigger] call_ensures(V::enif_get_int64, (vm, term.env.handle(), term.term.0), reply)
                && r == i64_of_reply::<V>(reply)
    }

    fn decode(vm: &V, term: NifTerm<'a>) -> (r: NifResult<Self, V>) {
        let (success, number) = vm.enif_get_int64(term.get_env().raw().as_c_arg(), term.as_c_arg());
        checked_i64(success, number)
    }
}

/// Round trip: a term that `value` encodes to, in whatever environment,
/// decodes to `value`, where the VM reads back its numbers of the kind
/// `i64`.
pub proof fn lemma_i64_round_trip<V: NifInterface>(
    vm: &V,
    env: NifEnv,
    value: i64,
    term: NifTerm,
    r: NifResult<i64, V>,
)
    requires
        reads_back_int64(vm),
        value.encodes_to(vm, env, term),
        <i64 as NifDecoder<V>>::decodes_to(vm, term, r),
    ensures
        r == Ok::<i64, NifError<V>>(value),
{
}

/// The number that the VM is asked to make for `value`.
pub open spec fn u64_request(value: u64) -> u64 {
    value
}

/// The `u64` that a status code and a number stand for: the number where the
/// status is 1, `BadArg` otherwise.
pub open spec fn u64_of_reply<V: NifInterface>(reply: (c_int, u64)) -> NifResult<u64, V> {
    if reply.0 == 1 {
        Ok(reply.1)
    } else {
        Err(NifError::BadArg)
    }
}

/// Reads a status code and a number as [`u64_of_reply`] says.
pub fn checked_u64<V: NifInterface>(success: c_int, number: u64) -> (r: NifResult<u64, V>)
    ensures
        r == u64_of_reply::<V>((success, number)),
{
    if success != 1 {
        return Err(NifError::BadArg);
    }
    Ok(number)
}

impl<V: NifInterface> NifEncoder<V> for u64 {
    open spec fn encodes_to(&self, vm: &V, env: NifEnv, term: NifTerm) -> bool {
        term.env == env && call_ensures(
            V::enif_make_uint64,
            (vm, env.handle(), u64_request(*self)),
            term.term.0,
        )
    }

    fn encode<'b>(&self, vm: &V, env: NifEnv<'b>) -> (term: NifTerm<'b>) {
        NifTerm::new(env, RawNifTerm::new(vm.enif_make_uint64(env.raw().as_c_arg(), *self)))
    }
}

impl<'a, V: NifInterface> NifDecoder<'a, V> for u64 {
    open spec fn decodes_to(vm: &V, term: NifTerm, r: NifResult<Self, V>) -> bool {
        exists|reply: (c_int, u64)|
            #[trigger] call_ensures(V::enif_get_uint64, (vm, term.env.handle(), term.term.0), reply)
                && r == u64_of_reply::<V>(reply)
    }

    fn decode(vm: &V, term: NifTerm<'a>) -> (r: NifResult<Self, V>) {
        let env = term.get_env().raw().as_c_arg();
        let (success, number) = vm.enif_get_uint64(env, term.as_c_arg());
        checked_u64(success, number)
    }
}

/// Round trip: a term that `value` encodes to, in whatever environment,
/// decodes to `value`, where the VM reads back its numbers of the kind
/// `u64`.
pub proof fn lemma_u64_round_trip<V: NifInterface>(
    vm: &V,
    env: NifEnv,
    value: u64,
    term: NifTerm,
    r: NifResult<u64, V>,
)
    requires
        reads_back_uint64(vm),
        value.encodes_to(vm, env, term),
        <u64 as NifDecoder<V>>::decodes_to(vm, term, r),
    ensures
        r == Ok::<u64, NifError<V>>(value),
{
}

/// The number that the VM is asked to make for `value`.
pub open spec fn i8_request(value: i8) -> c_int {
    value as c_int
}

/// The `i8` that a status code and a number stand for: the number where the
/// status is 1 and the number is one of `i8`, `BadArg` otherwise.
pub open spec fn i8_of_reply<V: NifInterface>(reply: (c_int, c_int)) -> NifResult<i8, V> {
    if reply.0 == 1 && i8::MIN <= reply.1 <= i8::MAX {
        Ok(reply.1 as i8)
    } else {
        Err(NifError::BadArg)
    }
}

/// Reads a status code and a number as [`i8_of_reply`] says.
pub fn checked_i8<V: NifInterface>(success: c_int, number: c_int) -> (r: NifResult<i8, V>)
    ensures
        r == i8_of_reply::<V>((success, number)),
{
    if success != 1 {
        return Err(NifError::BadArg);
    }
    if number < i8::MIN as c_int || number > i8::MAX as c_int {
        return Err(NifError::BadArg);
    }
    Ok(number as i8)
}

impl<V: NifInterface> NifEncoder<V> for i8 {
    open spec fn encodes_to(&self, vm: &V, env: NifEnv, term: NifTerm) -> bool {
        term.env == env && call_ensures(
            V::enif_make_int,
            (vm, env.handle(), i8_request(*self)),
            term.term.0,
        )
    }

    fn encode<'b>(&self, vm: &V, env: NifEnv<'b>) -> (term: NifTerm<'b>) {
        NifTerm::new(env, RawNifTerm::new(vm.enif_make_int(env.raw().as_c_arg(), *self as c_int)))
    }
}

impl<'a, V: NifInterface> NifDecoder<'a, V> for i8 {
    open spec fn decodes_to(vm: &V, term: NifTerm, r: NifResult<Self, V>) -> bool {
        exists|reply: (c_int, c_int)|
            #[trigger] call_ensures(V::enif_get_int, (vm, term.env.handle(), term.term.0), reply)
                && r == i8_of_reply::<V>(reply)
    }

    fn decode(vm: &V, term: NifTerm<'a>) -> (r: NifResult<Self, V>) {
        let (success, number) = vm.enif_get_int(term.get_env().raw().as_c_arg(), term.as_c_arg());
        checked_i8(success, number)
    }
}

/// Round trip: a term that `value` encodes to, in whatever environment,
/// decodes to `value`, where the VM reads back its numbers of the kind
/// `c_int`.
pub proof fn lemma_i8_round_trip<V: NifInterface>(
    vm: &V,
    env: NifEnv,
    value: i8,
    term: NifTerm,
    r: NifResult<i8, V>,
)
    requires
        reads_back_int(vm),
        value.encodes_to(vm, env, term),
        <i8 as NifDecoder<V>>::decodes_to(vm, term, r),
    ensures
        r == Ok::<i8, NifError<V>>(value),
{
}

/// The number that the VM is asked to make for `value`.
pub open spec fn i16_request(value: i16) -> c_int {
    value as c_int
}

/// The `i16` that a status code and a number stand for: the number where the
/// status is 1 and the number is one of `i16`, `BadArg` otherwise.
pub open spec fn i16_of_reply<V: NifInterface>(reply: (c_int, c_int)) -> NifResult<i16, V> {
    if reply.0 == 1 && i16::MIN <= reply.1 <= i16::MAX {
        Ok(reply.1 as i16)
    } else {
        Err(NifError::BadArg)
    }
}

/// Reads a status code and a number as [`i16_of_reply`] says.
pub fn checked_i16<V: NifInterface>(success: c_int, number: c_int) -> (r: NifResult<i16, V>)
    ensures
        r == i16_of_reply::<V>((success, number)),
{
    if success != 1 {
        return Err(NifError::BadArg);
    }
    if number < i16::MIN as c_int || number > i16::MAX as c_int {
        return Err(NifError::BadArg);
    }
    Ok(number as i16)
}

impl<V: NifInterface> NifEncoder<V> for i16 {
    open spec fn encodes_to(&self, vm: &V, env: NifEnv, term: NifTerm) -> bool {
        term.env == env && call_ensures(
            V::enif_make_int,
            (vm, env.handle(), i16_request(*self)),
            term.term.0,
        )
    }

    fn encode<'b>(&self, vm: &V, env: NifEnv<'b>) -> (term: NifTerm<'b>) {
        NifTerm::new(env, RawNifTerm::new(vm.enif_make_int(env.raw().as_c_arg(), *self as c_int)))
    }
}

impl<'a, V: NifInterface> NifDecoder<'a, V> for i16 {
    open spec fn decodes_to(vm: &V, term: NifTerm, r: NifResult<Self, V>) -> bool {
        exists|reply: (c_int, c_int)|
            #[trigger] call_ensures(V::enif_get_int, (vm, term.env.handle(), term.term.0), reply)
                && r == i16_of_reply::<V>(reply)
    }

    fn decode(vm: &V, term: NifTerm<'a>) -> (r: NifResult<Self, V>) {
        let (success, number) = vm.enif_get_int(term.get_env().raw().as_c_arg(), term.as_c_arg());
        checked_i16(success, number)
    }
}

/// Round trip: a term that `value` encodes to, in whatever environment,
/// decodes to `value`, where the VM reads back its numbers of the kind
/// `c_int`.
pub proof fn lemma_i16_round_trip<V: NifInterface>(
    vm: &V,
    env: NifEnv,
    value: i16,
    term: NifTerm,
    r: NifResult<i16, V>,
)
    requires
        reads_back_int(vm),
        value.encodes_to(vm, env, term),
        <i16 as NifDecoder<V>>::decodes_to(vm, term, r),
    ensures
        r == Ok::<i16, NifError<V>>(value),
{
}

/// The number that the VM is asked to make for `value`.
pub open spec fn u8_request(value: u8) -> c_uint {
    value as c_uint
}

/// The `u8` that a status code and a number stand for: the number where the
/// status is 1 and the number is one of `u8`, `BadArg` otherwise.
pub open spec fn u8_of_reply<V: NifInterface>(reply: (c_int, c_uint)) -> NifResult<u8, V> {
    if reply.0 == 1 && u8::MIN <= reply.1 <= u8::MAX {
        Ok(reply.1 as u8)
    } else {
        Err(NifError::BadArg)
    }
}

/// Reads a status code and a number as [`u8_of_reply`] says.
pub fn checked_u8<V: NifInterface>(success: c_int, number: c_uint) -> (r: NifResult<u8, V>)
    ensures
        r == u8_of_reply::<V>((success, number)),
{
    if success != 1 {
        return Err(NifError::BadArg);
    }
    if number < u8::MIN as c_uint || number > u8::MAX as c_uint {
        return Err(NifError::BadArg);
    }
    Ok(number as u8)
}

impl<V: NifInterface> NifEncoder<V> for u8 {
    open spec fn encodes_to(&self, vm: &V, env: NifEnv, term: NifTerm) -> bool {
        term.env == env && call_ensures(
            V::enif_make_uint,
            (vm, env.handle(), u8_request(*self)),
            term.term.0,
        )
    }

    fn encode<'b>(&self, vm: &V, env: NifEnv<'b>) -> (term: NifTerm<'b>) {
        NifTerm::new(env, RawNifTerm::new(vm.enif_make_uint(env.raw().as_c_arg(), *self as c_uint)))
    }
}

impl<'a, V: NifInterface> NifDecoder<'a, V> for u8 {
    open spec fn decodes_to(vm: &V, term: NifTerm, r: NifResult<Self, V>) -> bool {
        exists|reply: (c_int, c_uint)|
            #[trigger] call_ensures(V::enif_get_uint, (vm, term.env.handle(), term.term.0), reply)
                && r == u8_of_reply::<V>(reply)
    }

    fn decode(vm: &V, term: NifTerm<'a>) -> (r: NifResult<Self, V>) {
        let (success, number) = vm.enif_get_uint(term.get_env().raw().as_c_arg(), term.as_c_arg());
        checked_u8(success, number)
    }
}

/// Round trip: a term that `value` encodes to, in whatever environment,
/// decodes to `value`, where the VM reads back its numbers of the kind
/// `c_uint`.
pub proof fn lemma_u8_round_trip<V: NifInterface>(
    vm: &V,
    env: NifEnv,
    value: u8,
    term: NifTerm,
    r: NifResult<u8, V>,
)
    requires
        reads_back_uint(vm),
        value.encodes_to(vm, env, term),
        <u8 as NifDecoder<V>>::decodes_to(vm, term, r),
    ensures
        r == Ok::<u8, NifError<V>>(value),
{
}

/// The number that the VM is asked to make for `value`.
pub open spec fn u16_request(value: u16) -> c_uint {
    value as c_uint
}

/// The `u16` that a status code and a number stand for: the number where the
/// status is 1 and the number is one of `u16`, `BadArg` otherwise.
pub open spec fn u16_of_reply<V: NifInterface>(reply: (c_int, c_uint)) -> NifResult<u16, V> {
    if reply.0 == 1 && u16::MIN <= reply.1 <= u16::MAX {
        Ok(reply.1 as u16)
    } else {
        Err(NifError::BadArg)
    }
}

/// Reads a status code and a number as [`u16_of_reply`] says.
pub fn checked_u16<V: NifInterface>(success: c_int, number: c_uint) -> (r: NifResult<u16, V>)
    ensures
        r == u16_of_reply::<V>((success, number)),
{
    if success != 1 {
        return Err(NifError::BadArg);
    }
    if number < u16::MIN as c_uint || number > u16::MAX as c_uint {
        return Err(NifError::BadArg);
    }
    Ok(number as u16)
}

impl<V: NifInterface> NifEncoder<V> for u16 {
    open spec fn encodes_to(&self, vm: &V, env: NifEnv, term: NifTerm) -> bool {
        term.env == env && call_ensures(
            V::enif_make_uint,
            (vm, env.handle(), u16_request(*self)),
            term.term.0,
        )
    }

    fn encode<'b>(&self, vm: &V, env: NifEnv<'b>) -> (term: NifTerm<'b>) {
        NifTerm::new(env, RawNifTerm::new(vm.enif_make_uint(env.raw().as_c_arg(), *self as c_uint)))
    }
}

impl<'a, V: NifInterface> NifDecoder<'a, V> for u16 {
    open spec fn decodes_to(vm: &V, term: NifTerm, r: NifResult<Self, V>) -> bool {
        exists|reply: (c_int, c_uint)|
            #[trigger] call_ensures(V::enif_get_uint, (vm, term.env.handle(), term.term.0), reply)
                && r == u16_of_reply::<V>(reply)
    }

    fn decode(vm: &V, term: NifTerm<'a>) -> (r: NifResult<Self, V>) {
        let (success, number) = vm.enif_get_uint(term.get_env().raw().as_c_arg(), term.as_c_arg());
        checked_u16(success, number)
    }
}

/// Round trip: a term that `value` encodes to, in whatever environment,
/// decodes to `value`, where the VM reads back its numbers of the kind
/// `c_uint`.
pub proof fn lemma_u16_round_trip<V: NifInterface>(
    vm: &V,
    env: NifEnv,
    value: u16,
    term: NifTerm,
    r: NifResult<u16, V>,
)
    requires
        reads_back_uint(vm),
        value.encodes_to(vm, env, term),
        <u16 as NifDecoder<V>>::decodes_to(vm, term, r),
    ensures
        r == Ok::<u16, NifError<V>>(value),
{
}

/// Whether the VM gives every name one atom, and different names different
/// atoms, in whatever environment it is asked.
pub open spec fn names_atoms<V: NifInterface>(vm: &V) -> bool {
    forall|env1: NIF_ENV, env2: NIF_ENV, name1: &str, name2: &str, atom1: NIF_TERM, atom2: NIF_TERM|
        #![trigger
            call_ensures(V::enif_make_atom_len, (vm, env1, name1), atom1),
            call_ensures(V::enif_make_atom_len, (vm, env2, name2), atom2)
        ]
        call_ensures(V::enif_make_atom_len, (vm, env1, name1), atom1) && call_ensures(
            V::enif_make_atom_len,
            (vm, env2, name2),
            atom2,
        ) ==> (atom1 == atom2 <==> name1@ == name2@)
}

/// What a term decodes to as a `bool`, given the handles of the atoms `true`
/// and `false`: the boolean whose atom it is, `BadArg` where it is neither.
pub open spec fn bool_of_term<V: NifInterface>(
    term: NIF_TERM,
    true_atom: NIF_TERM,
    false_atom: NIF_TERM,
) -> NifResult<bool, V> {
    if term == true_atom {
        Ok(true)
    } else if term == false_atom {
        Ok(false)
    } else {
        Err(NifError::BadArg)
    }
}

/// Reads a term as [`bool_of_term`] says.
pub fn checked_bool<V: NifInterface>(term: NIF_TERM, true_atom: NIF_TERM, false_atom: NIF_TERM) -> (r:
    NifResult<bool, V>)
    ensures
        r == bool_of_term::<V>(term, true_atom, false_atom),
{
    if term == true_atom {
        Ok(true)
    } else if term == false_atom {
        Ok(false)
    } else {
        Err(NifError::BadArg)
    }
}

/// The name of the atom that stands for `value`.
pub open spec fn bool_name(value: bool) -> &'static str {
    if value {
        "true"
    } else {
        "false"
    }
}

impl<V: NifInterface> NifEncoder<V> for bool {
    open spec fn encodes_to(&self, vm: &V, env: NifEnv, term: NifTerm) -> bool {
        term.env == env && call_ensures(
            V::enif_make_atom_len,
            (vm, env.handle(), bool_name(*self)),
            term.term.0,
        )
    }

    fn encode<'b>(&self, vm: &V, env: NifEnv<'b>) -> (term: NifTerm<'b>) {
        let name = if *self {
            "true"
        } else {
            "false"
        };
        NifTerm::new(env, crate::wrapper::atom::make_atom(vm, env.raw(), name))
    }
}

impl<'a, V: NifInterface> NifDecoder<'a, V> for bool {
    open spec fn decodes_to(vm: &V, term: NifTerm, r: NifResult<Self, V>) -> bool {
        exists|true_atom: NIF_TERM, false_atom: NIF_TERM|
            {
                &&& #[trigger] call_ensures(
                    V::enif_make_atom_len,
                    (vm, term.env.handle(), "true"),
                    true_atom,
                )
                &&& #[trigger] call_ensures(
                    V::enif_make_atom_len,
                    (vm, term.env.handle(), "false"),
                    false_atom,
                )
                &&& r == bool_of_term::<V>(term.term.0, true_atom, false_atom)
            }
    }

    fn decode(vm: &V, term: NifTerm<'a>) -> (r: NifResult<Self, V>) {
        let env = term.get_env();
        let true_atom = crate::wrapper::atom::make_atom(vm, env.raw(), "true");
        let false_atom = crate::wrapper::atom::make_atom(vm, env.raw(), "false");
        checked_bool(term.as_c_arg(), true_atom.as_c_arg(), false_atom.as_c_arg())
    }
}

/// Round trip: a term that `value` encodes to, in whatever environment,
/// decodes to `value`, where the VM gives every name one atom and different
/// names different atoms.
pub proof fn lemma_bool_round_trip<V: NifInterface>(
    vm: &V,
    env: NifEnv,
    value: bool,
    term: NifTerm,
    r: NifResult<bool, V>,
)
    requires
        names_atoms(vm),
        value.encodes_to(vm, env, term),
        <bool as NifDecoder<V>>::decodes_to(vm, term, r),
    ensures
        r == Ok::<bool, NifError<V>>(value),
{
    reveal_strlit("true");
    reveal_strlit("false");
    assert("true"@ != "false"@) by {
        assert("true"@.len() != "false"@.len());
    }
}

} // verus!
