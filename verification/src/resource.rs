//! Resources: values of native code that live in blocks of the VM.
//!
//! The VM hands out a block of bytes and knows nothing of what is stored in
//! it. A value is stored at the first address behind the start of the block
//! that is aligned for it, so a block is asked for with room for the value
//! and for the padding before it.

use vstd::prelude::*;
use crate::wrapper::nif_interface::{
    NifInterface, NifResourceDtor, NifResourceFlags, NIF_RESOURCE_TYPE,
};
use crate::wrapper::resource::{is_c_name, type_of_reply};
use crate::NifEnv;

verus! {

/// A resource type that the VM has registered.
#[derive(Clone, Copy, Debug, PartialEq, Eq, Structural)]
pub struct NifResourceType {
    pub res: NIF_RESOURCE_TYPE,
}

/// The resource type that [`alloc_resource_type`] returns for what the VM
/// answered.
pub open spec fn registered(typ: Option<NIF_RESOURCE_TYPE>) -> Option<NifResourceType> {
    match typ {
        Some(res) => Some(NifResourceType { res: res }),
        None => None,
    }
}

/// Registers the resource type `name` with the VM, with `destructor` to be
/// called when the VM lets go of an object of the type. Returns nothing
/// where the VM refuses, as it does for a name that is taken.
pub fn alloc_resource_type<'a, V: NifInterface>(
    vm: &V,
    env: NifEnv<'a>,
    name: &str,
    destructor: Option<NifResourceDtor>,
    flags: NifResourceFlags,
) -> (typ: Option<NifResourceType>)
    requires
        is_c_name(name@),
    ensures
        exists|reply: NIF_RESOURCE_TYPE|
            #[trigger] call_ensures(
                V::enif_open_resource_type,
                (vm, env.handle(), name, destructor, flags),
                reply,
            ) && typ == registered(type_of_reply(reply)),
{
    match crate::wrapper::resource::open_resource_type(vm, env.raw(), name, destructor, flags) {
        Some(res) => Some(NifResourceType { res: res }),
        None => None,
    }
}

/// The padding in front of a value with alignment `align` in a block that
/// starts at `addr`: at least one byte and at most `align`, and such that
/// the value starts at a multiple of `align`.
pub open spec fn padding(addr: usize, align: usize) -> int {
    align - (addr % align)
}

/// The size of the block to ask for, for a value of `size` bytes with
/// alignment `align`: room for the value and for the most padding there
/// can be. Returns nothing where that size does not fit.
pub fn get_alloc_size_struct(size: usize, align: usize) -> (block: Option<usize>)
    ensures
        size + align <= usize::MAX ==> block == Some((size + align) as usize),
        size + align > usize::MAX ==> block is None,
{
    size.checked_add(align)
}

/// The address at which a value with alignment `align` lies in a block that
/// starts at `addr`.
pub fn align_alloced_mem_for_struct(addr: usize, align: usize) -> (aligned: usize)
    requires
        align > 0,
        addr + align <= usize::MAX,
    ensures
        aligned == addr + padding(addr, align),
{
    let offset = align - (addr % align);
    addr + offset
}

/// A value stored at the address that [`align_alloced_mem_for_struct`] gives
/// is aligned, and lies inside a block of the size that
/// [`get_alloc_size_struct`] gives.
pub proof fn lemma_aligned_value_in_block(addr: usize, size: usize, align: usize)
    requires
        align > 0,
    ensures
        (addr + padding(addr, align)) % (align as int) == 0,
        addr < addr + padding(addr, align) <= addr + align,
        addr + padding(addr, align) + size <= addr + (size + align),
{
    let a = align as int;
    let q = (addr as int) / a;
    let r = (addr as int) % a;
    assert(addr as int == a * q + r) by {
        vstd::arithmetic::div_mod::lemma_fundamental_div_mod(addr as int, a);
    }
    assert(0 <= r < a) by {
        vstd::arithmetic::div_mod::lemma_mod_pos_bound(addr as int, a);
    }
    assert(addr + padding(addr, align) == a * (q + 1)) by (nonlinear_arith)
        requires
            addr as int == a * q + r,
            padding(addr, align) == a - r,
    ;
    assert((a * (q + 1)) % a == 0) by {
        vstd::arithmetic::div_mod::lemma_mod_multiples_basic(q + 1, a);
    }
}

} // verus!
