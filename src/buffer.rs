use vstd::prelude::*;

verus! {

#[verifier::external_type_specification]
#[verifier::external_body]
#[verifier::reject_recursive_types(T)]
pub struct ExHeaplessVec<T, const N: usize>(heapless::Vec<T, N>);

/// What a push hands back: nothing, or the octet that did not fit.
pub type Pushed = Result<(), u8>;

/// The octets held by an opcode buffer, first pushed first.
pub uninterp spec fn opcode_buffer_items(b: heapless::Vec<u8, 16>) -> Seq<u8>;

/// The octets held by a parameter buffer, first pushed first.
pub uninterp spec fn parameter_buffer_items(b: heapless::Vec<u8, 386>) -> Seq<u8>;

/// Relies on heapless::Vec::new: a new buffer holds nothing.
#[verifier::external_body]
pub fn new_opcode_buffer() -> (r: heapless::Vec<u8, 16>)
    ensures
        opcode_buffer_items(r) == Seq::<u8>::empty(),
{
    heapless::Vec::new()
}

/// Relies on heapless::Vec::new: a new buffer holds nothing.
#[verifier::external_body]
pub fn new_parameter_buffer() -> (r: heapless::Vec<u8, 386>)
    ensures
        parameter_buffer_items(r) == Seq::<u8>::empty(),
{
    heapless::Vec::new()
}

/// Relies on heapless::Vec::push: below the capacity of 16 the octet is
/// appended; at capacity it is handed back and the buffer is left alone.
#[verifier::external_body]
pub(crate) fn push_opcode_octet(b: &mut heapless::Vec<u8, 16>, x: u8) -> (r: Pushed)
    ensures
        r is Ok <==> opcode_buffer_items(*old(b)).len() < 16,
        r is Ok ==> opcode_buffer_items(*final(b)) == opcode_buffer_items(*old(b)).push(x),
        r is Err ==> opcode_buffer_items(*final(b)) == opcode_buffer_items(*old(b)),
        r matches Err(y) ==> y == x,
{
    b.push(x)
}

/// Relies on heapless::Vec::push: below the capacity of 386 the octet is
/// appended; at capacity it is handed back and the buffer is left alone.
#[verifier::external_body]
pub(crate) fn push_parameter_octet(b: &mut heapless::Vec<u8, 386>, x: u8) -> (r: Pushed)
    ensures
        r is Ok <==> parameter_buffer_items(*old(b)).len() < 386,
        r is Ok ==> parameter_buffer_items(*final(b)) == parameter_buffer_items(*old(b)).push(x),
        r is Err ==> parameter_buffer_items(*final(b)) == parameter_buffer_items(*old(b)),
        r matches Err(y) ==> y == x,
{
    b.push(x)
}

/// Relies on heapless::Vec::as_slice: the slice holds the buffer's octets.
#[verifier::external_body]
pub fn opcode_buffer_to_vec(b: &heapless::Vec<u8, 16>) -> (r: Vec<u8>)
    ensures
        r@ == opcode_buffer_items(*b),
{
    b.as_slice().to_vec()
}

/// Relies on heapless::Vec::as_slice: the slice holds the buffer's octets.
#[verifier::external_body]
pub fn parameter_buffer_to_vec(b: &heapless::Vec<u8, 386>) -> (r: Vec<u8>)
    ensures
        r@ == parameter_buffer_items(*b),
{
    b.as_slice().to_vec()
}

} // verus!
