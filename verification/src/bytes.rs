use vstd::prelude::*;
use vstd::layout::{align_of, size_of};

use crate::error::CoreError;
use crate::text::{concat, decimal, with_number};

verus! {

/// Plain integer element types whose values can be viewed as, and built from, raw
/// bytes.
pub trait Element: Sized + Copy {
    /// The type's name, as the standard library prints it.
    spec fn spec_type_label() -> Seq<char>;

    fn name() -> (r: &'static str)
        ensures
            r@ == Self::spec_type_label(),
    ;

    /// `bytes` viewed as values of this type, when their length is a whole number of
    /// values and their address suits the type.
    fn view_bytes(bytes: &[u8]) -> (r: Option<&[Self]>)
        ensures
            r matches Some(s) ==> size_of::<Self>() > 0 && s@.len() * size_of::<Self>()
                == bytes@.len(),
            size_of::<Self>() > 0 && bytes@.len() % size_of::<Self>() == 0 && align_of::<Self>()
                <= 1 ==> r is Some,
    ;

    /// The bytes of `values`, `size_of::<Self>()` per value.
    fn bytes_of(values: &[Self]) -> (r: &[u8])
        ensures
            r@.len() == values@.len() * size_of::<Self>(),
    ;
}

impl Element for u8 {
    open spec fn spec_type_label() -> Seq<char> {
        "u8"@
    }

    fn name() -> (r: &'static str) {
        proof {
            reveal_strlit("u8");
        }
        "u8"
    }

    /// Bytes are their own values.
    fn view_bytes(bytes: &[u8]) -> (r: Option<&[u8]>)
        ensures
            r == Some(bytes),
    {
        broadcast use vstd::layout::layout_of_primitives;

        Some(bytes)
    }

    fn bytes_of(values: &[u8]) -> (r: &[u8])
        ensures
            r == values,
    {
        broadcast use vstd::layout::layout_of_primitives;

        values
    }
}

/// Views `bytes` as `i32` values with `bytemuck::try_cast_slice`.
///
/// Trusted: bytemuck's source returns a slice of exactly `bytes.len() / 4` elements
/// over the same memory and fails on trailing bytes. It also fails when the slice's
/// address is not aligned for `i32`, which depends on where the bytes happen to be,
/// so success is only promised where `i32` needs no alignment. The element values
/// follow the machine's byte order and are not stated.
#[verifier::external_body]
fn try_cast_i32s(bytes: &[u8]) -> (r: Option<&[i32]>)
    ensures
        r matches Some(s) ==> 4 * s@.len() == bytes@.len(),
        bytes@.len() % 4 == 0 && align_of::<i32>() <= 1 ==> r is Some,
{
    bytemuck::try_cast_slice::<u8, i32>(bytes).ok()
}

/// Views `i32` values as their bytes with `bytemuck::cast_slice`.
///
/// Trusted: a cast to `u8` never fails in bytemuck's source and covers the same
/// memory, `4` bytes per value. Their order depends on the machine and is not stated.
#[verifier::external_body]
fn i32s_as_bytes(values: &[i32]) -> (r: &[u8])
    ensures
        r@.len() == 4 * values@.len(),
{
    bytemuck::cast_slice::<i32, u8>(values)
}

impl Element for i32 {
    open spec fn spec_type_label() -> Seq<char> {
        "i32"@
    }

    fn name() -> (r: &'static str) {
        proof {
            reveal_strlit("i32");
        }
        "i32"
    }

    fn view_bytes(bytes: &[u8]) -> (r: Option<&[i32]>) {
        broadcast use vstd::layout::layout_of_primitives;

        try_cast_i32s(bytes)
    }

    fn bytes_of(values: &[i32]) -> (r: &[u8]) {
        broadcast use vstd::layout::layout_of_primitives;

        i32s_as_bytes(values)
    }
}

/// Views `bytes` as `u32` values with `bytemuck::try_cast_slice`.
///
/// Trusted: bytemuck's source returns a slice of exactly `bytes.len() / 4` elements
/// over the same memory and fails on trailing bytes. It also fails when the slice's
/// address is not aligned for `u32`, which depends on where the bytes happen to be,
/// so success is only promised where `u32` needs no alignment. The element values
/// follow the machine's byte order and are not stated.
#[verifier::external_body]
fn try_cast_u32s(bytes: &[u8]) -> (r: Option<&[u32]>)
    ensures
        r matches Some(s) ==> 4 * s@.len() == bytes@.len(),
        bytes@.len() % 4 == 0 && align_of::<u32>() <= 1 ==> r is Some,
{
    bytemuck::try_cast_slice::<u8, u32>(bytes).ok()
}

/// Views `u32` values as their bytes with `bytemuck::cast_slice`.
///
/// Trusted: a cast to `u8` never fails in bytemuck's source and covers the same
/// memory, `4` bytes per value. Their order depends on the machine and is not stated.
#[verifier::external_body]
fn u32s_as_bytes(values: &[u32]) -> (r: &[u8])
    ensures
        r@.len() == 4 * values@.len(),
{
    bytemuck::cast_slice::<u32, u8>(values)
}

impl Element for u32 {
    open spec fn spec_type_label() -> Seq<char> {
        "u32"@
    }

    fn name() -> (r: &'static str) {
        proof {
            reveal_strlit("u32");
        }
        "u32"
    }

    fn view_bytes(bytes: &[u8]) -> (r: Option<&[u32]>) {
        broadcast use vstd::layout::layout_of_primitives;

        try_cast_u32s(bytes)
    }

    fn bytes_of(values: &[u32]) -> (r: &[u8]) {
        broadcast use vstd::layout::layout_of_primitives;

        u32s_as_bytes(values)
    }
}

/// Views `bytes` as `i64` values with `bytemuck::try_cast_slice`.
///
/// Trusted: bytemuck's source returns a slice of exactly `bytes.len() / 8` elements
/// over the same memory and fails on trailing bytes. It also fails when the slice's
/// address is not aligned for `i64`, which depends on where the bytes happen to be,
/// so success is only promised where `i64` needs no alignment. The element values
/// follow the machine's byte order and are not stated.
#[verifier::external_body]
fn try_cast_i64s(bytes: &[u8]) -> (r: Option<&[i64]>)
    ensures
        r matches Some(s) ==> 8 * s@.len() == bytes@.len(),
        bytes@.len() % 8 == 0 && align_of::<i64>() <= 1 ==> r is Some,
{
    bytemuck::try_cast_slice::<u8, i64>(bytes).ok()
}

/// Views `i64` values as their bytes with `bytemuck::cast_slice`.
///
/// Trusted: a cast to `u8` never fails in bytemuck's source and covers the same
/// memory, `8` bytes per value. Their order depends on the machine and is not stated.
#[verifier::external_body]
fn i64s_as_bytes(values: &[i64]) -> (r: &[u8])
    ensures
        r@.len() == 8 * values@.len(),
{
    bytemuck::cast_slice::<i64, u8>(values)
}

impl Element for i64 {
    open spec fn spec_type_label() -> Seq<char> {
        "i64"@
    }

    fn name() -> (r: &'static str) {
        proof {
            reveal_strlit("i64");
        }
        "i64"
    }

    fn view_bytes(bytes: &[u8]) -> (r: Option<&[i64]>) {
        broadcast use vstd::layout::layout_of_primitives;

        try_cast_i64s(bytes)
    }

    fn bytes_of(values: &[i64]) -> (r: &[u8]) {
        broadcast use vstd::layout::layout_of_primitives;

        i64s_as_bytes(values)
    }
}

/// Reinterprets `bytes` as a slice of `T`.
///
/// Fails with `InvalidArgument` for a zero-sized `T` or a length that is not a
/// multiple of the element size, and with `BufferTransferFailed` when the slice is
/// not aligned for `T`.
pub fn cast_bytes<T: Element>(bytes: &[u8]) -> (r: Result<&[T], CoreError>)
    ensures
        size_of::<T>() == 0 ==> r matches Err(CoreError::InvalidArgument(_)),
        size_of::<T>() > 0 && bytes@.len() % size_of::<T>() != 0 ==> (r matches Err(
            CoreError::InvalidArgument(m),
        ) && m@ == "byte length "@ + decimal(bytes@.len()) + " is not a multiple of element size "@
            + decimal(size_of::<T>())),
        r matches Ok(s) ==> size_of::<T>() > 0 && s@.len() * size_of::<T>() == bytes@.len(),
        r matches Err(CoreError::BufferTransferFailed(m)) ==> m@ == "failed to cast byte slice to "@
            + T::spec_type_label(),
        r matches Err(e) ==> (e is InvalidArgument && (size_of::<T>() == 0 || bytes@.len()
            % size_of::<T>() != 0)) || (e is BufferTransferFailed && size_of::<T>() > 0
            && bytes@.len() % size_of::<T>() == 0 && align_of::<T>() > 1),
{
    let elem_size = core::mem::size_of::<T>();
    if elem_size == 0 {
        return Err(CoreError::InvalidArgument(concat("cannot cast bytes to zero-sized type ", T::name())));
    }
    if bytes.len() % elem_size != 0 {
        let mut m = with_number("byte length ", bytes.len() as u64);
        let tail = with_number(" is not a multiple of element size ", elem_size as u64);
        m.append(tail.as_str());
        return Err(CoreError::InvalidArgument(m));
    }
    match T::view_bytes(bytes) {
        Some(s) => Ok(s),
        None => Err(CoreError::BufferTransferFailed(concat("failed to cast byte slice to ", T::name()))),
    }
}

/// Copies `bytes` reinterpreted as `T` into a new vector; fails as [`cast_bytes`] does.
pub fn bytes_to_vec<T: Element>(bytes: &[u8]) -> (r: Result<Vec<T>, CoreError>)
    ensures
        size_of::<T>() == 0 ==> r matches Err(CoreError::InvalidArgument(_)),
        size_of::<T>() > 0 && bytes@.len() % size_of::<T>() != 0
            ==> r matches Err(CoreError::InvalidArgument(_)),
        r matches Ok(v) ==> size_of::<T>() > 0 && v@.len() * size_of::<T>() == bytes@.len(),
        r matches Err(e) ==> (e is InvalidArgument && (size_of::<T>() == 0 || bytes@.len()
            % size_of::<T>() != 0)) || (e is BufferTransferFailed && size_of::<T>() > 0
            && bytes@.len() % size_of::<T>() == 0 && align_of::<T>() > 1),
{
    match cast_bytes::<T>(bytes) {
        Ok(s) => Ok(vstd::slice::slice_to_vec(s)),
        Err(e) => Err(e),
    }
}

/// Copies the bytes of `data` into a new vector: `data.len() * size_of::<T>()` bytes.
pub fn vec_to_bytes<T: Element>(data: &[T]) -> (r: Result<Vec<u8>, CoreError>)
    ensures
        r matches Ok(v) && v@.len() == data@.len() * size_of::<T>(),
{
    let bytes = T::bytes_of(data);
    Ok(vstd::slice::slice_to_vec(bytes))
}

} // verus!
