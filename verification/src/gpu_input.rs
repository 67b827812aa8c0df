use vstd::prelude::*;

use crate::device::{reports_info, Device, DeviceInfo};
use crate::error::CoreError;
use crate::program::MethodDescriptor;
use crate::session::input_matches;
use crate::session::require_transfer_bytes;
use crate::tensor::{DataType, Tensor, TensorShape};
use crate::text::{decimal, with_number};

verus! {

/// A region of a GPU buffer, by raw handle.
#[derive(Clone, Copy, Debug, PartialEq, Eq, Structural)]
pub struct BufferRegion {
    pub buffer: u64,
    pub offset: u64,
    pub size: u64,
}

/// How one GPU input reaches the runtime.
#[derive(Clone, Copy, Debug, PartialEq, Eq, Structural)]
pub enum InputRoute {
    /// The input goes through the runtime's staging buffer; `copy` tells whether it
    /// must be copied there first (it is already in place otherwise).
    Staging { copy: bool },
    /// The input is copied into a host-visible buffer the runtime reads directly.
    HostFallback,
}

/// Number of inputs the skip-staging mask can describe.
pub const MASK_BITS: usize = 64;

/// Where input `index`, `needed` bytes long and read from `src`, goes, given the
/// staging buffer the runtime offers for it (if any).
pub open spec fn spec_route(index: nat, needed: u64, src: BufferRegion, staging: Option<BufferRegion>) -> Option<InputRoute> {
    if index < MASK_BITS && staging is Some {
        let dst = staging->0;
        if src.size < needed || dst.size < needed {
            None
        } else {
            Some(InputRoute::Staging { copy: !(src.buffer == dst.buffer && src.offset == dst.offset) })
        }
    } else {
        Some(InputRoute::HostFallback)
    }
}

/// Decides how input `index` reaches the runtime. A staging buffer is used when the
/// runtime offers one and the input's index fits the skip mask; both the source and
/// the staging buffer must then hold `needed` bytes. The copy is skipped when the
/// source already is the staging region.
pub fn route_gpu_input(index: usize, needed: u64, src: BufferRegion, staging: Option<BufferRegion>) -> (r: Result<InputRoute, CoreError>)
    ensures
        spec_route(index as nat, needed, src, staging) matches Some(route) ==> r == Ok::<InputRoute, CoreError>(route),
        spec_route(index as nat, needed, src, staging) is None ==> r matches Err(CoreError::BufferTransferFailed(_)),
        r matches Ok(InputRoute::Staging { copy }) ==> staging matches Some(dst) && (copy <==> !(
        src.buffer == dst.buffer && src.offset == dst.offset)),
{
    if index < MASK_BITS {
        if let Some(dst) = staging {
            let source_label = with_number("input ", index as u64);
            let mut source_label = source_label;
            source_label.append(" source");
            if let Err(e) = require_transfer_bytes(needed, src.size, source_label.as_str()) {
                return Err(e);
            }
            let mut staging_label = with_number("input ", index as u64);
            staging_label.append(" ET-VK staging");
            if let Err(e) = require_transfer_bytes(needed, dst.size, staging_label.as_str()) {
                return Err(e);
            }
            let in_place = src.buffer == dst.buffer && src.offset == dst.offset;
            return Ok(InputRoute::Staging { copy: !in_place });
        }
    }
    Ok(InputRoute::HostFallback)
}

/// A staged input is copied into its staging region unless it already is that region:
/// the copy is skipped exactly when source and staging share buffer and offset, so
/// an input in a different buffer, or at a different offset, is always copied. An
/// input routed through staging has a staging buffer that holds it, and so does its
/// source.
pub proof fn lemma_copy_unless_in_place(
    index: nat,
    needed: u64,
    src: BufferRegion,
    staging: Option<BufferRegion>,
)
    ensures
        spec_route(index, needed, src, staging) matches Some(InputRoute::Staging { copy }) ==> (
        staging matches Some(dst) && (copy <==> (src.buffer != dst.buffer || src.offset
            != dst.offset)) && src.size >= needed && dst.size >= needed && index < 64),
        staging is None ==> spec_route(index, needed, src, staging) == Some(InputRoute::HostFallback),
{
}

/// The skip-staging mask with the bit of input `index` set.
pub fn mark_staged(mask: u64, index: usize) -> (r: u64)
    requires
        index < MASK_BITS,
    ensures
        r == mask | (1u64 << index),
{
    mask | (1u64 << (index as u64))
}

/// Bit `i` of `mask`.
pub open spec fn mask_bit(mask: u64, i: u64) -> bool {
    (mask >> i) & 1u64 == 1u64
}

proof fn lemma_set_bit(mask: u64, i: u64, j: u64)
    requires
        i < 64,
        j < 64,
    ensures
        mask_bit(mask | (1u64 << i), j) == (i == j || mask_bit(mask, j)),
{
    assert(((mask | (1u64 << i)) >> j) & 1u64 == 1u64 <==> (i == j || (mask >> j) & 1u64 == 1u64))
        by (bit_vector)
        requires
            i < 64,
            j < 64,
    ;
}

proof fn lemma_zero_mask(j: u64)
    requires
        j < 64,
    ensures
        !mask_bit(0, j),
{
    assert((0u64 >> j) & 1u64 != 1u64) by (bit_vector);
}

/// Input `i` is on the session's context and can be routed.
pub open spec fn input_planned(
    needed: Seq<u64>,
    sources: Seq<BufferRegion>,
    staging: Seq<Option<BufferRegion>>,
    same_context: Seq<bool>,
    i: int,
) -> bool {
    same_context[i] && spec_route(i as nat, needed[i], sources[i], staging[i]) is Some
}

/// Routes every input of a run, in order, and builds the skip-staging mask: bit `i` is
/// set exactly when input `i` goes through its staging buffer. Each input must first
/// live on the session's context (`same_context[i]`; `devices[i]` is its device);
/// the first input that does not, or whose source or staging buffer is too small,
/// fails the plan with a `DeviceMismatch` or a `BufferTransferFailed` error.
pub fn plan_gpu_inputs(
    needed: &[u64],
    sources: &[BufferRegion],
    staging: &[Option<BufferRegion>],
    same_context: &[bool],
    devices: &[DeviceInfo],
    expected_device: &DeviceInfo,
) -> (r: Result<(Vec<InputRoute>, u64), CoreError>)
    requires
        sources@.len() == needed@.len(),
        staging@.len() == needed@.len(),
        same_context@.len() == needed@.len(),
        devices@.len() == needed@.len(),
    ensures
        r matches Ok((routes, mask)) ==> {
            &&& routes@.len() == needed@.len()
            &&& forall|i: int| 0 <= i < routes@.len() ==> spec_route(i as nat, needed@[i], sources@[i], staging@[i]) == Some(#[trigger] routes@[i])
            &&& forall|b: u64| b < 64 ==> (#[trigger] mask_bit(mask, b) <==> (b < routes@.len() && routes@[b as int] is Staging))
        },
        r is Err <==> exists|i: int| 0 <= i < needed@.len() && !#[trigger] input_planned(needed@, sources@, staging@, same_context@, i),
        r is Err ==> exists|i: int|
            0 <= i < needed@.len()
                && (forall|j: int| 0 <= j < i ==> #[trigger] input_planned(needed@, sources@, staging@, same_context@, j))
                && !input_planned(needed@, sources@, staging@, same_context@, i)
                && (!same_context@[i] ==> r == Err::<(Vec<InputRoute>, u64), CoreError>(CoreError::DeviceMismatch {
                    expected: *expected_device,
                    actual: devices@[i],
                }))
                && (same_context@[i] ==> r matches Err(CoreError::BufferTransferFailed(_))),
{
    let n = needed.len();
    let mut routes: Vec<InputRoute> = Vec::new();
    let mut mask: u64 = 0;
    proof {
        assert forall|b: u64| b < 64 implies !#[trigger] mask_bit(mask, b) by {
            lemma_zero_mask(b);
        }
    }
    for i in 0..n
        invariant
            n == needed@.len(),
            n == sources@.len(),
            n == staging@.len(),
            n == same_context@.len(),
            n == devices@.len(),
            routes@.len() == i,
            forall|k: int| 0 <= k < i ==> #[trigger] input_planned(needed@, sources@, staging@, same_context@, k),
            forall|k: int| 0 <= k < i ==> spec_route(k as nat, needed@[k], sources@[k], staging@[k]) == Some(#[trigger] routes@[k]),
            forall|b: u64| b < 64 ==> (#[trigger] mask_bit(mask, b) <==> (b < i && routes@[b as int] is Staging)),
    {
        if !same_context[i] {
            let ghost k = i as int;
            assert(!input_planned(needed@, sources@, staging@, same_context@, k));
            return Err(CoreError::DeviceMismatch { expected: expected_device.clone(), actual: devices[i].clone() });
        }
        let route = match route_gpu_input(i, needed[i], sources[i], staging[i]) {
            Ok(route) => route,
            Err(e) => {
                let ghost k = i as int;
                assert(!input_planned(needed@, sources@, staging@, same_context@, k));
                return Err(e);
            },
        };
        let ghost old_mask = mask;
        let ghost old_routes = routes@;
        assert(input_planned(needed@, sources@, staging@, same_context@, i as int));
        if let InputRoute::Staging { .. } = route {
            mask = mark_staged(mask, i);
            proof {
                assert forall|b: u64| b < 64 implies (#[trigger] mask_bit(mask, b) <==> (b < i + 1 && old_routes.push(route)[b as int] is Staging)) by {
                    lemma_set_bit(old_mask, i as u64, b);
                    if b < i {
                        assert(old_routes.push(route)[b as int] == old_routes[b as int]);
                    }
                }
            }
        } else {
            proof {
                assert forall|b: u64| b < 64 implies (#[trigger] mask_bit(mask, b) <==> (b < i + 1 && old_routes.push(route)[b as int] is Staging)) by {
                    if b < i {
                        assert(old_routes.push(route)[b as int] == old_routes[b as int]);
                    }
                }
            }
        }
        routes.push(route);
    }
    Ok((routes, mask))
}

/// Input `i` is on the session's context and matches its descriptor.
pub open spec fn gpu_input_ok<D: Device>(
    same_context: Seq<bool>,
    inputs: Seq<&Tensor<D>>,
    descs: Seq<crate::program::TensorDescriptor>,
    i: int,
) -> bool {
    same_context[i] && input_matches(*inputs[i], descs[i])
}

/// Message for input `i` having the wrong shape on the GPU path.
pub open spec fn gpu_shape_message(i: nat) -> Seq<char> {
    "Input "@ + decimal(i) + " shape mismatch"@
}

/// Checks the inputs of a GPU run: their number, then for each input in turn that it
/// lives on the session's device context (`same_context[i]`), has the declared shape
/// and the declared element type. Reports the first mismatch.
pub fn validate_gpu_inputs<D: Device>(
    method: &MethodDescriptor,
    inputs: &[&Tensor<D>],
    same_context: &[bool],
    expected_device: &DeviceInfo,
) -> (r: Result<(), CoreError>)
    requires
        same_context@.len() == inputs@.len(),
    ensures
        r is Ok <==> inputs@.len() == method.inputs@.len() && forall|i: int|
            0 <= i < inputs@.len() ==> #[trigger] gpu_input_ok(same_context@, inputs@, method.inputs@, i),
        inputs@.len() != method.inputs@.len() ==> r matches Err(CoreError::InferenceFailed(_)),
        inputs@.len() == method.inputs@.len() && r is Err ==> exists|i: int|
            0 <= i < inputs@.len() && (forall|j: int|
                0 <= j < i ==> #[trigger] gpu_input_ok(same_context@, inputs@, method.inputs@, j))
                && (!same_context@[i] ==> (r matches Err(CoreError::DeviceMismatch { expected, actual })
                    && expected == *expected_device && reports_info(inputs@[i].spec_device(), actual)))
                && (same_context@[i] && inputs@[i].spec_shape() != method.inputs@[i].shape@ ==> (r matches Err(CoreError::InvalidShape(m)) && m@ == gpu_shape_message(i as nat)))
                && (same_context@[i] && inputs@[i].spec_shape() == method.inputs@[i].shape@ ==> r == Err::<(), CoreError>(CoreError::InvalidDataType {
                    expected: method.inputs@[i].dtype,
                    actual: inputs@[i].spec_dtype(),
                }))
                && !gpu_input_ok(same_context@, inputs@, method.inputs@, i),
{
    let expected_count = method.inputs.len();
    if inputs.len() != expected_count {
        let mut m = with_number("Input count mismatch: expected ", expected_count as u64);
        let tail = with_number(", received ", inputs.len() as u64);
        m.append(tail.as_str());
        return Err(CoreError::InferenceFailed(m));
    }
    let n = inputs.len();
    for i in 0..n
        invariant
            n == inputs@.len(),
            n == method.inputs@.len(),
            n == same_context@.len(),
            forall|j: int| 0 <= j < i ==> #[trigger] gpu_input_ok(same_context@, inputs@, method.inputs@, j),
    {
        let input = inputs[i];
        if !same_context[i] {
            assert(!gpu_input_ok(same_context@, inputs@, method.inputs@, i as int));
            let device = input.device();
            let actual = device.info();
            return Err(CoreError::DeviceMismatch { expected: expected_device.clone(), actual });
        }
        let expected = &method.inputs[i];
        if !input.shape().same_dims(&expected.shape) {
            let mut m = with_number("Input ", i as u64);
            m.append(" shape mismatch");
            assert(!gpu_input_ok(same_context@, inputs@, method.inputs@, i as int));
            return Err(CoreError::InvalidShape(m));
        }
        if input.dtype() != expected.dtype {
            assert(!gpu_input_ok(same_context@, inputs@, method.inputs@, i as int));
            return Err(CoreError::InvalidDataType { expected: expected.dtype, actual: input.dtype() });
        }
    }
    Ok(())
}

/// Checks a host-visible input mapping before the runtime is pointed at it: it must
/// be mapped, hold the whole tensor, and the element type must be `F32` (with an
/// `f32`-aligned mapping) or `U8`.
pub fn check_host_visible_mapping(
    mapped_len: Option<usize>,
    shape: &TensorShape,
    dtype: DataType,
    f32_aligned: bool,
) -> (r: Result<(), CoreError>)
    ensures
        r is Ok <==> (mapped_len matches Some(len) && len >= shape.spec_byte_size(dtype) && ((
        dtype == DataType::F32 && f32_aligned) || dtype == DataType::U8)),
        mapped_len is None ==> r matches Err(CoreError::BufferTransferFailed(_)),
        mapped_len matches Some(len) && len < shape.spec_byte_size(dtype) ==> r matches Err(
            CoreError::BufferTransferFailed(_),
        ),
        mapped_len matches Some(len) && len >= shape.spec_byte_size(dtype) && dtype == DataType::F32
            && !f32_aligned ==> r matches Err(CoreError::BufferTransferFailed(_)),
        mapped_len matches Some(len) && len >= shape.spec_byte_size(dtype) && dtype != DataType::F32
            && dtype != DataType::U8 ==> r matches Err(CoreError::InferenceFailed(_)),
{
    let len = match mapped_len {
        Some(len) => len,
        None => {
            return Err(
                CoreError::BufferTransferFailed(
                    String::from_str("ET host-visible input is not mapped"),
                ),
            )
        },
    };
    let needed = shape.byte_size(dtype);
    if len < needed {
        let mut m = with_number("ET host-visible mapping is ", len as u64);
        let tail = with_number(" bytes, need ", needed as u64);
        m.append(tail.as_str());
        return Err(CoreError::BufferTransferFailed(m));
    }
    match dtype {
        DataType::F32 => {
            if !f32_aligned {
                return Err(
                    CoreError::BufferTransferFailed(
                        String::from_str("ET host-visible mapping is not f32-aligned"),
                    ),
                );
            }
            Ok(())
        },
        DataType::U8 => Ok(()),
        other => {
            let m = crate::text::concat("Unsupported GPU input dtype for ExecuTorch: ", other.name());
            Err(CoreError::InferenceFailed(m))
        },
    }
}

} // verus!
