use vstd::prelude::*;

use crate::device::{Cpu, Device};
use crate::error::CoreError;
use crate::et_error::ExecuTorchError;
use crate::program::{MethodDescriptor, TensorDescriptor};
use crate::scalar::{data_type_of, scalar_type_to_data_type, ScalarType};
use crate::tensor::{HostTensor, Tensor, TensorShape};
use crate::text::{decimal, dims_text, format_dims, with_number};

verus! {

/// A loaded model that runs on device `D`.
pub trait Session<D: Device> {
    /// Tensor this session produces. Backends whose delegate materializes results in
    /// host memory set this to `Tensor<Cpu>`.
    type Output;

    fn device(&self) -> &D;

    fn input_shapes(&self) -> &[TensorShape];

    fn output_shapes(&self) -> &[TensorShape];

    fn run(&mut self, inputs: &[&Tensor<D>]) -> Result<Vec<Self::Output>, CoreError>;
}

/// Whether `t` has the shape and element type `d` declares.
pub open spec fn input_matches<D: Device>(t: Tensor<D>, d: TensorDescriptor) -> bool {
    t.spec_shape() == d.shape@ && t.spec_dtype() == d.dtype
}

/// Whether every input matches its declared descriptor, in order.
pub open spec fn inputs_match<D: Device>(inputs: Seq<&Tensor<D>>, descs: Seq<TensorDescriptor>) -> bool {
    &&& inputs.len() == descs.len()
    &&& forall|i: int| 0 <= i < inputs.len() ==> input_matches(*#[trigger] inputs[i], descs[i])
}

/// Message for a wrong number of inputs.
pub open spec fn count_message(expected: nat, actual: nat) -> Seq<char> {
    "Input count mismatch: expected "@ + decimal(expected) + ", received "@ + decimal(actual)
}

/// Message for input `i` having the wrong shape.
pub open spec fn shape_message(i: nat, expected: Seq<usize>, actual: Seq<usize>) -> Seq<char> {
    "Input "@ + decimal(i) + " shape mismatch: expected "@ + dims_text(expected) + ", got "@
        + dims_text(actual)
}

/// Checks the inputs of a run against the method's declared inputs: their number,
/// then each input's shape and element type, reporting the first mismatch.
pub fn validate_inputs<D: Device>(method: &MethodDescriptor, inputs: &[&Tensor<D>]) -> (r: Result<
    (),
    CoreError,
>)
    ensures
        r is Ok <==> inputs_match(inputs@, method.inputs@),
        inputs@.len() != method.inputs@.len() ==> (r matches Err(CoreError::InferenceFailed(m))
            && m@ == count_message(method.inputs@.len(), inputs@.len())),
        inputs@.len() == method.inputs@.len() && r is Err ==> exists|i: int|
            0 <= i < inputs@.len() && (forall|j: int|
                0 <= j < i ==> input_matches(*#[trigger] inputs@[j], method.inputs@[j])) && !input_matches(
                *inputs@[i],
                method.inputs@[i],
            ) && (inputs@[i].spec_shape() != method.inputs@[i].shape@ ==> (r matches Err(
                CoreError::InvalidShape(m),
            ) && m@ == shape_message(
                i as nat,
                method.inputs@[i].shape@,
                inputs@[i].spec_shape(),
            ))) && (inputs@[i].spec_shape() == method.inputs@[i].shape@ ==> r == Err::<
                (),
                CoreError,
            >(
                CoreError::InvalidDataType {
                    expected: method.inputs@[i].dtype,
                    actual: inputs@[i].spec_dtype(),
                },
            )),
{
    let expected_count = method.inputs.len();
    if inputs.len() != expected_count {
        let mut m = with_number("Input count mismatch: expected ", expected_count as u64);
        let tail = with_number(", received ", inputs.len() as u64);
        m.append(tail.as_str());
        assert(m@ =~= count_message(expected_count as nat, inputs@.len()));
        return Err(CoreError::InferenceFailed(m));
    }
    let n = inputs.len();
    for i in 0..n
        invariant
            n == inputs@.len(),
            n == method.inputs@.len(),
            forall|j: int| 0 <= j < i ==> input_matches(*#[trigger] inputs@[j], method.inputs@[j]),
    {
        let input = inputs[i];
        let expected = &method.inputs[i];
        if !input.shape().same_dims(&expected.shape) {
            let mut m = with_number("Input ", i as u64);
            m.append(" shape mismatch: expected ");
            let e = format_dims(expected.shape.dims());
            m.append(e.as_str());
            m.append(", got ");
            let a = format_dims(input.shape().dims());
            m.append(a.as_str());
            assert(m@ =~= shape_message(i as nat, expected.shape@, input.spec_shape()));
            return Err(CoreError::InvalidShape(m));
        }
        if input.dtype() != expected.dtype {
            return Err(CoreError::InvalidDataType { expected: expected.dtype, actual: input.dtype() });
        }
    }
    Ok(())
}

/// Runtime tensor sizes as dimensions, each reinterpreted as `usize` the way Rust's
/// `as` does.
pub open spec fn sizes_as_dims(sizes: Seq<i32>) -> Seq<usize> {
    Seq::new(sizes.len(), |i: int| sizes[i] as usize)
}

/// Turns one output of a run (its runtime sizes, element type and bytes) into a CPU
/// tensor.
pub fn output_to_cpu_tensor(sizes: &[i32], scalar: ScalarType, bytes: Vec<u8>) -> (r: Result<
    Tensor<Cpu>,
    ExecuTorchError,
>)
    ensures
        r is Ok <==> crate::tensor::valid_dims(sizes_as_dims(sizes@)) && data_type_of(scalar) is Some
            && bytes@.len() == crate::tensor::byte_size_of(
            sizes_as_dims(sizes@),
            data_type_of(scalar)->0,
        ),
        r matches Ok(t) ==> t.spec_shape() == sizes_as_dims(sizes@) && Some(t.spec_dtype())
            == data_type_of(scalar) && t.spec_contents() == bytes@,
        !crate::tensor::valid_dims(sizes_as_dims(sizes@)) ==> r matches Err(
            ExecuTorchError::Core(CoreError::InvalidShape(_)),
        ),
        crate::tensor::valid_dims(sizes_as_dims(sizes@)) && data_type_of(scalar) is None
            ==> r matches Err(ExecuTorchError::Execution(_)),
{
    let mut dims: Vec<usize> = Vec::new();
    let n = sizes.len();
    for i in 0..n
        invariant
            n == sizes@.len(),
            dims@ == sizes_as_dims(sizes@.take(i as int)),
    {
        dims.push(sizes[i] as usize);
        assert(dims@ =~= sizes_as_dims(sizes@.take(i + 1)));
    }
    assert(sizes@.take(n as int) =~= sizes@);
    let shape = match TensorShape::new(dims) {
        Ok(s) => s,
        Err(e) => return Err(ExecuTorchError::Core(e)),
    };
    let dtype = match scalar_type_to_data_type(scalar) {
        Ok(d) => d,
        Err(e) => return Err(e),
    };
    let host = match HostTensor::new(shape, dtype, bytes) {
        Ok(h) => h,
        Err(e) => return Err(ExecuTorchError::Core(e)),
    };
    Ok(Tensor::adopt_host(&host))
}

/// A shape's dimensions as the runtime's 32-bit sizes (truncating like Rust's `as`).
pub fn dims_i32(shape: &TensorShape) -> (r: Vec<i32>)
    ensures
        r@.len() == shape@.len(),
        forall|i: int| 0 <= i < r@.len() ==> #[trigger] r@[i] == shape@[i] as i32,
{
    let dims = shape.dims();
    let mut out: Vec<i32> = Vec::new();
    let n = dims.len();
    for i in 0..n
        invariant
            n == dims@.len(),
            dims@ == shape@,
            out@.len() == i,
            forall|j: int| 0 <= j < i ==> #[trigger] out@[j] == shape@[j] as i32,
    {
        out.push(dims[i] as i32);
    }
    out
}

/// Checks that `slice` has at least as many elements as `shape` needs.
pub fn validate_element_count<T>(slice: &[T], shape: &TensorShape) -> (r: Result<(), CoreError>)
    ensures
        r is Ok <==> slice@.len() >= shape.spec_element_count(),
        r is Err ==> (r matches Err(CoreError::BufferTransferFailed(m)) && m@ == "input has "@
            + decimal(slice@.len()) + " elements, shape requires "@ + decimal(
            shape.spec_element_count(),
        )),
{
    let need = shape.element_count();
    if slice.len() < need {
        let mut m = with_number("input has ", slice.len() as u64);
        let tail = with_number(" elements, shape requires ", need as u64);
        m.append(tail.as_str());
        return Err(CoreError::BufferTransferFailed(m));
    }
    Ok(())
}

/// Checks that a transfer source or target of `available` bytes can hold `needed`.
pub fn require_transfer_bytes(needed: u64, available: u64, label: &str) -> (r: Result<
    (),
    CoreError,
>)
    ensures
        r is Ok <==> available >= needed,
        r matches Err(CoreError::BufferTransferFailed(m)) ==> m@ == label@ + " needs "@ + decimal(
            needed as nat,
        ) + " bytes but only "@ + decimal(available as nat) + " are available"@,
        r matches Err(e) ==> e is BufferTransferFailed,
{
    if available < needed {
        let mut m = String::from_str(label);
        let a = with_number(" needs ", needed);
        m.append(a.as_str());
        let b = with_number(" bytes but only ", available);
        m.append(b.as_str());
        m.append(" are available");
        assert(m@ =~= label@ + " needs "@ + decimal(needed as nat) + " bytes but only "@ + decimal(
            available as nat,
        ) + " are available"@);
        return Err(CoreError::BufferTransferFailed(m));
    }
    Ok(())
}

} // verus!
