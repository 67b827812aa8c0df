use vstd::prelude::*;

use crate::device::DeviceInfo;
use crate::error::CoreError;
use crate::tensor::DataType;
use crate::text::{concat, decimal, with_number};

verus! {

/// Error codes reported by the ExecuTorch runtime.
#[derive(Clone, Copy, Debug, PartialEq, Eq, Structural, Hash)]
pub enum NativeError {
    Internal,
    InvalidState,
    EndOfMethod,
    NotSupported,
    NotImplemented,
    InvalidArgument,
    InvalidType,
    OperatorMissing,
    NotFound,
    MemoryAllocationFailed,
    AccessFailed,
    InvalidProgram,
    InvalidExternalData,
    OutOfResources,
    DelegateInvalidCompatibility,
    DelegateMemoryAllocationFailed,
    DelegateInvalidHandle,
}

impl NativeError {
    /// Runtime errors that mean the program could not be loaded rather than run.
    pub open spec fn spec_is_load_error(self) -> bool {
        match self {
            NativeError::InvalidProgram | NativeError::InvalidExternalData
            | NativeError::InvalidArgument | NativeError::AccessFailed
            | NativeError::NotFound => true,
            _ => false,
        }
    }

    pub fn is_load_error(&self) -> (r: bool)
        ensures
            r == self.spec_is_load_error(),
    {
        match self {
            NativeError::InvalidProgram | NativeError::InvalidExternalData
            | NativeError::InvalidArgument | NativeError::AccessFailed
            | NativeError::NotFound => true,
            _ => false,
        }
    }

    pub open spec fn spec_name(self) -> Seq<char> {
        match self {
            NativeError::Internal => "Internal"@,
            NativeError::InvalidState => "InvalidState"@,
            NativeError::EndOfMethod => "EndOfMethod"@,
            NativeError::NotSupported => "NotSupported"@,
            NativeError::NotImplemented => "NotImplemented"@,
            NativeError::InvalidArgument => "InvalidArgument"@,
            NativeError::InvalidType => "InvalidType"@,
            NativeError::OperatorMissing => "OperatorMissing"@,
            NativeError::NotFound => "NotFound"@,
            NativeError::MemoryAllocationFailed => "MemoryAllocationFailed"@,
            NativeError::AccessFailed => "AccessFailed"@,
            NativeError::InvalidProgram => "InvalidProgram"@,
            NativeError::InvalidExternalData => "InvalidExternalData"@,
            NativeError::OutOfResources => "OutOfResources"@,
            NativeError::DelegateInvalidCompatibility => "DelegateInvalidCompatibility"@,
            NativeError::DelegateMemoryAllocationFailed => "DelegateMemoryAllocationFailed"@,
            NativeError::DelegateInvalidHandle => "DelegateInvalidHandle"@,
        }
    }

    /// The error code's name, as its debug form prints it.
    pub fn name(&self) -> (r: &str)
        ensures
            r@ == self.spec_name(),
    {
        match self {
            NativeError::Internal => "Internal",
            NativeError::InvalidState => "InvalidState",
            NativeError::EndOfMethod => "EndOfMethod",
            NativeError::NotSupported => "NotSupported",
            NativeError::NotImplemented => "NotImplemented",
            NativeError::InvalidArgument => "InvalidArgument",
            NativeError::InvalidType => "InvalidType",
            NativeError::OperatorMissing => "OperatorMissing",
            NativeError::NotFound => "NotFound",
            NativeError::MemoryAllocationFailed => "MemoryAllocationFailed",
            NativeError::AccessFailed => "AccessFailed",
            NativeError::InvalidProgram => "InvalidProgram",
            NativeError::InvalidExternalData => "InvalidExternalData",
            NativeError::OutOfResources => "OutOfResources",
            NativeError::DelegateInvalidCompatibility => "DelegateInvalidCompatibility",
            NativeError::DelegateMemoryAllocationFailed => "DelegateMemoryAllocationFailed",
            NativeError::DelegateInvalidHandle => "DelegateInvalidHandle",
        }
    }
}

/// Errors of the ExecuTorch backend.
#[derive(Debug)]
pub enum ExecuTorchError {
    InvalidProgram(String),
    MethodNotFound(String),
    DeviceMismatch { expected: DeviceInfo, actual: DeviceInfo },
    ShapeMismatch { expected: String, actual: String },
    DataTypeMismatch { expected: DataType, actual: DataType },
    InputCountMismatch { expected: usize, actual: usize },
    Execution(String),
    BufferError(String),
    Native(NativeError),
    Io(String),
    Core(CoreError),
}

/// Prefix of the message of a runtime error.
pub open spec fn native_prefix() -> Seq<char> {
    "ExecuTorch native error: "@
}

/// What each backend error becomes as a core error: the variant, and the message
/// where the core error carries one.
pub open spec fn converts_to(e: ExecuTorchError, c: CoreError) -> bool {
    match e {
        ExecuTorchError::DeviceMismatch { expected, actual } => c matches CoreError::DeviceMismatch {
            expected: x,
            actual: y,
        } && x == expected && y == actual,
        ExecuTorchError::ShapeMismatch { expected, actual } => c matches CoreError::InvalidShape(m)
            && m@ == "Expected shape "@ + expected@ + ", got "@ + actual@,
        ExecuTorchError::DataTypeMismatch { expected, actual } => c == (
        CoreError::InvalidDataType { expected, actual }),
        ExecuTorchError::InputCountMismatch { expected, actual } => c matches CoreError::InferenceFailed(m)
            && m@ == "Input count mismatch: expected "@ + decimal(expected as nat) + ", got "@
            + decimal(actual as nat),
        ExecuTorchError::MethodNotFound(name) => c matches CoreError::ModelLoadFailed(m) && m@
            == "Method '"@ + name@ + "' not found"@,
        ExecuTorchError::InvalidProgram(msg) => c matches CoreError::ModelLoadFailed(m) && m@
            == msg@,
        ExecuTorchError::Execution(msg) => c matches CoreError::InferenceFailed(m) && m@ == msg@,
        ExecuTorchError::BufferError(msg) => c matches CoreError::BufferTransferFailed(m) && m@
            == msg@,
        ExecuTorchError::Native(n) => if n.spec_is_load_error() {
            c matches CoreError::ModelLoadFailed(m) && m@ == native_prefix() + n.spec_name()
        } else {
            c matches CoreError::InferenceFailed(m) && m@ == native_prefix() + n.spec_name()
        },
        ExecuTorchError::Io(msg) => c matches CoreError::ModelLoadFailed(m) && m@ == msg@,
        ExecuTorchError::Core(inner) => c == inner,
    }
}

// The conversion builds new message strings, which no spec function can construct, so
// it is described by `converts_to` on `from` rather than by a `from_spec`.
impl vstd::std_specs::convert::FromSpecImpl<ExecuTorchError> for CoreError {
    open spec fn obeys_from_spec() -> bool {
        false
    }

    open spec fn from_spec(v: ExecuTorchError) -> CoreError {
        arbitrary()
    }
}

impl From<ExecuTorchError> for CoreError {
    /// Maps each backend error onto the core error that describes it. A runtime error
    /// that means the program could not be loaded (see [`NativeError::is_load_error`])
    /// becomes `ModelLoadFailed`, as loading an invalid model reports; any other runtime
    /// error becomes `InferenceFailed`.
    fn from(err: ExecuTorchError) -> (r: CoreError)
        ensures
            converts_to(err, r),
    {
        match err {
            ExecuTorchError::DeviceMismatch { expected, actual } => CoreError::DeviceMismatch {
                expected,
                actual,
            },
            ExecuTorchError::ShapeMismatch { expected, actual } => {
                let mut m = concat("Expected shape ", expected.as_str());
                m.append(", got ");
                m.append(actual.as_str());
                CoreError::InvalidShape(m)
            },
            ExecuTorchError::DataTypeMismatch { expected, actual } => CoreError::InvalidDataType {
                expected,
                actual,
            },
            ExecuTorchError::InputCountMismatch { expected, actual } => {
                let mut m = with_number("Input count mismatch: expected ", expected as u64);
                let tail = with_number(", got ", actual as u64);
                m.append(tail.as_str());
                assert(m@ =~= "Input count mismatch: expected "@ + decimal(expected as nat)
                    + ", got "@ + decimal(actual as nat));
                CoreError::InferenceFailed(m)
            },
            ExecuTorchError::MethodNotFound(name) => {
                let mut m = concat("Method '", name.as_str());
                m.append("' not found");
                CoreError::ModelLoadFailed(m)
            },
            ExecuTorchError::InvalidProgram(msg) => CoreError::ModelLoadFailed(msg),
            ExecuTorchError::Execution(msg) => CoreError::InferenceFailed(msg),
            ExecuTorchError::BufferError(msg) => CoreError::BufferTransferFailed(msg),
            ExecuTorchError::Native(n) => {
                let m = concat("ExecuTorch native error: ", n.name());
                if n.is_load_error() {
                    CoreError::ModelLoadFailed(m)
                } else {
                    CoreError::InferenceFailed(m)
                }
            },
            ExecuTorchError::Io(msg) => CoreError::ModelLoadFailed(msg),
            ExecuTorchError::Core(c) => c,
        }
    }
}

impl vstd::std_specs::convert::FromSpecImpl<CoreError> for ExecuTorchError {
    open spec fn obeys_from_spec() -> bool {
        true
    }

    open spec fn from_spec(v: CoreError) -> ExecuTorchError {
        ExecuTorchError::Core(v)
    }
}

impl From<CoreError> for ExecuTorchError {
    fn from(err: CoreError) -> (r: ExecuTorchError)
        ensures
            r == ExecuTorchError::Core(err),
    {
        ExecuTorchError::Core(err)
    }
}

} // verus!
