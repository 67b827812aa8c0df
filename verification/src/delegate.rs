use vstd::prelude::*;

use crate::device::{DeviceInfo, DeviceKind};

verus! {

/// ExecuTorch backend delegate that runs a lowered program.
#[derive(Clone, Debug, PartialEq, Eq, Hash)]
pub enum ExecuTorchDelegate {
    Xnnpack,
    Vulkan,
    Qnn,
    CoreMl,
    PortableCpu,
    Custom(String),
}

impl ExecuTorchDelegate {
    /// The delegate's registered name.
    pub open spec fn spec_name(&self) -> Seq<char> {
        match self {
            ExecuTorchDelegate::Xnnpack => "xnnpack"@,
            ExecuTorchDelegate::Vulkan => "vulkan"@,
            ExecuTorchDelegate::Qnn => "qnn"@,
            ExecuTorchDelegate::CoreMl => "coreml"@,
            ExecuTorchDelegate::PortableCpu => "portable_cpu"@,
            ExecuTorchDelegate::Custom(name) => name@,
        }
    }

    /// Which device kinds the delegate can run on; a custom delegate accepts any.
    pub open spec fn spec_supports(&self, kind: DeviceKind) -> bool {
        match self {
            ExecuTorchDelegate::Xnnpack | ExecuTorchDelegate::PortableCpu => kind == DeviceKind::Cpu,
            ExecuTorchDelegate::Vulkan => kind == DeviceKind::Gpu,
            ExecuTorchDelegate::Qnn => kind == DeviceKind::Npu,
            ExecuTorchDelegate::CoreMl => kind == DeviceKind::Gpu || kind == DeviceKind::Npu,
            ExecuTorchDelegate::Custom(_) => true,
        }
    }

    /// The default delegate for a device kind.
    pub open spec fn spec_for_kind(kind: DeviceKind) -> ExecuTorchDelegate {
        match kind {
            DeviceKind::Cpu => ExecuTorchDelegate::Xnnpack,
            DeviceKind::Gpu => ExecuTorchDelegate::Vulkan,
            DeviceKind::Npu => ExecuTorchDelegate::Qnn,
        }
    }

    /// The default delegate for `device`: XNNPACK on CPU, Vulkan on GPU, QNN on NPU.
    pub fn for_device(device: &DeviceInfo) -> (r: Self)
        ensures
            r == Self::spec_for_kind(device.kind),
            r.spec_supports(device.kind),
    {
        match device.kind {
            DeviceKind::Cpu => ExecuTorchDelegate::Xnnpack,
            DeviceKind::Gpu => ExecuTorchDelegate::Vulkan,
            DeviceKind::Npu => ExecuTorchDelegate::Qnn,
        }
    }

    pub fn name(&self) -> (r: &str)
        ensures
            r@ == self.spec_name(),
    {
        match self {
            ExecuTorchDelegate::Xnnpack => "xnnpack",
            ExecuTorchDelegate::Vulkan => "vulkan",
            ExecuTorchDelegate::Qnn => "qnn",
            ExecuTorchDelegate::CoreMl => "coreml",
            ExecuTorchDelegate::PortableCpu => "portable_cpu",
            ExecuTorchDelegate::Custom(name) => name.as_str(),
        }
    }

    pub fn supports_device_kind(&self, kind: DeviceKind) -> (r: bool)
        ensures
            r == self.spec_supports(kind),
            (self is Xnnpack || self is PortableCpu) && kind == DeviceKind::Cpu ==> r,
    {
        match self {
            ExecuTorchDelegate::Xnnpack | ExecuTorchDelegate::PortableCpu => match kind {
                DeviceKind::Cpu => true,
                _ => false,
            },
            ExecuTorchDelegate::Vulkan => match kind {
                DeviceKind::Gpu => true,
                _ => false,
            },
            ExecuTorchDelegate::Qnn => match kind {
                DeviceKind::Npu => true,
                _ => false,
            },
            ExecuTorchDelegate::CoreMl => match kind {
                DeviceKind::Gpu | DeviceKind::Npu => true,
                _ => false,
            },
            ExecuTorchDelegate::Custom(_) => true,
        }
    }
}

/// The delegate chosen for a device always supports that device's kind.
pub proof fn lemma_default_delegate_supports(kind: DeviceKind)
    ensures
        ExecuTorchDelegate::spec_for_kind(kind).spec_supports(kind),
{
}

/// The CPU delegates (XNNPACK and the portable kernels) run on the CPU, every other
/// built-in delegate runs on some device kind, and a custom delegate on every kind.
pub proof fn lemma_delegates_have_devices(d: ExecuTorchDelegate)
    ensures
        (d is Xnnpack || d is PortableCpu) ==> d.spec_supports(DeviceKind::Cpu),
        !(d is Custom) ==> exists|k: DeviceKind| #[trigger] d.spec_supports(k),
        d is Custom ==> forall|k: DeviceKind| #[trigger] d.spec_supports(k),
{
    match d {
        ExecuTorchDelegate::Xnnpack | ExecuTorchDelegate::PortableCpu => {
            assert(d.spec_supports(DeviceKind::Cpu));
        },
        ExecuTorchDelegate::Vulkan | ExecuTorchDelegate::CoreMl => {
            assert(d.spec_supports(DeviceKind::Gpu));
        },
        ExecuTorchDelegate::Qnn => {
            assert(d.spec_supports(DeviceKind::Npu));
        },
        ExecuTorchDelegate::Custom(_) => {},
    }
}

} // verus!
