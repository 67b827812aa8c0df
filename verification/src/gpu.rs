use vstd::prelude::*;

use crate::device::{DeviceInfo, DeviceKind};
use crate::error::CoreError;
use crate::image::{frame_size, ImageFormat};
use crate::tensor::{DataType, TensorShape};
use crate::text::{concat, decimal, with_number};

verus! {

/// Identity of a reusable YCbCr conversion and sampler, by the raw values of the
/// conversion's parameters.
///
/// Camera frames that share the same external or YUV format reuse one conversion and
/// sampler, so that descriptor layouts with immutable samplers stay stable.
#[derive(Clone, Copy, Debug, PartialEq, Eq, Structural, Hash)]
pub struct YcbcrConversionKey {
    pub format: i32,
    pub external_format: u64,
    pub model: i32,
    pub range: i32,
    pub swizzle_r: i32,
    pub swizzle_g: i32,
    pub swizzle_b: i32,
    pub swizzle_a: i32,
    pub x_chroma_offset: i32,
    pub y_chroma_offset: i32,
}

/// Errors of the GPU context and its buffers.
#[derive(Debug)]
pub enum GpuError {
    /// The Vulkan loader could not be opened.
    Loader(String),
    /// A Vulkan call failed; holds the result code's description.
    Vulkan(String),
    /// No compute-capable GPU at this index.
    NoDevice(usize),
    /// A context was requested for a device that is not a GPU.
    NotGpu(DeviceInfo),
    /// A required device feature or extension is missing.
    MissingFeature(String),
    /// The GPU memory allocator failed.
    Allocator(String),
    Other(String),
}

/// The human-readable description of a GPU error.
pub open spec fn gpu_message(e: GpuError) -> Seq<char> {
    match e {
        GpuError::Loader(m) => "Vulkan loader failed: "@ + m@,
        GpuError::Vulkan(m) => "Vulkan error: "@ + m@,
        GpuError::NoDevice(i) => "No compute-capable GPU at index "@ + decimal(i as nat),
        GpuError::NotGpu(d) => "Cannot create Vulkan context for non-GPU device "@ + d.name@,
        GpuError::MissingFeature(m) => "Missing required Vulkan feature or extension: "@ + m@,
        GpuError::Allocator(m) => "GPU allocator error: "@ + m@,
        GpuError::Other(m) => m@,
    }
}

impl GpuError {
    /// Describes the error.
    pub fn message(&self) -> (r: String)
        ensures
            r@ == gpu_message(*self),
    {
        match self {
            GpuError::Loader(m) => concat("Vulkan loader failed: ", m.as_str()),
            GpuError::Vulkan(m) => concat("Vulkan error: ", m.as_str()),
            GpuError::NoDevice(i) => with_number("No compute-capable GPU at index ", *i as u64),
            GpuError::NotGpu(d) => concat(
                "Cannot create Vulkan context for non-GPU device ",
                d.name.as_str(),
            ),
            GpuError::MissingFeature(m) => concat(
                "Missing required Vulkan feature or extension: ",
                m.as_str(),
            ),
            GpuError::Allocator(m) => concat("GPU allocator error: ", m.as_str()),
            GpuError::Other(m) => m.clone(),
        }
    }
}

impl vstd::std_specs::convert::FromSpecImpl<GpuError> for CoreError {
    open spec fn obeys_from_spec() -> bool {
        true
    }

    open spec fn from_spec(v: GpuError) -> CoreError {
        CoreError::Gpu(v)
    }
}

impl From<GpuError> for CoreError {
    fn from(err: GpuError) -> (r: CoreError)
        ensures
            r == CoreError::Gpu(err),
    {
        CoreError::Gpu(err)
    }
}

/// Checks that a Vulkan context is being made for a GPU.
pub fn require_gpu(info: &DeviceInfo) -> (r: Result<(), GpuError>)
    ensures
        r is Ok <==> info.kind == DeviceKind::Gpu,
        r matches Err(e) ==> e == GpuError::NotGpu(*info),
{
    if info.kind != DeviceKind::Gpu {
        return Err(GpuError::NotGpu(info.clone()));
    }
    Ok(())
}

/// Size of a buffer allocated for `size` bytes: never below 4 bytes.
pub fn buffer_size(size: u64) -> (r: u64)
    ensures
        r == if size < 4 {
            4
        } else {
            size
        },
{
    if size < 4 {
        4
    } else {
        size
    }
}

/// Copies `bytes` to the start of a mapped allocation, which must be large enough;
/// the rest of the mapping is left as it was.
pub fn write_prefix(mapped: &mut [u8], bytes: &[u8]) -> (r: Result<(), GpuError>)
    ensures
        r is Ok <==> bytes@.len() <= old(mapped)@.len(),
        r is Ok ==> final(mapped)@ == bytes@ + old(mapped)@.subrange(
            bytes@.len() as int,
            old(mapped)@.len() as int,
        ),
        r is Err ==> final(mapped)@ == old(mapped)@,
        r matches Err(e) ==> e is Other,
{
    if mapped.len() < bytes.len() {
        let mut m = with_number("mapped allocation too small: ", mapped.len() as u64);
        let tail = with_number(" < ", bytes.len() as u64);
        m.append(tail.as_str());
        return Err(GpuError::Other(m));
    }
    let n = bytes.len();
    for i in 0..n
        invariant
            n == bytes@.len(),
            n <= mapped@.len(),
            mapped@.len() == old(mapped)@.len(),
            forall|j: int| 0 <= j < i ==> mapped@[j] == bytes@[j],
            forall|j: int| i <= j < mapped@.len() ==> mapped@[j] == old(mapped)@[j],
    {
        mapped[i] = bytes[i];
    }
    assert(mapped@ =~= bytes@ + old(mapped)@.subrange(n as int, old(mapped)@.len() as int));
    Ok(())
}

/// Fills `out` from the start of a mapped allocation, which must be at least as long.
pub fn read_prefix(mapped: &[u8], out: &mut [u8]) -> (r: Result<(), GpuError>)
    ensures
        r is Ok <==> old(out)@.len() <= mapped@.len(),
        r is Ok ==> final(out)@ == mapped@.subrange(0, old(out)@.len() as int),
        r is Err ==> final(out)@ == old(out)@,
        r matches Err(e) ==> e is Other,
{
    if mapped.len() < out.len() {
        let mut m = with_number("mapped allocation too small: ", mapped.len() as u64);
        let tail = with_number(" < ", out.len() as u64);
        m.append(tail.as_str());
        return Err(GpuError::Other(m));
    }
    let n = out.len();
    for i in 0..n
        invariant
            n == out@.len(),
            n <= mapped@.len(),
            n == old(out)@.len(),
            forall|j: int| 0 <= j < i ==> out@[j] == mapped@[j],
    {
        out[i] = mapped[i];
    }
    assert(out@ =~= mapped@.subrange(0, n as int));
    Ok(())
}

/// Checks that an upload to GPU storage carries exactly the shape's byte size.
pub fn check_upload_size(shape: &TensorShape, dtype: DataType, len: usize) -> (r: Result<
    (),
    CoreError,
>)
    ensures
        r is Ok <==> len == shape.spec_byte_size(dtype),
        r matches Err(e) ==> e is InvalidShape,
{
    let expected = shape.byte_size(dtype);
    if len != expected {
        let mut m = with_number("Upload size mismatch: shape requires ", expected as u64);
        let tail = with_number(" bytes, got ", len as u64);
        m.append(tail.as_str());
        return Err(CoreError::InvalidShape(m));
    }
    Ok(())
}

/// Checks that bytes written into a GPU image buffer fill exactly one frame.
pub fn check_frame_bytes(format: ImageFormat, width: u32, height: u32, len: usize) -> (r: Result<
    (),
    CoreError,
>)
    ensures
        r is Ok <==> len == frame_size(format, width as nat, height as nat),
        r matches Err(e) ==> e is InvalidImageBuffer,
{
    let expected = format.frame_bytes(width, height);
    if len as u128 != expected {
        let m = with_number("image bytes do not fill the frame: got ", len as u64);
        return Err(CoreError::InvalidImageBuffer(m));
    }
    Ok(())
}

/// Index of the first queue family that supports compute work.
pub open spec fn first_true(flags: Seq<bool>) -> Option<int>
    decreases flags.len(),
{
    if flags.len() == 0 {
        None
    } else if flags[0] {
        Some(0)
    } else {
        match first_true(flags.drop_first()) {
            Some(i) => Some(i + 1),
            None => None,
        }
    }
}

proof fn lemma_first_true(flags: Seq<bool>)
    ensures
        first_true(flags) matches Some(i) ==> 0 <= i < flags.len() && flags[i] && forall|j: int|
            0 <= j < i ==> !#[trigger] flags[j],
        first_true(flags) is None ==> forall|j: int| 0 <= j < flags.len() ==> !#[trigger] flags[j],
    decreases flags.len(),
{
    if flags.len() > 0 {
        lemma_first_true(flags.drop_first());
        assert forall|j: int| 1 <= j < flags.len() implies flags[j] == flags.drop_first()[j - 1] by {}
    }
}

/// The first queue family (by index) whose flags include compute.
pub fn first_compute_queue_family(supports_compute: &[bool]) -> (r: Option<u32>)
    requires
        supports_compute@.len() <= u32::MAX,
    ensures
        r matches Some(i) ==> first_true(supports_compute@) == Some(i as int),
        r is None ==> first_true(supports_compute@) is None,
{
    let n = supports_compute.len();
    for i in 0..n
        invariant
            n == supports_compute@.len(),
            n <= u32::MAX,
            forall|j: int| 0 <= j < i ==> !#[trigger] supports_compute@[j],
    {
        if supports_compute[i] {
            proof {
                lemma_first_true(supports_compute@);
                if let Some(k) = first_true(supports_compute@) {
                    if k < i {
                        assert(!supports_compute@[k]);
                    }
                    if k > i {
                        assert(!supports_compute@[i as int]);
                    }
                }
            }
            return Some(i as u32);
        }
    }
    proof {
        lemma_first_true(supports_compute@);
        if let Some(k) = first_true(supports_compute@) {
            assert(!supports_compute@[k]);
        }
    }
    None
}

/// Positions of the devices that can run compute work, in order.
pub open spec fn compute_positions(has_compute: Seq<bool>) -> Seq<int>
    decreases has_compute.len(),
{
    if has_compute.len() == 0 {
        Seq::empty()
    } else {
        let rest = compute_positions(has_compute.drop_last());
        if has_compute.last() {
            rest.push(has_compute.len() - 1)
        } else {
            rest
        }
    }
}

/// Picks the physical device for GPU `gpu_id`: the `gpu_id`-th device (counting from
/// zero) among those that can run compute work.
pub fn select_compute_device(has_compute: &[bool], gpu_id: usize) -> (r: Result<usize, GpuError>)
    ensures
        gpu_id < compute_positions(has_compute@).len() ==> r == Ok::<usize, GpuError>(
            compute_positions(has_compute@)[gpu_id as int] as usize,
        ),
        gpu_id >= compute_positions(has_compute@).len() ==> (r matches Err(GpuError::NoDevice(i))
            && i == gpu_id),
{
    let n = has_compute.len();
    let mut seen: usize = 0;
    for i in 0..n
        invariant
            n == has_compute@.len(),
            seen == compute_positions(has_compute@.take(i as int)).len(),
            seen <= gpu_id,
    {
        proof {
            assert(has_compute@.take(i + 1).drop_last() =~= has_compute@.take(i as int));
            lemma_positions_prefix(has_compute@, i as int);
        }
        if has_compute[i] {
            if seen == gpu_id {
                proof {
                    lemma_positions_extend(has_compute@, i + 1);
                }
                return Ok(i);
            }
            seen = seen + 1;
        }
    }
    proof {
        assert(has_compute@.take(n as int) =~= has_compute@);
    }
    Err(GpuError::NoDevice(gpu_id))
}

proof fn lemma_positions_prefix(flags: Seq<bool>, i: int)
    requires
        0 <= i < flags.len(),
    ensures
        compute_positions(flags.take(i + 1)) == (if flags[i] {
            compute_positions(flags.take(i)).push(i)
        } else {
            compute_positions(flags.take(i))
        }),
{
    assert(flags.take(i + 1).drop_last() =~= flags.take(i));
}

/// Positions found in a prefix stay at the same rank in the whole sequence.
proof fn lemma_positions_extend(flags: Seq<bool>, len: int)
    requires
        0 <= len <= flags.len(),
    ensures
        compute_positions(flags).len() >= compute_positions(flags.take(len)).len(),
        forall|k: int| 0 <= k < compute_positions(flags.take(len)).len() ==> #[trigger] compute_positions(flags)[k] == compute_positions(flags.take(len))[k],
    decreases flags.len() - len,
{
    if len < flags.len() {
        lemma_positions_extend(flags, len + 1);
        lemma_positions_prefix(flags, len);
    } else {
        assert(flags.take(len) =~= flags);
    }
}

/// Extension that provides 8-bit storage on Vulkan 1.1 devices.
pub open spec fn ext_8bit_storage() -> Seq<char> {
    "VK_KHR_8bit_storage"@
}

/// Extension that provides 16-bit floats and 8-bit integers in shaders on Vulkan 1.1.
pub open spec fn ext_float16_int8() -> Seq<char> {
    "VK_KHR_shader_float16_int8"@
}

/// Extension that provides 16-bit storage on Vulkan 1.1 devices.
pub open spec fn ext_16bit_storage() -> Seq<char> {
    "VK_KHR_16bit_storage"@
}

/// Whether `name` is among the `available` extension names.
pub open spec fn ext_listed(available: Seq<String>, name: Seq<char>) -> bool {
    exists|i: int| 0 <= i < available.len() && #[trigger] available[i]@ == name
}

fn ext_available(available: &[String], name: &String) -> (r: bool)
    ensures
        r == ext_listed(available@, name@),
{
    let n = available.len();
    for i in 0..n
        invariant
            n == available@.len(),
            forall|j: int| 0 <= j < i ==> #[trigger] available@[j]@ != name@,
    {
        if available[i] == *name {
            return true;
        }
    }
    false
}

/// The requested extras that the device offers, in request order.
pub open spec fn offered(available: Seq<String>, extra: Seq<String>) -> Seq<Seq<char>>
    decreases extra.len(),
{
    if extra.len() == 0 {
        Seq::empty()
    } else {
        let rest = offered(available, extra.drop_last());
        if ext_listed(available, extra.last()@) {
            rest.push(extra.last()@)
        } else {
            rest
        }
    }
}

/// The device extensions to enable on a device with Vulkan minor version
/// `api_minor`: before 1.2 the 8-bit storage and float16/int8 extensions are required
/// and 16-bit storage is added when offered; then every requested extra that the
/// device offers.
pub open spec fn spec_device_extensions(api_minor: u32, available: Seq<String>, extra: Seq<String>) -> Seq<Seq<char>> {
    let base = if api_minor < 2 {
        if ext_listed(available, ext_16bit_storage()) {
            seq![ext_8bit_storage(), ext_float16_int8(), ext_16bit_storage()]
        } else {
            seq![ext_8bit_storage(), ext_float16_int8()]
        }
    } else {
        Seq::empty()
    };
    base + offered(available, extra)
}

/// Every requested extra that is kept is offered by the device.
proof fn lemma_offered_listed(available: Seq<String>, extra: Seq<String>)
    ensures
        forall|i: int| 0 <= i < offered(available, extra).len() ==> ext_listed(available, #[trigger] offered(available, extra)[i]),
    decreases extra.len(),
{
    if extra.len() > 0 {
        lemma_offered_listed(available, extra.drop_last());
        let rest = offered(available, extra.drop_last());
        if ext_listed(available, extra.last()@) {
            assert forall|i: int| 0 <= i < rest.push(extra.last()@).len() implies ext_listed(
                available,
                #[trigger] rest.push(extra.last()@)[i],
            ) by {
                if i < rest.len() {
                    assert(rest.push(extra.last()@)[i] == rest[i]);
                }
            }
        }
    }
}

/// Only extensions the device offers are ever enabled: on a device that can be used
/// (Vulkan 1.2 or later, or offering the 8-bit storage and float16/int8 extensions),
/// every chosen extension is in `available`. In particular 16-bit storage is enabled
/// before Vulkan 1.2 exactly when the device offers it.
pub proof fn lemma_extensions_offered(api_minor: u32, available: Seq<String>, extra: Seq<String>)
    requires
        api_minor >= 2 || (ext_listed(available, ext_8bit_storage()) && ext_listed(
            available,
            ext_float16_int8(),
        )),
    ensures
        forall|i: int|
            0 <= i < spec_device_extensions(api_minor, available, extra).len() ==> ext_listed(
                available,
                #[trigger] spec_device_extensions(api_minor, available, extra)[i],
            ),
        api_minor < 2 ==> (spec_device_extensions(api_minor, available, extra).contains(
            ext_16bit_storage(),
        ) <==> ext_listed(available, ext_16bit_storage())),
{
    lemma_offered_listed(available, extra);
    let all = spec_device_extensions(api_minor, available, extra);
    if api_minor < 2 {
        if all.contains(ext_16bit_storage()) {
            let i = choose|i: int| 0 <= i < all.len() && all[i] == ext_16bit_storage();
            assert(ext_listed(available, all[i]));
        }
        if ext_listed(available, ext_16bit_storage()) {
            assert(all[2] == ext_16bit_storage());
        }
    }
}

/// Chooses the device extensions to enable; before Vulkan 1.2 a device lacking one of
/// the required storage or shader extensions is refused.
pub fn select_device_extensions(api_minor: u32, available: &[String], extra: &[String]) -> (r:
    Result<Vec<String>, GpuError>)
    ensures
        api_minor < 2 && !ext_listed(available@, ext_8bit_storage()) ==> (r matches Err(
            GpuError::MissingFeature(m),
        ) && m@ == ext_8bit_storage()),
        api_minor < 2 && ext_listed(available@, ext_8bit_storage()) && !ext_listed(
            available@,
            ext_float16_int8(),
        ) ==> (r matches Err(GpuError::MissingFeature(m)) && m@ == ext_float16_int8()),
        r is Ok <==> (api_minor >= 2 || (ext_listed(available@, ext_8bit_storage()) && ext_listed(
            available@,
            ext_float16_int8(),
        ))),
        r matches Ok(v) ==> v@.map_values(|s: String| s@) == spec_device_extensions(
            api_minor,
            available@,
            extra@,
        ),
        r matches Ok(v) ==> forall|i: int| 0 <= i < v@.len() ==> ext_listed(available@, #[trigger] v@[i]@),
{
    let mut out: Vec<String> = Vec::new();
    if api_minor < 2 {
        let e8 = String::from_str("VK_KHR_8bit_storage");
        let half_int8 = String::from_str("VK_KHR_shader_float16_int8");
        let e16 = String::from_str("VK_KHR_16bit_storage");
        if !ext_available(available, &e8) {
            return Err(GpuError::MissingFeature(e8));
        }
        if !ext_available(available, &half_int8) {
            return Err(GpuError::MissingFeature(half_int8));
        }
        out.push(e8);
        out.push(half_int8);
        if ext_available(available, &e16) {
            out.push(e16);
        }
    }
    let ghost base = out@.map_values(|s: String| s@);
    assert(base =~= spec_device_extensions(api_minor, available@, Seq::<String>::empty()));
    let n = extra.len();
    for i in 0..n
        invariant
            n == extra@.len(),
            out@.map_values(|s: String| s@) == base + offered(available@, extra@.take(i as int)),
    {
        proof {
            assert(extra@.take(i + 1).drop_last() =~= extra@.take(i as int));
        }
        if ext_available(available, &extra[i]) {
            let name = extra[i].clone();
            let ghost before = out@;
            out.push(name);
            assert(out@.map_values(|s: String| s@) =~= before.map_values(|s: String| s@).push(
                extra@[i as int]@,
            ));
        }
    }
    proof {
        assert(extra@.take(n as int) =~= extra@);
        assert(spec_device_extensions(api_minor, available@, extra@) =~= base + offered(available@, extra@));
        lemma_extensions_offered(api_minor, available@, extra@);
        assert forall|i: int| 0 <= i < out@.len() implies ext_listed(available@, #[trigger] out@[i]@) by {
            assert(out@.map_values(|s: String| s@)[i] == out@[i]@);
        }
    }
    Ok(out)
}

} // verus!
