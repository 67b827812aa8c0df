use vstd::prelude::*;

use std::sync::Arc;

use crate::error::CoreError;
use crate::text::{decimal, wide_decimal_string, with_number};

verus! {

/// Pixel layout of an image buffer.
#[derive(Clone, Copy, Debug, PartialEq, Eq, Structural, Hash)]
pub enum ImageFormat {
    /// Packed 8-bit RGB, 3 bytes per pixel.
    Rgb888,
    /// Packed 32-bit float RGB, 12 bytes per pixel.
    Rgbf32,
    /// Full-resolution Y plane followed by an interleaved, 2x2-subsampled UV plane.
    Nv12,
    /// Full-resolution Y plane followed by separate 2x2-subsampled U and V planes.
    I420,
}

/// How a source image is fitted into the destination size.
#[derive(Clone, Copy, Debug, PartialEq, Eq, Structural, Hash)]
pub enum FitMode {
    Stretch,
    Contain,
    Crop,
}

/// Memory order of an image tensor.
#[derive(Clone, Copy, Debug, PartialEq, Eq, Structural, Hash)]
pub enum TensorLayout {
    Nhwc,
    Nchw,
}

/// Number of bytes of one `width` x `height` frame in `format`.
pub open spec fn frame_size(format: ImageFormat, width: nat, height: nat) -> nat {
    match format {
        ImageFormat::Rgb888 => width * height * 3,
        ImageFormat::Rgbf32 => width * height * 12,
        ImageFormat::Nv12 | ImageFormat::I420 => width * height + 2 * (((width + 1) / 2) * ((
        height + 1) / 2)),
    }
}

impl ImageFormat {
    /// Size in bytes of a `width` x `height` frame.
    pub fn frame_bytes(&self, width: u32, height: u32) -> (r: u128)
        ensures
            r == frame_size(*self, width as nat, height as nat),
    {
        let w = width as u128;
        let h = height as u128;
        assert(w * h <= 0xffff_ffffu128 * 0xffff_ffffu128) by (nonlinear_arith)
            requires
                w <= 0xffff_ffffu128,
                h <= 0xffff_ffffu128,
        ;
        let cw = (w + 1) / 2;
        let ch = (h + 1) / 2;
        assert(cw * ch <= 0x8000_0000u128 * 0x8000_0000u128) by (nonlinear_arith)
            requires
                cw <= 0x8000_0000u128,
                ch <= 0x8000_0000u128,
        ;
        match self {
            ImageFormat::Rgb888 => w * h * 3,
            ImageFormat::Rgbf32 => w * h * 12,
            ImageFormat::Nv12 | ImageFormat::I420 => w * h + 2 * (cw * ch),
        }
    }
}

/// Input-only source bytes (camera frame, decoded file, CPU copy of a hardware buffer).
///
/// Its byte length always matches `format.frame_bytes(width, height)`.
#[derive(Debug)]
pub struct HardwareImage {
    width: u32,
    height: u32,
    format: ImageFormat,
    data: Vec<u8>,
}

impl HardwareImage {
    #[verifier::type_invariant]
    spec fn inv(&self) -> bool {
        self.data@.len() == frame_size(self.format, self.width as nat, self.height as nat)
    }

    pub closed spec fn spec_width(&self) -> u32 {
        self.width
    }

    pub closed spec fn spec_height(&self) -> u32 {
        self.height
    }

    pub closed spec fn spec_format(&self) -> ImageFormat {
        self.format
    }

    pub closed spec fn spec_data(&self) -> Seq<u8> {
        self.data@
    }

    /// Wraps `data` as a `width` x `height` image in `format`; the length must match
    /// the frame size exactly.
    pub fn new(width: u32, height: u32, format: ImageFormat, data: Vec<u8>) -> (r: Result<
        HardwareImage,
        CoreError,
    >)
        ensures
            r is Ok <==> data@.len() == frame_size(format, width as nat, height as nat),
            r matches Ok(img) ==> img.spec_width() == width && img.spec_height() == height
                && img.spec_format() == format && img.spec_data() == data@,
            r is Err ==> (r matches Err(CoreError::InvalidArgument(m)) && m@
                == "Image data size mismatch: expected "@ + decimal(
                frame_size(format, width as nat, height as nat),
            ) + " bytes, got "@ + decimal(data@.len())),
    {
        let expected = format.frame_bytes(width, height);
        if data.len() as u128 != expected {
            let mut m = String::from_str("Image data size mismatch: expected ");
            let e = wide_decimal_string(expected);
            m.append(e.as_str());
            let tail = with_number(" bytes, got ", data.len() as u64);
            m.append(tail.as_str());
            return Err(CoreError::InvalidArgument(m));
        }
        Ok(HardwareImage { width, height, format, data })
    }

    /// A zero-filled `width` x `height` image in `format`; fails when the frame does
    /// not fit in memory addresses.
    pub fn empty(width: u32, height: u32, format: ImageFormat) -> (r: Result<
        HardwareImage,
        CoreError,
    >)
        ensures
            r is Ok <==> frame_size(format, width as nat, height as nat) <= usize::MAX,
            r matches Ok(img) ==> img.spec_width() == width && img.spec_height() == height
                && img.spec_format() == format && img.spec_data() == Seq::new(
                frame_size(format, width as nat, height as nat),
                |i: int| 0u8,
            ),
            r matches Err(e) ==> e is InvalidArgument,
    {
        let expected = format.frame_bytes(width, height);
        if expected > usize::MAX as u128 {
            return Err(CoreError::InvalidArgument("Image frame is too large".to_string()));
        }
        let data: Vec<u8> = vec![0u8; expected as usize];
        assert(data@ =~= Seq::new(expected as nat, |i: int| 0u8));
        Ok(HardwareImage { width, height, format, data })
    }

    pub fn width(&self) -> (r: u32)
        ensures
            r == self.spec_width(),
    {
        self.width
    }

    pub fn height(&self) -> (r: u32)
        ensures
            r == self.spec_height(),
    {
        self.height
    }

    pub fn format(&self) -> (r: ImageFormat)
        ensures
            r == self.spec_format(),
    {
        self.format
    }

    pub fn as_bytes(&self) -> (r: &[u8])
        ensures
            r@ == self.spec_data(),
    {
        self.data.as_slice()
    }

    /// Overwrites the whole frame with `bytes`, which must have the frame's length;
    /// on error the image is left unchanged.
    pub fn write_bytes(&mut self, bytes: &[u8]) -> (r: Result<(), CoreError>)
        ensures
            r is Ok <==> bytes@.len() == old(self).spec_data().len(),
            r is Ok ==> final(self).spec_data() == bytes@,
            r is Err ==> final(self).spec_data() == old(self).spec_data(),
            r matches Err(e) ==> e is InvalidArgument,
            final(self).spec_width() == old(self).spec_width(),
            final(self).spec_height() == old(self).spec_height(),
            final(self).spec_format() == old(self).spec_format(),
    {
        proof {
            use_type_invariant(&*self);
        }
        if bytes.len() != self.data.len() {
            return Err(
                CoreError::InvalidArgument("Byte count does not match the image frame size".to_string()),
            );
        }
        self.data = vstd::slice::slice_to_vec(bytes);
        Ok(())
    }
}

impl Clone for HardwareImage {
    fn clone(&self) -> (r: Self)
        ensures
            r.spec_width() == self.spec_width(),
            r.spec_height() == self.spec_height(),
            r.spec_format() == self.spec_format(),
            r.spec_data() == self.spec_data(),
    {
        proof {
            use_type_invariant(self);
        }
        let data = self.data.clone();
        assert(data@ =~= self.data@);
        HardwareImage { width: self.width, height: self.height, format: self.format, data }
    }
}

/// Common accessors of a materialized image on some device.
pub trait DeviceImage {
    fn width(&self) -> u32;

    fn height(&self) -> u32;

    fn format(&self) -> ImageFormat;
}

/// Materialized CPU-resident image; shares the bytes of a [`HardwareImage`] without copying.
#[derive(Clone, Debug)]
pub struct CpuImage {
    inner: Arc<HardwareImage>,
}

impl CpuImage {
    pub closed spec fn spec_hardware(&self) -> HardwareImage {
        *self.inner
    }

    pub fn from_hardware(hardware: Arc<HardwareImage>) -> (r: Self)
        ensures
            r.spec_hardware() == *hardware,
    {
        CpuImage { inner: hardware }
    }

    pub fn hardware(&self) -> (r: Arc<HardwareImage>)
        ensures
            *r == self.spec_hardware(),
    {
        Arc::clone(&self.inner)
    }
}

impl DeviceImage for CpuImage {
    fn width(&self) -> (r: u32)
        ensures
            r == self.spec_hardware().spec_width(),
    {
        self.inner.width()
    }

    fn height(&self) -> (r: u32)
        ensures
            r == self.spec_hardware().spec_height(),
    {
        self.inner.height()
    }

    fn format(&self) -> (r: ImageFormat)
        ensures
            r == self.spec_hardware().spec_format(),
    {
        self.inner.format()
    }
}

} // verus!
