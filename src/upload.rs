use vstd::prelude::*;
use crate::pixels::{PixelBuffer, PixelModel};
use crate::surface::Extent;

verus! {

/// The device resource that receives a pixel buffer: its declared byte size
/// and the image extent it holds.
#[derive(Clone, Copy, Debug, PartialEq, Eq, Structural)]
pub struct GpuResource {
    pub size: u64,
    pub extent: Extent,
}

/// Why pixels could not be given a device resource.
#[derive(Clone, Copy, Debug, PartialEq, Eq, Structural)]
pub enum UploadError {
    /// There are no bytes to upload; a device resource cannot be empty.
    Empty,
    /// The bytes exceed the largest allocation the device allows.
    TooLarge,
}

/// The resource that an upload of `pixels` asks for, under an allocation limit.
pub open spec fn upload_outcome(pixels: PixelModel, max_allocation: u64) -> Result<GpuResource, UploadError> {
    if pixels.bytes.len() == 0 {
        Err(UploadError::Empty)
    } else if pixels.bytes.len() > max_allocation {
        Err(UploadError::TooLarge)
    } else {
        Ok(
            GpuResource {
                size: pixels.bytes.len() as u64,
                extent: Extent { width: pixels.width as u32, height: pixels.height as u32 },
            },
        )
    }
}

/// Sizes the device resource for `pixels`: as many bytes as the pixels hold,
/// refused where that is none or more than `max_allocation`. Nothing is cached:
/// each call describes a fresh resource.
pub fn plan_upload(pixels: &PixelBuffer, max_allocation: u64) -> (r: Result<GpuResource, UploadError>)
    requires
        pixels.wf(),
    ensures
        r == upload_outcome(pixels@, max_allocation),
{
    proof {
        pixels.lemma_wf();
    }
    let len: usize = pixels.byte_len();
    assert(len as int <= u64::MAX);
    if len == 0 {
        Err(UploadError::Empty)
    } else if len as u64 > max_allocation {
        Err(UploadError::TooLarge)
    } else {
        Ok(
            GpuResource {
                size: len as u64,
                extent: Extent { width: pixels.width(), height: pixels.height() },
            },
        )
    }
}

/// Uploading the same pixels twice under the same limit gives the same outcome,
/// and a resource's size is the byte length of the pixels, `width * height * stride`.
pub proof fn lemma_upload_size_repeatable(
    pixels: PixelBuffer,
    max_allocation: u64,
    first: Result<GpuResource, UploadError>,
    second: Result<GpuResource, UploadError>,
)
    requires
        pixels.wf(),
        first == upload_outcome(pixels@, max_allocation),
        second == upload_outcome(pixels@, max_allocation),
    ensures
        first == second,
        first matches Ok(g) ==> g.size == pixels@.width * pixels@.height * pixels@.stride,
{
    pixels.lemma_wf();
}

} // verus!
