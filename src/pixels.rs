use vstd::prelude::*;

verus! {

/// Bytes in one RGBA8 pixel.
pub const RGBA8_STRIDE: u32 = 4;

/// The pixel layouts a `PixelBuffer` can hold.
#[derive(Clone, Copy, Debug, PartialEq, Eq, Structural)]
pub enum PixelFormat {
    /// Four 8-bit channels, red, green, blue, alpha, in that order.
    Rgba8,
}

/// Why an image could not be turned into a `PixelBuffer`.
#[derive(Clone, Copy, Debug, PartialEq, Eq, Structural)]
pub enum DecodeError {
    /// The file could not be read at all.
    Unreadable,
    /// The bytes are not an image in a supported format.
    Undecodable,
}

/// What a `PixelBuffer` holds, as mathematical values.
pub ghost struct PixelModel {
    pub width: nat,
    pub height: nat,
    pub stride: nat,
    pub format: PixelFormat,
    pub bytes: Seq<u8>,
}

/// Decoded pixels: `width * height` pixels of `stride` bytes each, row by row.
/// Immutable once built.
pub struct PixelBuffer {
    width: u32,
    height: u32,
    stride: u32,
    format: PixelFormat,
    bytes: Vec<u8>,
}

/// The width, height and RGBA8 bytes that the PNG decoder makes of `data`,
/// or `None` where it cannot decode it.
pub uninterp spec fn png_decoding(data: Seq<u8>) -> Option<(u32, u32, Seq<u8>)>;

/// Whether `data` starts with the eight-byte PNG signature. PNG is the one
/// format decoded: its decoding path is the one whose panics were checked to be
/// guarded against malformed input, so other formats are refused up front.
pub open spec fn png_signature(data: Seq<u8>) -> bool {
    &&& data.len() >= 8
    &&& data[0] == 0x89 && data[1] == 0x50 && data[2] == 0x4e && data[3] == 0x47
    &&& data[4] == 0x0d && data[5] == 0x0a && data[6] == 0x1a && data[7] == 0x0a
}

/// Whether `decode` accepts `data`.
pub open spec fn decodable(data: Seq<u8>) -> bool {
    png_signature(data) && png_decoding(data) is Some
}

fn has_png_signature(data: &[u8]) -> (r: bool)
    ensures
        r == png_signature(data@),
{
    data.len() >= 8 && data[0] == 0x89 && data[1] == 0x50 && data[2] == 0x4e && data[3] == 0x47
        && data[4] == 0x0d && data[5] == 0x0a && data[6] == 0x1a && data[7] == 0x0a
}

/// The image decoder's error, carried through opaque and mapped to `DecodeError`.
#[verifier::external_type_specification]
#[verifier::external_body]
pub struct ExImageError(image::ImageError);

/// Relies on `image::load_from_memory_with_format` with `ImageFormat::Png`,
/// whose result depends on the bytes alone, and on `DynamicImage::to_rgba8`,
/// whose buffer is built by `ImageBuffer::new(width, height)` and so holds
/// exactly four bytes per pixel. Only data with the PNG signature is admitted:
/// the explicit panics on that path (png's stream and zlib decoders, image's
/// png codec) are guarded against malformed input.
#[verifier::external_body]
fn decode_png_rgba8(data: &[u8]) -> (r: Result<(u32, u32, Vec<u8>), image::ImageError>)
    requires
        png_signature(data@),
    ensures
        match r {
            Ok((w, h, px)) => png_decoding(data@) == Some((w, h, px@)) && px@.len() == w as int
                * h as int * 4,
            Err(_) => png_decoding(data@) is None,
        },
{
    match image::load_from_memory_with_format(data, image::ImageFormat::Png) {
        Ok(img) => {
            let rgba = img.to_rgba8();
            Ok((rgba.width(), rgba.height(), rgba.into_raw()))
        },
        Err(e) => Err(e),
    }
}

impl View for PixelBuffer {
    type V = PixelModel;

    closed spec fn view(&self) -> PixelModel {
        PixelModel {
            width: self.width as nat,
            height: self.height as nat,
            stride: self.stride as nat,
            format: self.format,
            bytes: self.bytes@,
        }
    }
}

/// The model of RGBA8 pixels of the given size and bytes.
pub open spec fn rgba8_model(width: u32, height: u32, bytes: Seq<u8>) -> PixelModel {
    PixelModel {
        width: width as nat,
        height: height as nat,
        stride: RGBA8_STRIDE as nat,
        format: PixelFormat::Rgba8,
        bytes,
    }
}

impl PixelBuffer {
    /// Every buffer holds exactly `width * height * stride` bytes.
    pub closed spec fn wf(&self) -> bool {
        &&& self.stride == RGBA8_STRIDE
        &&& self.format == PixelFormat::Rgba8
        &&& self.bytes@.len() == self.width as int * self.height as int * self.stride as int
    }

    pub proof fn lemma_wf(&self)
        requires
            self.wf(),
        ensures
            self@.bytes.len() == self@.width * self@.height * self@.stride,
            self@.stride == RGBA8_STRIDE,
            self@.format == PixelFormat::Rgba8,
    {
    }

    /// Wraps RGBA8 bytes, which must number four per pixel.
    pub fn from_rgba8(width: u32, height: u32, bytes: Vec<u8>) -> (r: Option<PixelBuffer>)
        ensures
            r is Some <==> bytes@.len() == width as int * height as int * 4,
            r matches Some(p) ==> p.wf() && p@ == rgba8_model(width, height, bytes@),
    {
        assert(width as int * height as int <= u64::MAX) by (nonlinear_arith)
            requires
                width <= u32::MAX,
                height <= u32::MAX,
        ;
        let n: u64 = width as u64 * height as u64;
        let len: usize = bytes.len();
        assert(len as int <= u64::MAX);
        if n <= u64::MAX / 4 && len as u64 == n * 4 {
            Some(PixelBuffer { width, height, stride: RGBA8_STRIDE, format: PixelFormat::Rgba8, bytes })
        } else {
            None
        }
    }

    /// Decodes a PNG file, recognised by its signature, into RGBA8 pixels.
    /// Data in any other format is refused.
    pub fn decode(data: &[u8]) -> (r: Result<PixelBuffer, DecodeError>)
        ensures
            r is Ok <==> decodable(data@),
            r matches Ok(p) ==> p.wf() && png_decoding(data@) == Some(
                (p@.width as u32, p@.height as u32, p@.bytes),
            ) && p@ == rgba8_model(p@.width as u32, p@.height as u32, p@.bytes),
            r matches Ok(p) ==> p@.bytes.len() == p@.width * p@.height * p@.stride,
            r matches Err(e) ==> e == DecodeError::Undecodable,
    {
        if !has_png_signature(data) {
            return Err(DecodeError::Undecodable);
        }
        match decode_png_rgba8(data) {
            Ok((w, h, px)) => match PixelBuffer::from_rgba8(w, h, px) {
                Some(p) => {
                    proof {
                        p.lemma_wf();
                    }
                    Ok(p)
                },
                None => Err(DecodeError::Undecodable),
            },
            Err(_) => Err(DecodeError::Undecodable),
        }
    }

    pub fn width(&self) -> (r: u32)
        ensures
            r == self@.width,
    {
        self.width
    }

    pub fn height(&self) -> (r: u32)
        ensures
            r == self@.height,
    {
        self.height
    }

    /// Bytes per pixel.
    pub fn stride(&self) -> (r: u32)
        ensures
            r == self@.stride,
    {
        self.stride
    }

    pub fn format(&self) -> (r: PixelFormat)
        ensures
            r == self@.format,
    {
        self.format
    }

    pub fn bytes(&self) -> (r: &Vec<u8>)
        ensures
            r@ == self@.bytes,
    {
        &self.bytes
    }

    /// Number of bytes held.
    pub fn byte_len(&self) -> (r: usize)
        ensures
            r == self@.bytes.len(),
    {
        self.bytes.len()
    }

    /// An independent copy of the same pixels.
    pub fn duplicate(&self) -> (r: PixelBuffer)
        requires
            self.wf(),
        ensures
            r.wf(),
            r@ == self@,
    {
        let mut bytes: Vec<u8> = Vec::with_capacity(self.bytes.len());
        let mut i: usize = 0;
        while i < self.bytes.len()
            invariant
                i <= self.bytes@.len(),
                bytes@ == self.bytes@.subrange(0, i as int),
            decreases self.bytes@.len() - i,
        {
            bytes.push(self.bytes[i]);
            i += 1;
            assert(bytes@ =~= self.bytes@.subrange(0, i as int));
        }
        assert(bytes@ =~= self.bytes@);
        PixelBuffer {
            width: self.width,
            height: self.height,
            stride: self.stride,
            format: self.format,
            bytes,
        }
    }
}

} // verus!
