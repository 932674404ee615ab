use vstd::prelude::*;
use crate::pixels::{decodable, png_decoding, rgba8_model, DecodeError, PixelBuffer, PixelModel};

verus! {

/// A decoded image together with an optional RGBA8 copy of it, made on request.
pub struct CustomImage {
    img: PixelBuffer,
    rgba_img: Option<PixelBuffer>,
}

/// What a `CustomImage` holds.
pub ghost struct CustomImageModel {
    pub img: PixelModel,
    pub rgba_img: Option<PixelModel>,
}

impl View for CustomImage {
    type V = CustomImageModel;

    closed spec fn view(&self) -> CustomImageModel {
        CustomImageModel {
            img: self.img@,
            rgba_img: match self.rgba_img {
                Some(p) => Some(p@),
                None => None,
            },
        }
    }
}

impl CustomImage {
    pub closed spec fn wf(&self) -> bool {
        &&& self.img.wf()
        &&& self.rgba_img matches Some(p) ==> p.wf()
    }

    /// Decodes an encoded image file (PNG only); no RGBA copy is made yet.
    pub fn new(data: &[u8]) -> (r: Result<CustomImage, DecodeError>)
        ensures
            r is Ok <==> decodable(data@),
            r matches Ok(c) ==> c.wf() && c@.rgba_img is None && png_decoding(data@) == Some(
                (c@.img.width as u32, c@.img.height as u32, c@.img.bytes),
            ) && c@.img == rgba8_model(c@.img.width as u32, c@.img.height as u32, c@.img.bytes),
            r matches Err(e) ==> e == DecodeError::Undecodable,
    {
        match PixelBuffer::decode(data) {
            Ok(img) => Ok(CustomImage { img, rgba_img: None }),
            Err(e) => Err(e),
        }
    }

    /// Makes the RGBA8 copy of the image.
    pub fn to_rgba_img(&mut self)
        requires
            old(self).wf(),
        ensures
            final(self).wf(),
            final(self)@.img == old(self)@.img,
            final(self)@.rgba_img == Some(old(self)@.img),
    {
        self.rgba_img = Some(self.img.duplicate());
    }

    /// Drops the RGBA8 copy, if any.
    pub fn clear_rgba_img(&mut self)
        requires
            old(self).wf(),
        ensures
            final(self).wf(),
            final(self)@.img == old(self)@.img,
            final(self)@.rgba_img is None,
    {
        self.rgba_img = None;
    }

    /// Hands out the RGBA8 copy, if one was made.
    pub fn get_rgba_img(self) -> (r: Option<PixelBuffer>)
        requires
            self.wf(),
        ensures
            r is Some <==> self@.rgba_img is Some,
            r matches Some(p) ==> p.wf() && self@.rgba_img == Some(p@),
    {
        self.rgba_img
    }
}

} // verus!
