//! The images of rendered pages.
use vstd::prelude::*;
use vstd::string::*;

use crate::error::{outcome, PrintError, PrintErrorView, PrintResult};
use crate::infrastructure::platform::render::{
    composite_rgba_to_bgra, opaque_bgra, MAX_RENDER_BUFFER_BYTES,
};

verus! {

/// The width, the height and the pixels, in red, green, blue and alpha, of an
/// encoded image, or why it cannot be decoded within the limits.
pub uninterp spec fn decoded_image(
    data: Seq<u8>,
    max_alloc: u64,
    max_width: u32,
    max_height: u32,
) -> core::result::Result<(u32, u32, Seq<u8>), Seq<char>>;

/// `image::ImageReader::decode`, after guessing the format and setting the
/// limits, and `DynamicImage::into_rgba8`: the result depends on nothing but
/// the arguments, and there are four bytes for each pixel. What the image
/// formats are is left to that crate.
#[verifier::external_body]
fn decode_image(
    data: Vec<u8>,
    max_alloc: u64,
    max_width: u32,
    max_height: u32,
) -> (r: core::result::Result<(u32, u32, Vec<u8>), String>)
    ensures
        decoded_image(data@, max_alloc, max_width, max_height) == match r {
            Ok((width, height, pixels)) => Ok((width, height, pixels@)),
            Err(message) => Err(message@),
        },
        r matches Ok((width, height, pixels)) ==> pixels@.len() == 4 * (width * height),
{
    let source = image::ImageReader::new(std::io::Cursor::new(data));
    let mut reader = source.with_guessed_format().map_err(|error| error.to_string())?;
    let mut limits = image::Limits::default();
    limits.max_alloc = Some(max_alloc);
    limits.max_image_width = Some(max_width);
    limits.max_image_height = Some(max_height);
    reader.limits(limits);
    let bitmap = reader.decode().map_err(|error| error.to_string())?;
    let (width, height) = (bitmap.width(), bitmap.height());
    Ok((width, height, bitmap.into_rgba8().into_raw()))
}

/// A page as it is sent to a printer: four bytes for each pixel, in the order
/// blue, green, red and an opaque alpha.
#[derive(Debug)]
pub struct PageBitmap {
    pub width: u32,
    pub height: u32,
    pub bgra: Vec<u8>,
}

pub struct PageBitmapView {
    pub width: u32,
    pub height: u32,
    pub bgra: Seq<u8>,
}

impl View for PageBitmap {
    type V = PageBitmapView;

    open spec fn view(&self) -> PageBitmapView {
        PageBitmapView { width: self.width, height: self.height, bgra: self.bgra@ }
    }
}

/// The page that a decoded image shows.
pub open spec fn shown_page(
    decoded: core::result::Result<(u32, u32, Seq<u8>), Seq<char>>,
) -> core::result::Result<PageBitmapView, PrintErrorView> {
    match decoded {
        Ok((width, height, pixels)) => Ok(
            PageBitmapView { width, height, bgra: opaque_bgra(pixels) },
        ),
        Err(message) => Err(PrintErrorView::Backend("decode rendered PDF page: "@ + message)),
    }
}

/// The page that a decoded image shows.
pub fn page_bitmap(decoded: core::result::Result<(u32, u32, Vec<u8>), String>) -> (r: PrintResult<
    PageBitmap,
>)
    requires
        decoded matches Ok((width, height, pixels)) ==> pixels@.len() % 4 == 0,
    ensures
        outcome(r) == shown_page(
            match decoded {
                Ok((width, height, pixels)) => Ok((width, height, pixels@)),
                Err(message) => Err(message@),
            },
        ),
{
    match decoded {
        Ok((width, height, pixels)) => {
            let mut bgra = pixels;
            composite_rgba_to_bgra(bgra.as_mut_slice());
            Ok(PageBitmap { width, height, bgra })
        },
        Err(error) => {
            let mut message = "decode rendered PDF page: ".to_string();
            message.append(error.as_str());
            Err(PrintError::Backend(message))
        },
    }
}

/// The page that an encoded image shows, if it is no larger than the page
/// that was rendered.
pub fn decode_page(encoded: Vec<u8>, render_width: u32, render_height: u32) -> (r: PrintResult<
    PageBitmap,
>)
    ensures
        outcome(r) == shown_page(
            decoded_image(encoded@, MAX_RENDER_BUFFER_BYTES, render_width, render_height),
        ),
{
    let decoded = decode_image(encoded, MAX_RENDER_BUFFER_BYTES, render_width, render_height);
    page_bitmap(decoded)
}

} // verus!
