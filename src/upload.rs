//! Sizes handed to the graphics API when data is uploaded, and the quad's
//! draw order.
use vstd::prelude::*;

verus! {

/// Number of indices in the quad's draw order.
pub const INDEX_COUNT: usize = 4;

/// The quad's corners in triangle-strip order.
pub fn element_data() -> (r: [u16; 4])
    ensures
        r@ == seq![0u16, 1u16, 2u16, 3u16],
{
    [0, 1, 2, 3]
}

/// Byte size of a buffer of `len` elements of `element_bytes` bytes each,
/// as the signed size type of the graphics API; `None` when it does not fit.
pub fn buffer_size(len: usize, element_bytes: usize) -> (r: Option<isize>)
    ensures
        r is Some <==> len * element_bytes <= isize::MAX,
        r matches Some(n) ==> n == len * element_bytes,
{
    match len.checked_mul(element_bytes) {
        Some(n) => {
            if n <= isize::MAX as usize {
                Some(n as isize)
            } else {
                None
            }
        },
        None => None,
    }
}

/// Width and height for a texture upload of a decoded image that holds
/// `pixel_count` pixels: `None` when the image does not hold exactly
/// `width * height` pixels or a side does not fit the API's signed size.
pub fn texture_size(pixel_count: usize, width: usize, height: usize) -> (r: Option<(i32, i32)>)
    ensures
        r is Some <==> (width <= i32::MAX && height <= i32::MAX && width * height
            == pixel_count),
        r matches Some((w, h)) ==> w == width && h == height,
{
    if width > i32::MAX as usize || height > i32::MAX as usize {
        return None;
    }
    match width.checked_mul(height) {
        Some(n) => {
            if n == pixel_count {
                Some((width as i32, height as i32))
            } else {
                None
            }
        },
        None => None,
    }
}

} // verus!
