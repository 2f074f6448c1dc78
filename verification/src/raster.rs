//! Pixel buffers.
//!
//! A buffer is an `imgref::ImgVec` of [`Rgba`] pixels. The verifier cannot look
//! inside that type, so its contents are named by four specification
//! functions, and every access goes through one of the small functions below
//! whose contract is taken on trust from the `imgref` sources.

use imgref::ImgVec;
use vstd::prelude::*;

verus! {

/// One output pixel: 8-bit colour channels and alpha.
#[derive(Clone, Copy, Debug, PartialEq, Eq, Structural)]
pub struct Rgba {
    pub r: u8,
    pub g: u8,
    pub b: u8,
    pub a: u8,
}

/// Declares `imgref::Img`, the type behind `ImgVec`, as a type of which the
/// verifier sees nothing but the name.
#[verifier::external_type_specification]
#[verifier::external_body]
#[verifier::reject_recursive_types(Container)]
pub struct ExImg<Container>(imgref::Img<Container>);

/// Specifies the `Clone` impl that `imgref::Img` derives, so that a type which
/// holds an image can derive `Clone` too. Nothing is claimed of the copy.
pub assume_specification<Container: Clone>[ <imgref::Img<Container> as Clone>::clone ](
    img: &imgref::Img<Container>,
) -> (copy: imgref::Img<Container>)
;

/// The pixel storage of an image, in the order in which the container holds it.
pub uninterp spec fn img_buf(img: ImgVec<Rgba>) -> Seq<Rgba>;

/// The width of an image in pixels.
pub uninterp spec fn img_width(img: ImgVec<Rgba>) -> usize;

/// The height of an image in pixels.
pub uninterp spec fn img_height(img: ImgVec<Rgba>) -> usize;

/// The distance, in pixels of storage, from the start of one row to the next.
pub uninterp spec fn img_stride(img: ImgVec<Rgba>) -> usize;

/// An image whose rows lie back to back and whose storage holds exactly its
/// pixels. Every image that this crate makes is of this form.
pub open spec fn packed(img: ImgVec<Rgba>) -> bool {
    &&& img_width(img) > 0
    &&& img_stride(img) == img_width(img)
    &&& img_buf(img).len() == img_width(img) * img_height(img)
    &&& img_width(img) * img_height(img) <= usize::MAX
}

/// The pixel in column `x` of row `y`.
pub open spec fn pixel_at(img: ImgVec<Rgba>, x: int, y: int) -> Rgba {
    img_buf(img)[y * img_stride(img) + x]
}

/// Wraps `imgref::Img::new`. Trusted: the image keeps the vector as its
/// storage, has the given width and height, and a stride equal to its width.
/// `Img::new` panics on a zero width and on a side that does not fit in 32
/// bits; both are excluded.
#[verifier::external_body]
pub(crate) fn img_new(buf: Vec<Rgba>, width: usize, height: usize) -> (img: ImgVec<Rgba>)
    requires
        0 < width <= u32::MAX,
        height <= u32::MAX,
    ensures
        img_buf(img) == buf@,
        img_width(img) == width,
        img_height(img) == height,
        img_stride(img) == width,
{
    ImgVec::new(buf, width, height)
}

/// Wraps `imgref::Img::width`. Trusted: it returns the image's width, which
/// the image keeps in 32 bits.
#[verifier::external_body]
pub(crate) fn img_get_width(img: &ImgVec<Rgba>) -> (w: usize)
    ensures
        w == img_width(*img),
        w <= u32::MAX,
{
    img.width()
}

/// Wraps `imgref::Img::height`. Trusted: it returns the image's height,
/// which the image keeps in 32 bits.
#[verifier::external_body]
pub(crate) fn img_get_height(img: &ImgVec<Rgba>) -> (h: usize)
    ensures
        h == img_height(*img),
        h <= u32::MAX,
{
    img.height()
}

/// Wraps `imgref::Img::stride`. Trusted: it returns the image's stride.
#[verifier::external_body]
pub(crate) fn img_get_stride(img: &ImgVec<Rgba>) -> (s: usize)
    ensures
        s == img_stride(*img),
{
    img.stride()
}

/// Wraps `imgref::Img::buf` followed by the length of the vector. Trusted: it
/// returns the number of pixels of storage.
#[verifier::external_body]
pub(crate) fn img_buf_len(img: &ImgVec<Rgba>) -> (n: usize)
    ensures
        n == img_buf(*img).len(),
{
    img.buf().len()
}

/// Wraps the `Index<(usize, usize)>` impl of `imgref::Img<Vec<_>>`. Trusted: it
/// reads the storage at `y * stride + x`. The impl panics past the end of the
/// storage, and checks `x < stride` in debug builds; both are excluded.
#[verifier::external_body]
pub(crate) fn img_get(img: &ImgVec<Rgba>, x: usize, y: usize) -> (p: Rgba)
    requires
        x < img_stride(*img),
        y * img_stride(*img) + x < img_buf(*img).len(),
    ensures
        p == pixel_at(*img, x as int, y as int),
{
    img[(x, y)]
}

/// Wraps the `IndexMut<(usize, usize)>` impl of `imgref::Img<Vec<_>>`. Trusted:
/// it overwrites the storage at `y * stride + x` and nothing else, and leaves
/// width, height and stride as they were. The same inputs are excluded as for
/// reading.
#[verifier::external_body]
pub(crate) fn img_set(img: &mut ImgVec<Rgba>, x: usize, y: usize, p: Rgba)
    requires
        x < img_stride(*old(img)),
        y * img_stride(*old(img)) + x < img_buf(*old(img)).len(),
    ensures
        img_buf(*final(img)) == img_buf(*old(img)).update(y * img_stride(*old(img)) + x, p),
        img_width(*final(img)) == img_width(*old(img)),
        img_height(*final(img)) == img_height(*old(img)),
        img_stride(*final(img)) == img_stride(*old(img)),
{
    img[(x, y)] = p;
}

/// The colour of a pixel that no worker has written yet: opaque black.
pub open spec fn blank() -> Rgba {
    Rgba { r: 0, g: 0, b: 0, a: 255 }
}

/// A pixel that no worker has written yet.
pub fn blank_pixel() -> (p: Rgba)
    ensures
        p == blank(),
{
    Rgba { r: 0, g: 0, b: 0, a: 255 }
}

/// In a packed image every pixel inside the frame has its own place in the
/// storage.
pub proof fn lemma_packed_index(img: ImgVec<Rgba>, x: int, y: int)
    requires
        packed(img),
        0 <= x < img_width(img),
        0 <= y < img_height(img),
    ensures
        0 <= y * img_stride(img) + x < img_buf(img).len(),
        x < img_stride(img),
{
    let w = img_width(img) as int;
    let h = img_height(img) as int;
    assert(0 <= y * w + x < w * h) by (nonlinear_arith)
        requires
            0 <= x < w,
            0 <= y < h,
    ;
}

/// In a packed image two places in the storage are the same only if they are
/// the same pixel.
pub proof fn lemma_packed_distinct(img: ImgVec<Rgba>, x1: int, y1: int, x2: int, y2: int)
    requires
        packed(img),
        0 <= x1 < img_width(img),
        0 <= x2 < img_width(img),
        0 <= y1,
        0 <= y2,
        y1 * img_stride(img) + x1 == y2 * img_stride(img) + x2,
    ensures
        x1 == x2,
        y1 == y2,
{
    let w = img_width(img) as int;
    assert(x1 == x2 && y1 == y2) by (nonlinear_arith)
        requires
            0 <= x1 < w,
            0 <= x2 < w,
            0 <= y1,
            0 <= y2,
            y1 * w + x1 == y2 * w + x2,
    ;
}

/// A new packed image of the given size with every pixel set to `fill`.
pub fn filled(width: usize, height: usize, fill: Rgba) -> (img: ImgVec<Rgba>)
    requires
        0 < width <= u32::MAX,
        height <= u32::MAX,
        width * height <= usize::MAX,
    ensures
        packed(img),
        img_width(img) == width,
        img_height(img) == height,
        forall|x: int, y: int| 0 <= x < width && 0 <= y < height ==> pixel_at(img, x, y) == fill,
{
    let n: usize = width * height;
    let mut buf: Vec<Rgba> = Vec::new();
    let mut i: usize = 0;
    while i < n
        invariant
            i <= n,
            buf@.len() == i,
            forall|j: int| 0 <= j < i ==> buf@[j] == fill,
        decreases n - i,
    {
        buf.push(fill);
        i += 1;
    }
    let img = img_new(buf, width, height);
    assert forall|x: int, y: int| 0 <= x < width && 0 <= y < height implies pixel_at(img, x, y)
        == fill by {
        lemma_packed_index(img, x, y);
    }
    img
}

/// Whether `after` is `before` with the pixel in column `x` of row `y` set to
/// `p`: same size, and every other pixel as it was.
pub open spec fn is_put(before: ImgVec<Rgba>, after: ImgVec<Rgba>, x: int, y: int, p: Rgba) -> bool {
    &&& packed(after)
    &&& img_width(after) == img_width(before)
    &&& img_height(after) == img_height(before)
    &&& pixel_at(after, x, y) == p
    &&& forall|i: int, j: int|
        0 <= i < img_width(before) && 0 <= j < img_height(before) && (i != x || j != y)
            ==> pixel_at(after, i, j) == pixel_at(before, i, j)
}

/// Reads the pixel in column `x` of row `y` of a packed image.
pub fn get_pixel(img: &ImgVec<Rgba>, x: usize, y: usize) -> (p: Rgba)
    requires
        packed(*img),
        x < img_width(*img),
        y < img_height(*img),
    ensures
        p == pixel_at(*img, x as int, y as int),
{
    proof {
        lemma_packed_index(*img, x as int, y as int);
    }
    img_get(img, x, y)
}

/// Writes the pixel in column `x` of row `y` of a packed image and leaves
/// every other pixel as it was.
pub fn put_pixel(img: &mut ImgVec<Rgba>, x: usize, y: usize, p: Rgba)
    requires
        packed(*old(img)),
        x < img_width(*old(img)),
        y < img_height(*old(img)),
    ensures
        is_put(*old(img), *final(img), x as int, y as int, p),
{
    proof {
        lemma_packed_index(*img, x as int, y as int);
    }
    let ghost before = *img;
    img_set(img, x, y, p);
    assert forall|i: int, j: int|
        0 <= i < img_width(before) && 0 <= j < img_height(before) && (i != x || j != y) implies pixel_at(
        *img,
        i,
        j,
    ) == pixel_at(before, i, j) by {
        lemma_packed_index(before, i, j);
        if j * img_stride(before) + i == y * img_stride(before) + x {
            lemma_packed_distinct(before, i, j, x as int, y as int);
        }
    }
}

/// Tests at run time whether an image is packed.
pub fn is_packed(img: &ImgVec<Rgba>) -> (ok: bool)
    ensures
        ok == packed(*img),
{
    let w: usize = img_get_width(img);
    let h: usize = img_get_height(img);
    let n: usize = img_buf_len(img);
    if w == 0 || img_get_stride(img) != w {
        return false;
    }
    match w.checked_mul(h) {
        Some(area) => area == n,
        None => false,
    }
}

} // verus!
