//! Splitting a scanned double page into its left and right pages.

use vstd::prelude::*;
use image::{DynamicImage, GenericImageView};
use crate::storme::Storme;

verus! {

/// `image::DynamicImage`, carried through as an opaque value.
#[verifier::external_type_specification]
#[verifier::external_body]
pub struct ExDynamicImage(DynamicImage);

/// The width and height of an image, in pixels.
pub uninterp spec fn gorsel_boyutu(g: DynamicImage) -> (u32, u32);

/// The pixels of an image, keyed by `(x, y)`, each as the RGBA bytes that
/// `GenericImageView::get_pixel` reports for it.
pub uninterp spec fn gorsel_pikselleri(g: DynamicImage) -> Map<(u32, u32), (u8, u8, u8, u8)>;

/// The coordinates of a `genislik` x `yukseklik` image.
pub open spec fn koordinatlar(genislik: u32, yukseklik: u32) -> Set<(u32, u32)> {
    Set::new(|p: (u32, u32)| p.0 < genislik && p.1 < yukseklik)
}

/// The smaller of two numbers.
pub open spec fn kucugu(a: u32, b: u32) -> u32 {
    if a <= b {
        a
    } else {
        b
    }
}

/// The rectangle `(x, y, width, height)` of `g` that a crop at `(x, y)` of the given size
/// covers once clamped to the image.
pub open spec fn kirpma_alani(g: DynamicImage, x: u32, y: u32, genislik: u32, yukseklik: u32) -> (
    u32,
    u32,
    u32,
    u32,
) {
    let (gw, gh) = gorsel_boyutu(g);
    let x0 = kucugu(x, gw);
    let y0 = kucugu(y, gh);
    (x0, y0, kucugu(genislik, (gw - x0) as u32), kucugu(yukseklik, (gh - y0) as u32))
}

/// Calls `GenericImageView::dimensions` on a `DynamicImage`: the width and height, and
/// the pixel map holds exactly the coordinates below them.
#[verifier::external_body]
fn boyutlari(g: &DynamicImage) -> (r: (u32, u32))
    ensures
        r == gorsel_boyutu(*g),
        gorsel_pikselleri(*g).dom() == koordinatlar(r.0, r.1),
{
    g.dimensions()
}

/// Calls `DynamicImage::crop_imm`: the rectangle is first clamped to the image (`x` and
/// `y` to the width and height, then the width and height to what is left of the image
/// from there), and the result holds the pixels of that rectangle, moved to the origin.
#[verifier::external_body]
fn kirp_gorsel(g: &DynamicImage, x: u32, y: u32, genislik: u32, yukseklik: u32) -> (r:
    DynamicImage)
    ensures
        gorsel_boyutu(r) == (kirpma_alani(*g, x, y, genislik, yukseklik).2, kirpma_alani(
            *g,
            x,
            y,
            genislik,
            yukseklik,
        ).3),
        gorsel_pikselleri(r).dom() == koordinatlar(gorsel_boyutu(r).0, gorsel_boyutu(r).1),
        forall|i: u32, j: u32|
            i < gorsel_boyutu(r).0 && j < gorsel_boyutu(r).1 ==> #[trigger] gorsel_pikselleri(
                r,
            )[(i, j)] == gorsel_pikselleri(*g)[(
                (kirpma_alani(*g, x, y, genislik, yukseklik).0 + i) as u32,
                (kirpma_alani(*g, x, y, genislik, yukseklik).1 + j) as u32,
            )],
{
    g.crop_imm(x, y, genislik, yukseklik)
}

/// `sol` and `sag` are the left and right halves of `g`: each `w / 2` pixels wide and as
/// high as `g`; `sol` holds the columns from 0, `sag` those from `w / 2`.
pub open spec fn yarilari(g: DynamicImage, sol: DynamicImage, sag: DynamicImage) -> bool {
    let (w, h) = gorsel_boyutu(g);
    &&& gorsel_boyutu(sol) == ((w / 2) as u32, h)
    &&& gorsel_boyutu(sag) == ((w / 2) as u32, h)
    &&& gorsel_pikselleri(g).dom() == koordinatlar(w, h)
    &&& gorsel_pikselleri(sol).dom() == koordinatlar((w / 2) as u32, h)
    &&& gorsel_pikselleri(sag).dom() == koordinatlar((w / 2) as u32, h)
    &&& forall|i: u32, j: u32|
        i < w / 2 && j < h ==> #[trigger] gorsel_pikselleri(sol)[(i, j)] == gorsel_pikselleri(
            g,
        )[(i, j)]
    &&& forall|i: u32, j: u32|
        i < w / 2 && j < h ==> #[trigger] gorsel_pikselleri(sag)[(i, j)] == gorsel_pikselleri(
            g,
        )[((w / 2 + i) as u32, j)]
}

impl Storme {
    /// Splits a scanned double page into its left and right halves, each half the width.
    pub fn sayfayi_bol(img: &DynamicImage) -> (r: (DynamicImage, DynamicImage))
        ensures
            yarilari(*img, r.0, r.1),
    {
        let (w, h) = boyutlari(img);
        let sol_sayfa = kirp_gorsel(img, 0, 0, w / 2, h);
        let sag_sayfa = kirp_gorsel(img, w / 2, 0, w / 2, h);
        (sol_sayfa, sag_sayfa)
    }
}

/// Every pixel of an even-width page is in exactly the place of one half: columns left
/// of the middle in the left half, the others in the right half, shifted by half the
/// width. (On an odd width the last column is in neither half.)
pub proof fn lemma_yarilar_sayfayi_kaplar(
    g: DynamicImage,
    sol: DynamicImage,
    sag: DynamicImage,
    x: u32,
    y: u32,
)
    requires
        yarilari(g, sol, sag),
        gorsel_boyutu(g).0 % 2 == 0,
        gorsel_pikselleri(g).dom().contains((x, y)),
    ensures
        x < gorsel_boyutu(g).0 / 2 ==> gorsel_pikselleri(sol).dom().contains((x, y))
            && gorsel_pikselleri(sol)[(x, y)] == gorsel_pikselleri(g)[(x, y)],
        x >= gorsel_boyutu(g).0 / 2 ==> gorsel_pikselleri(sag).dom().contains(
            ((x - gorsel_boyutu(g).0 / 2) as u32, y),
        ) && gorsel_pikselleri(sag)[((x - gorsel_boyutu(g).0 / 2) as u32, y)]
            == gorsel_pikselleri(g)[(x, y)],
{
    let (w, h) = gorsel_boyutu(g);
    assert(x < w && y < h);
    if x >= w / 2 {
        let i = (x - w / 2) as u32;
        assert(i < w / 2);
        assert(gorsel_pikselleri(sag)[(i, y)] == gorsel_pikselleri(g)[((w / 2 + i) as u32, y)]);
    } else {
        assert(gorsel_pikselleri(sol)[(x, y)] == gorsel_pikselleri(g)[(x, y)]);
    }
}

} // verus!
