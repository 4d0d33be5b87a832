//! The static image: one constant combinator that holds a filter for each
//! pixel, the pixel's color packed into the filter's count.
use vstd::prelude::*;
use crate::blueprint::{BluePrint, BluePrintView, Document, DocumentView};
use crate::catalog::AppData;
use crate::constant::{auto_filled, lemma_auto_placement_extends, ConstantCombinator};
use crate::records::SignalView;

verus! {

/// The color of a pixel as one number: red in bits 16 to 23, green in bits
/// 8 to 15, blue in bits 0 to 7.
pub open spec fn packed(pixel: [u8; 3]) -> int {
    pixel@[0] * 65536 + pixel@[1] * 256 + pixel@[2]
}

/// The packed colors of a pixel buffer, in raster order.
pub open spec fn pixel_counts(pixels: Seq<[u8; 3]>) -> Seq<int> {
    Seq::new(pixels.len(), |i: int| packed(pixels[i]))
}

/// The document of a pixel buffer with the given packed colors: a blueprint
/// whose one entity, left unnumbered, is the combinator that holds them.
pub open spec fn image_document(counts: Seq<int>, catalog: Seq<SignalView>) -> DocumentView {
    BluePrintView::blank().with_entity(auto_filled(counts, catalog).entity(), false).document()
}

/// Takes the colors out of a buffer of pixels that hold red, green, blue
/// and alpha, four bytes to a pixel: alpha is dropped. Bytes beyond the last
/// whole pixel are left out.
pub fn rgb_list(rgba: &[u8]) -> (pixels: Vec<[u8; 3]>)
    ensures
        pixels.len() == rgba.len() / 4,
        forall|i: int|
            0 <= i < pixels.len() ==> (#[trigger] pixels[i])@ == seq![
                rgba[4 * i],
                rgba[4 * i + 1],
                rgba[4 * i + 2],
            ],
{
    let count: usize = rgba.len() / 4;
    let mut pixels: Vec<[u8; 3]> = Vec::new();
    let mut i: usize = 0;
    while i < count
        invariant
            i <= count,
            count == rgba.len() / 4,
            pixels.len() == i,
            forall|j: int|
                0 <= j < i ==> (#[trigger] pixels[j])@ == seq![
                    rgba[4 * j],
                    rgba[4 * j + 1],
                    rgba[4 * j + 2],
                ],
        decreases count - i,
    {
        let pixel: [u8; 3] = [rgba[4 * i], rgba[4 * i + 1], rgba[4 * i + 2]];
        assert(pixel@ =~= seq![rgba[4 * i], rgba[4 * i + 1], rgba[4 * i + 2]]);
        pixels.push(pixel);
        i += 1;
    }
    pixels
}

/// Packs the color of a pixel into one number.
pub fn pack_rgb(pixel: &[u8; 3]) -> (count: u32)
    ensures
        count == packed(*pixel),
{
    let r: u32 = pixel[0] as u32;
    let g: u32 = pixel[1] as u32;
    let b: u32 = pixel[2] as u32;
    assert((r << 16 | g << 8 | b) == r * 65536 + g * 256 + b) by (bit_vector)
        requires
            r < 256,
            g < 256,
            b < 256,
    ;
    r << 16 | g << 8 | b
}

/// The constant combinator that holds one automatically placed filter for
/// each pixel, in raster order.
pub fn image_combinator(rgb_list: &Vec<[u8; 3]>, data: &AppData) -> (combinator:
    ConstantCombinator)
    ensures
        combinator.deep_view() == auto_filled(pixel_counts(rgb_list@), data.deep_view()),
{
    let mut combinator = ConstantCombinator::new(None);
    let ghost catalog = data.deep_view();
    assert(pixel_counts(rgb_list@.take(0)) =~= Seq::empty());
    assert(combinator.deep_view().sections =~= auto_filled(Seq::empty(), catalog).sections);
    let mut i: usize = 0;
    while i < rgb_list.len()
        invariant
            i <= rgb_list.len(),
            catalog == data.deep_view(),
            combinator.wf(),
            combinator.deep_view() == auto_filled(pixel_counts(rgb_list@.take(i as int)), catalog),
        decreases rgb_list.len() - i,
    {
        let count = pack_rgb(&rgb_list[i]);
        proof {
            let counts = pixel_counts(rgb_list@.take(i as int));
            lemma_auto_placement_extends(counts, count as int, catalog);
            assert(counts.push(count as int) =~= pixel_counts(rgb_list@.take(i + 1)));
        }
        combinator.add_filter_auto(Some(count), data);
        i += 1;
    }
    assert(rgb_list@.take(i as int) =~= rgb_list@);
    combinator
}

/// Builds the blueprint of a static image from its pixels in raster order.
pub fn generate_mini_static_image_blueprint(rgb_list: &Vec<[u8; 3]>, data: &AppData) -> (document:
    Document)
    ensures
        document.deep_view() == image_document(pixel_counts(rgb_list@), data.deep_view()),
{
    let mut bp_object = BluePrint::new(None);
    let cc_object = image_combinator(rgb_list, data);
    let mut entity = cc_object.entity();
    bp_object.add_entity(&mut entity, false);
    bp_object.get_dict()
}

} // verus!
