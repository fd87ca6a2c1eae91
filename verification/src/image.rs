//! The board as an image for `egui`: one pixel for each cell, live cells black, dead
//! cells white.

use vstd::prelude::*;
use egui::{Color32, ColorImage};
use crate::board::Board;
use crate::grid::{lemma_offset_bounds, Grid};

verus! {

/// `egui::ColorImage`, an image in memory. Verus sees nothing inside it; what it holds
/// is named by `image_size` and `image_pixels`.
#[verifier::external_type_specification]
#[verifier::external_body]
pub struct ExColorImage(egui::ColorImage);

/// The width and the height of an image: its field `size`.
pub uninterp spec fn image_size(image: ColorImage) -> (usize, usize);

/// The pixels of an image, row by row from the top: its field `pixels`, each pixel as
/// the premultiplied RGBA that `Color32::to_tuple` gives.
pub uninterp spec fn image_pixels(image: ColorImage) -> Seq<(u8, u8, u8, u8)>;

/// The color of a live cell, as premultiplied RGBA: black.
pub const ALIVE: (u8, u8, u8, u8) = (0, 0, 0, 255);

/// The color of a dead cell, as premultiplied RGBA: white.
pub const DEAD: (u8, u8, u8, u8) = (255, 255, 255, 255);

/// The color of a cell.
pub open spec fn pixel_of(alive: bool) -> (u8, u8, u8, u8) {
    if alive {
        ALIVE
    } else {
        DEAD
    }
}

/// Calls `egui::ColorImage::new` with the color that `Color32::from_rgba_premultiplied`
/// makes of `rgba`. Trusted: the image has the given width and height, and
/// `width * height` pixels, all of that color.
#[verifier::external_body]
fn image_filled(width: usize, height: usize, rgba: (u8, u8, u8, u8)) -> (image: ColorImage)
    requires
        width * height <= usize::MAX,
    ensures
        image_size(image) == (width, height),
        image_pixels(image) == Seq::new((width * height) as nat, |k: int| rgba),
{
    let color = Color32::from_rgba_premultiplied(rgba.0, rgba.1, rgba.2, rgba.3);
    ColorImage::new([width, height], color)
}

/// Writes one pixel through `IndexMut<(usize, usize)>` of `egui::ColorImage`, which takes
/// the column first, with the color that `Color32::from_rgba_premultiplied` makes of
/// `rgba`. Trusted: the pixel in row `y` and column `x` becomes that color, and nothing
/// else changes.
#[verifier::external_body]
fn image_put(image: &mut ColorImage, x: usize, y: usize, rgba: (u8, u8, u8, u8))
    requires
        x < image_size(*old(image)).0,
        y < image_size(*old(image)).1,
        image_pixels(*old(image)).len() == image_size(*old(image)).0 * image_size(*old(image)).1,
    ensures
        image_size(*final(image)) == image_size(*old(image)),
        image_pixels(*final(image)) == image_pixels(*old(image)).update(
            y * image_size(*old(image)).0 + x,
            rgba,
        ),
{
    image[(x, y)] = Color32::from_rgba_premultiplied(rgba.0, rgba.1, rgba.2, rgba.3);
}

impl Grid {
    /// The pixels of the grid as an image, row by row: one for each cell.
    pub open spec fn pixels(self) -> Seq<(u8, u8, u8, u8)> {
        Seq::new(self.cells.len(), |k: int| pixel_of(self.cells[k]))
    }

    /// The pixels of the grid with the cells from `end` on painted as dead cells.
    spec fn pixels_before(self, end: int) -> Seq<(u8, u8, u8, u8)> {
        Seq::new(self.cells.len(), |k: int| pixel_of(k < end && self.cells[k]))
    }
}

impl From<&Board> for ColorImage {
    /// The board as an image of the same width and height: one pixel for each cell, black
    /// for a live cell and white for a dead one.
    fn from(board: &Board) -> (image: ColorImage)
        ensures
            image_size(image) == (board@.width as usize, board@.height as usize),
            image_pixels(image) == board@.pixels(),
    {
        let size = board.size();
        let width = size[0];
        let height = size[1];
        let mut image = image_filled(width, height, DEAD);
        let mut y: usize = 0;
        while y < height
            invariant
                board@.wf(),
                width == board@.width,
                height == board@.height,
                y <= height,
                image_size(image) == (width, height),
                image_pixels(image) == board@.pixels_before(y * width),
            decreases height - y,
        {
            let mut x: usize = 0;
            while x < width
                invariant
                    board@.wf(),
                    width == board@.width,
                    height == board@.height,
                    y < height,
                    x <= width,
                    image_size(image) == (width, height),
                    image_pixels(image) == board@.pixels_before(y * width + x),
                decreases width - x,
            {
                proof {
                    lemma_offset_bounds(width as nat, height as nat, y as int, x as int);
                }
                if board[(y, x)] {
                    image_put(&mut image, x, y, ALIVE);
                }
                x += 1;
            }
            assert(y * width + width == (y + 1) * width) by (nonlinear_arith);
            y += 1;
        }
        assert(height * width == width * height) by (nonlinear_arith);
        image
    }
}

/// An image is opaque here, so `from_spec` cannot name the one that `from` returns: the
/// contract of `from` itself says what that image holds.
impl vstd::std_specs::convert::FromSpecImpl<&Board> for ColorImage {
    open spec fn obeys_from_spec() -> bool {
        false
    }

    open spec fn from_spec(board: &Board) -> ColorImage {
        choose|image: ColorImage|
            {
                &&& image_size(image) == (board@.width as usize, board@.height as usize)
                &&& image_pixels(image) == board@.pixels()
            }
    }
}

} // verus!
