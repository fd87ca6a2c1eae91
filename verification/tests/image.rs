use egui::{Color32, ColorImage};
use gol::Board;

#[test]
fn image_has_a_pixel_for_each_cell() {
    let mut board = Board::new(3, 2);
    board[(0, 2)] = true;
    board[(1, 0)] = true;
    let image = ColorImage::from(&board);
    assert_eq!(image.size, [3, 2]);
    assert_eq!(
        image.pixels,
        vec![
            Color32::WHITE,
            Color32::WHITE,
            Color32::BLACK,
            Color32::BLACK,
            Color32::WHITE,
            Color32::WHITE,
        ]
    );
}

#[test]
fn image_is_indexed_by_column_then_row() {
    let mut board = Board::new(4, 3);
    board[(2, 1)] = true;
    let image = ColorImage::from(&board);
    assert_eq!(image.width(), 4);
    assert_eq!(image.height(), 3);
    for y in 0..3 {
        for x in 0..4 {
            let expected = if (y, x) == (2, 1) { Color32::BLACK } else { Color32::WHITE };
            assert_eq!(image[(x, y)], expected);
        }
    }
}

#[test]
fn image_of_a_dead_board_is_white() {
    let image = ColorImage::from(&Board::new(5, 4));
    assert_eq!(image.size, [5, 4]);
    assert_eq!(image.pixels, vec![Color32::WHITE; 20]);
}

#[test]
fn image_of_a_full_board_is_black() {
    let mut board = Board::new(2, 2);
    for pos in [(0, 0), (0, 1), (1, 0), (1, 1)] {
        board[pos] = true;
    }
    let image = ColorImage::from(&board);
    assert_eq!(image.pixels, vec![Color32::BLACK; 4]);
    assert_eq!(image.pixels[0].to_tuple(), gol::image::ALIVE);
}

#[test]
fn image_of_an_empty_board_is_empty() {
    let image = ColorImage::from(&Board::new(0, 3));
    assert_eq!(image.size, [0, 3]);
    assert!(image.pixels.is_empty());
}

#[test]
fn colors_are_black_and_white() {
    assert_eq!(Color32::BLACK.to_tuple(), gol::image::ALIVE);
    assert_eq!(Color32::WHITE.to_tuple(), gol::image::DEAD);
}
