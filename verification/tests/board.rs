use gol::Board;

fn board_with(width: usize, height: usize, alive: &[(usize, usize)]) -> Board {
    let mut board = Board::new(width, height);
    for &pos in alive {
        board[pos] = true;
    }
    board
}

fn alive_cells(board: &Board) -> Vec<(usize, usize)> {
    board.iter().into_iter().filter(|(_, alive)| *alive).map(|(pos, _)| pos).collect()
}

#[test]
fn new_board() {
    let _board = Board::new(2, 3);
    let _board = Board::new(1000, 1000);
}

#[test]
#[should_panic]
fn new_board_panic() {
    let _board = Board::new(usize::MAX, 2);
}

#[test]
fn live_neighbors() {
    let mut board = Board::new(3, 3);
    board[(0, 1)] = true;
    board[(1, 2)] = true;
    board[(2, 0)] = true;
    board[(2, 1)] = true;
    board[(2, 2)] = true;

    assert_eq!(board.live_neighbors((0, 0)), 1);
    assert_eq!(board.live_neighbors((0, 1)), 1);
    assert_eq!(board.live_neighbors((0, 2)), 2);
    assert_eq!(board.live_neighbors((1, 0)), 3);
    assert_eq!(board.live_neighbors((1, 1)), 5);
    assert_eq!(board.live_neighbors((1, 2)), 3);
    assert_eq!(board.live_neighbors((2, 0)), 1);
    assert_eq!(board.live_neighbors((2, 1)), 3);
    assert_eq!(board.live_neighbors((2, 2)), 2);
}

#[test]
fn new_board_is_dead() {
    let board = Board::new(4, 3);
    assert_eq!(board.size(), &[4, 3]);
    assert_eq!(board.data(), &vec![false; 12]);
    assert!(alive_cells(&board).is_empty());
}

#[test]
fn data_has_one_cell_for_each_position() {
    let board = board_with(5, 3, &[(0, 0), (2, 4)]);
    assert_eq!(board.data().len(), 15);
    assert_eq!(board.next().data().len(), 15);
    assert_eq!(board.resize(2, 7).data().len(), 14);
    assert_eq!(board.resize(0, 7).data().len(), 0);
    assert_eq!(board.clone().data().len(), 15);
}

#[test]
fn cells_are_stored_row_by_row() {
    let board = board_with(4, 3, &[(2, 1)]);
    let mut expected = vec![false; 12];
    expected[2 * 4 + 1] = true;
    assert_eq!(board.data(), &expected);
}

#[test]
fn get_takes_the_row_first() {
    let board = board_with(4, 2, &[(1, 3)]);
    assert_eq!(board.get((1, 3)), Some(true));
    assert_eq!(board.get((0, 3)), Some(false));
    assert_eq!(board.get((3, 1)), None);
    assert_eq!(board.get((2, 0)), None);
    assert_eq!(board.get((0, 4)), None);
    assert_eq!(board.get((usize::MAX, usize::MAX)), None);
}

#[test]
fn get_mut_writes_one_cell() {
    let mut board = Board::new(3, 2);
    match board.get_mut((1, 2)) {
        Some(cell) => {
            assert!(!*cell);
            *cell = true;
        }
        None => panic!("the board has this cell"),
    }
    assert_eq!(alive_cells(&board), vec![(1, 2)]);
    assert!(board.get_mut((2, 1)).is_none());
    assert!(board.get_mut((0, 3)).is_none());
    assert_eq!(alive_cells(&board), vec![(1, 2)]);
}

#[test]
fn set_overwrites_one_cell() {
    let mut board = Board::new(3, 3);
    board.set((2, 0), true);
    board.set((0, 1), true);
    assert_eq!(alive_cells(&board), vec![(0, 1), (2, 0)]);
    board.set((2, 0), false);
    assert_eq!(alive_cells(&board), vec![(0, 1)]);
}

#[test]
fn index_reads_and_writes() {
    let mut board = Board::new(2, 3);
    assert!(!board[(2, 1)]);
    board[(2, 1)] = true;
    assert!(board[(2, 1)]);
    assert_eq!(board.get((2, 1)), Some(true));
}

#[test]
fn iter_goes_row_by_row() {
    let board = board_with(3, 2, &[(0, 2), (1, 0)]);
    assert_eq!(
        board.iter(),
        vec![
            ((0, 0), false),
            ((0, 1), false),
            ((0, 2), true),
            ((1, 0), true),
            ((1, 1), false),
            ((1, 2), false),
        ]
    );
}

#[test]
fn clone_is_a_board_of_its_own() {
    let board = board_with(3, 3, &[(1, 1)]);
    let mut copy = board.clone();
    assert_eq!(copy.size(), board.size());
    assert_eq!(copy.data(), board.data());
    copy[(0, 0)] = true;
    assert_eq!(alive_cells(&board), vec![(1, 1)]);
}

#[test]
fn empty_boards() {
    for (width, height) in [(0, 0), (0, 5), (5, 0)] {
        let board = Board::new(width, height);
        assert_eq!(board.size(), &[width, height]);
        assert!(board.data().is_empty());
        assert!(board.iter().is_empty());
        assert_eq!(board.get((0, 0)), None);
        let next = board.next();
        assert_eq!(next.size(), &[width, height]);
        assert!(next.data().is_empty());
    }
}

#[test]
fn neighbors_on_narrow_boards() {
    let single = board_with(1, 1, &[(0, 0)]);
    assert_eq!(single.live_neighbors((0, 0)), 0);

    let column = board_with(1, 3, &[(0, 0), (1, 0), (2, 0)]);
    assert_eq!(column.live_neighbors((0, 0)), 1);
    assert_eq!(column.live_neighbors((1, 0)), 2);
    assert_eq!(column.live_neighbors((2, 0)), 1);

    let row = board_with(3, 1, &[(0, 0), (0, 1), (0, 2)]);
    assert_eq!(row.live_neighbors((0, 0)), 1);
    assert_eq!(row.live_neighbors((0, 1)), 2);
    assert_eq!(row.live_neighbors((0, 2)), 1);

    let square = board_with(2, 2, &[(0, 0), (0, 1), (1, 0), (1, 1)]);
    for pos in [(0, 0), (0, 1), (1, 0), (1, 1)] {
        assert_eq!(square.live_neighbors(pos), 3);
    }
}

#[test]
fn neighbors_of_a_full_board() {
    let mut board = Board::new(4, 5);
    for y in 0..5 {
        for x in 0..4 {
            board[(y, x)] = true;
        }
    }
    assert_eq!(board.live_neighbors((0, 0)), 3);
    assert_eq!(board.live_neighbors((0, 3)), 3);
    assert_eq!(board.live_neighbors((4, 0)), 3);
    assert_eq!(board.live_neighbors((4, 3)), 3);
    assert_eq!(board.live_neighbors((0, 2)), 5);
    assert_eq!(board.live_neighbors((2, 0)), 5);
    assert_eq!(board.live_neighbors((4, 1)), 5);
    assert_eq!(board.live_neighbors((3, 3)), 5);
    assert_eq!(board.live_neighbors((2, 2)), 8);
}

#[test]
fn rows_are_clamped_at_the_height() {
    // Wider than tall: row 2 is the last row, though not the last column.
    let wide = board_with(5, 3, &[(0, 1), (1, 1), (2, 0)]);
    assert_eq!(wide.live_neighbors((2, 1)), 2);
    assert_eq!(wide.live_neighbors((1, 0)), 3);
    // Taller than wide: row 2 is where the width would end, but rows go on.
    let tall = board_with(3, 5, &[(1, 1), (3, 1), (4, 1)]);
    assert_eq!(tall.live_neighbors((2, 1)), 2);
    assert_eq!(tall.live_neighbors((2, 0)), 2);
    assert_eq!(tall.live_neighbors((4, 0)), 2);
    assert_eq!(tall.live_neighbors((3, 2)), 2);
}

#[test]
fn blinker_has_period_two() {
    let start = board_with(3, 3, &[(1, 0), (1, 1), (1, 2)]);
    let once = start.next();
    assert_eq!(alive_cells(&once), vec![(0, 1), (1, 1), (2, 1)]);
    let twice = once.next();
    assert_eq!(alive_cells(&twice), vec![(1, 0), (1, 1), (1, 2)]);
}

#[test]
fn block_is_a_still_life() {
    let block = [(0, 0), (0, 1), (1, 0), (1, 1)];
    for (width, height) in [(3, 3), (3, 6), (7, 4)] {
        let board = board_with(width, height, &block);
        let next = board.next();
        assert_eq!(next.size(), board.size());
        assert_eq!(next.data(), board.data());
    }
}

#[test]
fn next_keeps_the_dimensions() {
    let board = board_with(7, 2, &[(0, 0), (1, 6), (1, 5)]);
    assert_eq!(board.next().size(), &[7, 2]);
}

#[test]
fn next_leaves_the_board_alone_and_repeats_itself() {
    let board = board_with(4, 4, &[(1, 1), (1, 2), (2, 1), (3, 3)]);
    let before = board.data().clone();
    let first = board.next();
    let second = board.clone().next();
    assert_eq!(board.data(), &before);
    assert_eq!(first.size(), second.size());
    assert_eq!(first.data(), second.data());
}

#[test]
fn rule_of_birth_and_survival() {
    // A dead cell with three live neighbors is born.
    let birth = board_with(3, 3, &[(0, 0), (0, 1), (0, 2)]);
    assert_eq!(birth.next().get((1, 1)), Some(true));
    // A live cell with two or three live neighbors lives on.
    let two = board_with(3, 3, &[(1, 1), (0, 0), (2, 2)]);
    assert_eq!(two.next().get((1, 1)), Some(true));
    let three = board_with(3, 3, &[(1, 1), (0, 0), (2, 2), (0, 2)]);
    assert_eq!(three.next().get((1, 1)), Some(true));
    // A dead cell with two live neighbors stays dead.
    let dead = board_with(3, 3, &[(0, 0), (2, 2)]);
    assert_eq!(dead.next().get((1, 1)), Some(false));
    // A live cell with fewer than two or more than three live neighbors dies.
    let lonely = board_with(3, 3, &[(1, 1), (0, 0)]);
    assert_eq!(lonely.next().get((1, 1)), Some(false));
    let crowded = board_with(3, 3, &[(1, 1), (0, 0), (0, 1), (0, 2), (1, 0)]);
    assert_eq!(crowded.next().get((1, 1)), Some(false));
}

#[test]
fn next_reads_the_board_before_the_step() {
    // A glider, one generation on.
    let glider = board_with(5, 5, &[(0, 1), (1, 2), (2, 0), (2, 1), (2, 2)]);
    assert_eq!(alive_cells(&glider.next()), vec![(1, 0), (1, 2), (2, 1), (2, 2), (3, 1)]);
}

#[test]
fn boards_narrower_than_two_die() {
    let single = board_with(1, 1, &[(0, 0)]);
    assert_eq!(single.next().data(), &vec![false]);
    let column = board_with(1, 4, &[(0, 0), (1, 0), (2, 0), (3, 0)]);
    assert_eq!(column.next().data(), &vec![false, true, true, false]);
}

#[test]
fn shrinking_keeps_the_top_left() {
    let board = board_with(4, 4, &[(0, 0), (3, 3)]);
    let small = board.resize(2, 2);
    assert_eq!(small.size(), &[2, 2]);
    assert_eq!(alive_cells(&small), vec![(0, 0)]);
}

#[test]
fn growing_leaves_new_cells_dead() {
    let board = board_with(2, 2, &[(0, 0), (0, 1), (1, 0), (1, 1)]);
    let large = board.resize(4, 4);
    assert_eq!(large.size(), &[4, 4]);
    assert_eq!(alive_cells(&large), vec![(0, 0), (0, 1), (1, 0), (1, 1)]);
}

#[test]
fn resize_keeps_the_overlap() {
    let mut board = Board::new(4, 3);
    for y in 0..3 {
        for x in 0..4 {
            board[(y, x)] = (y + x) % 2 == 0;
        }
    }
    for (width, height) in [(2, 5), (6, 2), (4, 3), (1, 1), (9, 9)] {
        let resized = board.resize(width, height);
        assert_eq!(resized.size(), &[width, height]);
        for y in 0..height {
            for x in 0..width {
                let expected = if y < 3 && x < 4 { board[(y, x)] } else { false };
                assert_eq!(resized.get((y, x)), Some(expected));
            }
        }
    }
}

#[test]
fn resize_to_the_same_size_changes_nothing() {
    let board = board_with(5, 4, &[(0, 4), (3, 0), (2, 2)]);
    let same = board.resize(5, 4);
    assert_eq!(same.size(), board.size());
    assert_eq!(same.data(), board.data());
}

#[test]
fn resize_to_nothing_and_back() {
    let board = board_with(3, 3, &[(1, 1)]);
    let none = board.resize(0, 3);
    assert_eq!(none.size(), &[0, 3]);
    assert!(none.data().is_empty());
    let back = none.resize(3, 3);
    assert_eq!(back.data(), &vec![false; 9]);
}

#[test]
fn resize_leaves_the_board_alone() {
    let board = board_with(3, 3, &[(2, 2)]);
    let _small = board.resize(1, 1);
    assert_eq!(alive_cells(&board), vec![(2, 2)]);
}
