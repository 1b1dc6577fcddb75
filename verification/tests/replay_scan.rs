use sync_2048::replay::scan_history;

type Cell = Option<(usize, usize)>;

fn board(cells: Vec<Cell>) -> Vec<Vec<Cell>> {
    // One row is enough: the scan reads every cell of every row.
    vec![cells]
}

#[test]
fn empty_history_scans_to_zero()
{
    let r = scan_history(&vec![]);
    assert_eq!(r.highest_block, 0);
    assert_eq!(r.times_found, 0);
    assert_eq!(r.first_turn, 0);
}

#[test]
fn peak_is_tracked_across_intermediate_boards() {
    // A 512 tile peaks mid-game and is then merged away.
    let history = vec![
        board(vec![Some((256, 1)), Some((256, 2))]),
        board(vec![Some((512, 3)), None]),
        board(vec![Some((64, 4)), None]),
    ];
    let r = scan_history(&history);
    assert_eq!(r.highest_block, 512);
    assert_eq!(r.times_found, 0);
    assert_eq!(r.first_turn, 0);
}

#[test]
fn persisting_tile_is_counted_once() {
    // The same tile identity carries 2048 across three boards.
    let history = vec![
        board(vec![Some((1024, 9)), None]),
        board(vec![Some((2048, 5)), None]),
        board(vec![Some((2048, 5)), Some((4, 6))]),
        board(vec![Some((2048, 5)), Some((8, 7))]),
    ];
    let r = scan_history(&history);
    assert_eq!(r.times_found, 1);
    // 1-based index of the first board with a 2048 tile.
    assert_eq!(r.first_turn, 2);
    assert_eq!(r.highest_block, 2048);
}

#[test]
fn distinct_tiles_are_counted_separately() {
    let history = vec![
        board(vec![Some((2048, 5)), None]),
        board(vec![Some((2048, 5)), Some((2048, 6))]),
        board(vec![Some((4096, 7)), Some((2048, 6))]),
    ];
    let r = scan_history(&history);
    assert_eq!(r.times_found, 2);
    assert_eq!(r.first_turn, 1);
    assert_eq!(r.highest_block, 4096);
}

#[test]
fn reappearing_identity_is_not_recounted() {
    // Tile 5 reaches 2048, drops out of sight, and shows again later.
    let history = vec![
        board(vec![Some((2048, 5))]),
        board(vec![None]),
        board(vec![Some((2048, 5))]),
    ];
    let r = scan_history(&history);
    assert_eq!(r.times_found, 1);
    assert_eq!(r.first_turn, 1);
}
