use tile_bloom::grid::{layout_tiles, TileColor, TileTransform, TILE_COUNT};
use tile_bloom::jitter::{contraction, jitter_tiles, DRAW_HALF_RANGE};
use tile_bloom::ONE;

fn start() -> TileTransform {
    TileTransform { translation_x: -324 * ONE, translation_y: 576 * ONE, scale_x: ONE, scale_y: ONE }
}

#[test]
fn jitter_moves_scale_and_translation_alike() {
    // a draw of r = 0.3 is 300_000; r / 15 = 0.02 is 300_000 units
    let mut t = start();
    t.jitter(300_000);
    assert_eq!(t.scale_x, ONE - 300_000);
    assert_eq!(t.scale_y, ONE - 300_000);
    assert_eq!(t.translation_x, -324 * ONE - 300_000);
    assert_eq!(t.translation_y, 576 * ONE - 300_000);
    assert_eq!((300_000f64 / ONE as f64 - 0.3 / 15.0).abs() < 1e-12, true);
}

#[test]
fn negative_draw_grows_tile() {
    let mut t = start();
    t.jitter(-DRAW_HALF_RANGE);
    assert_eq!(t.scale_x, ONE + DRAW_HALF_RANGE);
    assert_eq!(t.translation_y, 576 * ONE + DRAW_HALF_RANGE);
}

#[test]
fn opposite_draws_cancel() {
    let mut t = start();
    t.jitter(123_456);
    t.jitter(-123_456);
    assert_eq!(t, start());
}

#[test]
fn jitter_tiles_uses_each_draw() {
    let mut tiles = layout_tiles(720, 1280, &vec![TileColor::Shigoku; TILE_COUNT]);
    let before = tiles.clone();
    let draws: Vec<i64> = (0..TILE_COUNT as i64).map(|i| i * 1000 - 50_000).collect();
    jitter_tiles(&mut tiles, &draws);
    for i in 0..TILE_COUNT {
        let (a, b) = (tiles[i], before[i]);
        assert_eq!(a.transform.scale_x, b.transform.scale_x - draws[i]);
        assert_eq!(a.transform.translation_x, b.transform.translation_x - draws[i]);
        assert_eq!((a.row, a.col, a.width, a.height, a.color), (b.row, b.col, b.width, b.height, b.color));
    }
}

#[test]
fn contraction_one_draw_per_tile() {
    let mut tiles = layout_tiles(720, 1280, &vec![TileColor::Karakurenai; TILE_COUNT]);
    let before = tiles.clone();
    contraction(&mut tiles);
    assert_eq!(tiles.len(), before.len());
    for i in 0..TILE_COUNT {
        let (a, b) = (tiles[i].transform, before[i].transform);
        let d = b.scale_x - a.scale_x;
        assert!(-DRAW_HALF_RANGE <= d && d < DRAW_HALF_RANGE);
        assert_eq!(b.scale_y - a.scale_y, d);
        assert_eq!(b.translation_x - a.translation_x, d);
        assert_eq!(b.translation_y - a.translation_y, d);
    }
}

#[test]
fn jitters_accumulate_linearly() {
    let mut twice = start();
    twice.jitter(200_000);
    twice.jitter(-450_000);
    let mut once = start();
    once.jitter(-250_000);
    assert_eq!(twice, once);
    assert_eq!(once.scale_x, ONE + 250_000);
}
