use tile_bloom::grid::{
    cell_count, cell_size, layout_tiles, setup, Rgb, TileColor, CELLS_PER_AXIS, MARGIN,
    TILE_COUNT,
};
use tile_bloom::ONE;

fn reds() -> Vec<TileColor> {
    vec![TileColor::Karakurenai; TILE_COUNT]
}

#[test]
fn end_to_end_720_by_1280() {
    let tiles = layout_tiles(720, 1280, &reds());
    assert_eq!(tiles.len(), 100);
    assert_eq!(cell_size(720), 72 * ONE);
    assert_eq!(cell_size(1280), 128 * ONE);
    let first = tiles[0];
    assert_eq!((first.row, first.col), (0, 0));
    assert_eq!(first.width, 62 * ONE);
    assert_eq!(first.height, 118 * ONE);
    assert_eq!(first.transform.translation_x, -324 * ONE);
    assert_eq!(first.transform.translation_y, 576 * ONE);
    assert_eq!(first.transform.scale_x, ONE);
    assert_eq!(first.transform.scale_y, ONE);
    let last = tiles[99];
    assert_eq!((last.row, last.col), (9, 9));
    assert_eq!(last.transform.translation_x, 324 * ONE);
    assert_eq!(last.transform.translation_y, -576 * ONE);
    let second = tiles[1];
    assert_eq!((second.row, second.col), (0, 1));
    assert_eq!(second.transform.translation_x, -252 * ONE);
    assert_eq!(second.transform.translation_y, 576 * ONE);
    let below = tiles[10];
    assert_eq!((below.row, below.col), (1, 0));
    assert_eq!(below.transform.translation_x, -324 * ONE);
    assert_eq!(below.transform.translation_y, 448 * ONE);
}

#[test]
fn tile_count_is_resolution_invariant() {
    for &(w, h) in &[(720u32, 1280u32), (733, 1019), (1, 1), (7, 3), (1920, 1080), (u32::MAX, u32::MAX)] {
        assert_eq!(cell_count(w), CELLS_PER_AXIS);
        assert_eq!(cell_count(h), CELLS_PER_AXIS);
        let tiles = setup(w, h);
        assert_eq!(tiles.len(), 100);
        for (i, t) in tiles.iter().enumerate() {
            assert_eq!(t.row, i / 10);
            assert_eq!(t.col, i % 10);
        }
    }
}

#[test]
fn tile_size_is_cell_less_margin() {
    let tiles = layout_tiles(733, 1019, &reds());
    assert_eq!(cell_size(733), 1_099_500_000);
    for t in &tiles {
        assert_eq!(t.width, 1_099_500_000 - MARGIN);
        assert_eq!(t.height, 1019 * ONE / 10 - 10 * ONE);
        assert!(t.width > 0 && t.height > 0);
    }
    // 73.3 px cells centred from the left edge at -366.5 px
    assert_eq!(tiles[0].transform.translation_x, -366 * ONE - ONE / 2 + 1_099_500_000 / 2);
}

#[test]
fn layout_keeps_given_colors() {
    let mut colors = reds();
    colors[3] = TileColor::Shigoku;
    colors[57] = TileColor::Shigoku;
    let tiles = layout_tiles(720, 1280, &colors);
    for (i, t) in tiles.iter().enumerate() {
        assert_eq!(t.color, colors[i]);
    }
}

#[test]
fn palette_colors() {
    assert_eq!(TileColor::Karakurenai.rgb(), Rgb { r: 244, g: 0, b: 25 });
    assert_eq!(TileColor::Shigoku.rgb(), Rgb { r: 45, g: 4, b: 37 });
    assert_eq!(TileColor::from_index(0), TileColor::Karakurenai);
    assert_eq!(TileColor::from_index(1), TileColor::Shigoku);
}

#[test]
fn both_palette_colors_appear() {
    let mut red = 0;
    let mut purple = 0;
    for _ in 0..3 {
        for t in setup(720, 1280) {
            let c = t.color.rgb();
            assert!(c == Rgb { r: 244, g: 0, b: 25 } || c == Rgb { r: 45, g: 4, b: 37 });
            match t.color {
                TileColor::Karakurenai => red += 1,
                TileColor::Shigoku => purple += 1,
            }
        }
    }
    assert_eq!(red + purple, 300);
    assert!(red > 0 && purple > 0);
}
