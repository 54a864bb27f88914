//! The grid of tiles that covers the window: ten cells along each axis,
//! each tile a margin smaller than its cell and centred in it.
use crate::random::draw_in;
use crate::ONE;
use vstd::prelude::*;

verus! {

/// The number of cells along each axis of the window.
pub const CELLS_PER_AXIS: usize = 10;

/// The number of tiles in the grid.
pub const TILE_COUNT: usize = 100;

/// What is taken off a cell's width and height to give its tile's size: ten pixels.
pub const MARGIN: i64 = 10 * ONE;

/// The two colours a tile may have.
#[derive(Clone, Copy, Debug, PartialEq, Eq, Structural)]
pub enum TileColor {
    /// Deep red.
    Karakurenai,
    /// Dark purple.
    Shigoku,
}

/// A colour as red, green and blue bytes.
#[derive(Clone, Copy, Debug, PartialEq, Eq, Structural)]
pub struct Rgb {
    pub r: u8,
    pub g: u8,
    pub b: u8,
}

impl TileColor {
    pub open spec fn spec_rgb(self) -> Rgb {
        match self {
            TileColor::Karakurenai => Rgb { r: 244, g: 0, b: 25 },
            TileColor::Shigoku => Rgb { r: 45, g: 4, b: 37 },
        }
    }

    /// The colour's red, green and blue bytes.
    pub fn rgb(self) -> (c: Rgb)
        ensures
            c == self.spec_rgb(),
    {
        match self {
            TileColor::Karakurenai => Rgb { r: 244, g: 0, b: 25 },
            TileColor::Shigoku => Rgb { r: 45, g: 4, b: 37 },
        }
    }

    /// The palette colour with the given index: 0 for deep red, 1 for dark purple.
    pub fn from_index(index: i64) -> (c: TileColor)
        requires
            0 <= index < 2,
        ensures
            c == (if index == 0 {
                TileColor::Karakurenai
            } else {
                TileColor::Shigoku
            }),
    {
        if index == 0 {
            TileColor::Karakurenai
        } else {
            TileColor::Shigoku
        }
    }
}

/// Where a tile stands and how large it is drawn: a translation of its centre
/// from the window's centre (y upwards) and a scale on each axis.
#[derive(Clone, Copy, Debug, PartialEq, Eq, Structural)]
pub struct TileTransform {
    pub translation_x: i64,
    pub translation_y: i64,
    pub scale_x: i64,
    pub scale_y: i64,
}

/// One tile of the grid.
#[derive(Clone, Copy, Debug, PartialEq, Eq, Structural)]
pub struct Tile {
    pub row: usize,
    pub col: usize,
    pub width: i64,
    pub height: i64,
    pub color: TileColor,
    pub transform: TileTransform,
}

/// A window length of `pixels` pixels, in fixed-point units.
pub open spec fn window_len(pixels: int) -> int {
    pixels * ONE
}

/// The length of a cell along an axis of `pixels` pixels: a tenth of it.
pub open spec fn cell_len(pixels: int) -> int {
    window_len(pixels) / 10
}

/// How many whole cells fit along an axis of `pixels` pixels.
pub open spec fn cells_along(pixels: int) -> int {
    window_len(pixels) / cell_len(pixels)
}

/// The x of the centre of the tiles in column `col`, for a window `width` pixels wide.
pub open spec fn tile_center_x(width: int, col: int) -> int {
    -(window_len(width) / 2) + cell_len(width) / 2 + col * cell_len(width)
}

/// The y of the centre of the tiles in row `row`, for a window `height` pixels high.
pub open spec fn tile_center_y(height: int, row: int) -> int {
    window_len(height) / 2 - cell_len(height) / 2 - row * cell_len(height)
}

/// `t` is the tile at `row` and `col` of the grid for a window of
/// `width` by `height` pixels, at its starting place and scale.
pub open spec fn tile_placed(t: Tile, width: int, height: int, row: int, col: int) -> bool {
    &&& t.row == row
    &&& t.col == col
    &&& t.width == cell_len(width) - MARGIN
    &&& t.height == cell_len(height) - MARGIN
    &&& t.transform.translation_x == tile_center_x(width, col)
    &&& t.transform.translation_y == tile_center_y(height, row)
    &&& t.transform.scale_x == ONE
    &&& t.transform.scale_y == ONE
}

/// The length of a cell along an axis of `pixels` pixels.
pub fn cell_size(pixels: u32) -> (r: i64)
    ensures
        r == cell_len(pixels as int),
        r == pixels * (ONE / 10),
{
    pixels as i64 * (ONE / 10)
}

/// The number of whole cells along an axis of `pixels` pixels.
pub fn cell_count(pixels: u32) -> (r: usize)
    requires
        pixels > 0,
    ensures
        r == cells_along(pixels as int),
        r == CELLS_PER_AXIS,
{
    proof {
        lemma_cells_along(pixels as int);
    }
    let window = pixels as i64 * ONE;
    (window / cell_size(pixels)) as usize
}

/// Along any axis of a positive number of pixels, exactly ten cells fit.
pub proof fn lemma_cells_along(pixels: int)
    requires
        pixels > 0,
    ensures
        cell_len(pixels) == pixels * (ONE / 10),
        cells_along(pixels) == CELLS_PER_AXIS,
{
    let c = pixels * (ONE / 10);
    assert(window_len(pixels) == 10 * c) by (nonlinear_arith)
        requires
            c == pixels * (ONE / 10),
    ;
    assert(cell_len(pixels) == c);
    assert(c > 0) by (nonlinear_arith)
        requires
            pixels > 0,
            c == pixels * (ONE / 10),
    ;
    assert((10 * c) / c == 10) by (nonlinear_arith)
        requires
            c > 0,
    ;
}

/// For any window of positive width and height, the grid holds
/// `TILE_COUNT` tiles: ten rows of ten.
pub proof fn lemma_tile_count(width: int, height: int)
    requires
        width > 0,
        height > 0,
    ensures
        cells_along(height) * cells_along(width) == TILE_COUNT,
{
    lemma_cells_along(width);
    lemma_cells_along(height);
}

/// Along an axis of more than a hundred pixels a cell is larger than the
/// margin, so the tiles drawn there have a positive size.
pub proof fn lemma_tile_size_positive(pixels: int)
    requires
        pixels > 100,
    ensures
        cell_len(pixels) > MARGIN,
        cell_len(pixels) - MARGIN > 0,
{
    lemma_cells_along(pixels);
    assert(pixels * (ONE / 10) > 100 * (ONE / 10)) by (nonlinear_arith)
        requires
            pixels > 100,
    ;
}

/// Lays out the grid for a window of `width` by `height` pixels, giving the
/// tiles, row by row from the top and left to right, the colours in `colors`.
pub fn layout_tiles(width: u32, height: u32, colors: &Vec<TileColor>) -> (tiles: Vec<Tile>)
    requires
        width > 0,
        height > 0,
        colors@.len() == TILE_COUNT,
    ensures
        tiles@.len() == cells_along(height as int) * cells_along(width as int),
        tiles@.len() == TILE_COUNT,
        forall|i: int|
            0 <= i < TILE_COUNT ==> {
                &&& tile_placed(
                    #[trigger] tiles@[i],
                    width as int,
                    height as int,
                    i / 10,
                    i % 10,
                )
                &&& tiles@[i].color == colors@[i]
            },
{
    proof {
        lemma_tile_count(width as int, height as int);
    }
    let cell_w = cell_size(width);
    let cell_h = cell_size(height);
    let rows = cell_count(height);
    let cols = cell_count(width);
    let half_w = width as i64 * ONE / 2;
    let half_h = height as i64 * ONE / 2;
    let mut tiles: Vec<Tile> = Vec::new();
    let mut y_offset: i64 = cell_h / 2;
    let mut row: usize = 0;
    while row < rows
        invariant
            rows == 10,
            cols == 10,
            row <= rows,
            colors@.len() == TILE_COUNT,
            cell_w == cell_len(width as int),
            cell_h == cell_len(height as int),
            cell_w == width * (ONE / 10),
            cell_h == height * (ONE / 10),
            half_w == window_len(width as int) / 2,
            half_h == window_len(height as int) / 2,
            y_offset == cell_h / 2 + row * cell_h,
            tiles@.len() == row * 10,
            forall|i: int|
                0 <= i < tiles@.len() ==> {
                    &&& tile_placed(
                        #[trigger] tiles@[i],
                        width as int,
                        height as int,
                        i / 10,
                        i % 10,
                    )
                    &&& tiles@[i].color == colors@[i]
                },
        decreases rows - row,
    {
        let mut x_offset: i64 = cell_w / 2;
        let mut col: usize = 0;
        while col < cols
            invariant
                rows == 10,
                cols == 10,
                row < rows,
                col <= cols,
                colors@.len() == TILE_COUNT,
                cell_w == cell_len(width as int),
                cell_h == cell_len(height as int),
                cell_w == width * (ONE / 10),
                cell_h == height * (ONE / 10),
                half_w == window_len(width as int) / 2,
                half_h == window_len(height as int) / 2,
                y_offset == cell_h / 2 + row * cell_h,
                x_offset == cell_w / 2 + col * cell_w,
                tiles@.len() == row * 10 + col,
                forall|i: int|
                    0 <= i < tiles@.len() ==> {
                        &&& tile_placed(
                            #[trigger] tiles@[i],
                            width as int,
                            height as int,
                            i / 10,
                            i % 10,
                        )
                        &&& tiles@[i].color == colors@[i]
                    },
            decreases cols - col,
        {
            proof {
                lemma_offset_bound(width as int, cell_w as int, col as int);
                lemma_offset_bound(height as int, cell_h as int, row as int);
            }
            let index = row * cols + col;
            let tile = Tile {
                row,
                col,
                width: cell_w - MARGIN,
                height: cell_h - MARGIN,
                color: colors[index],
                transform: TileTransform {
                    translation_x: x_offset - half_w,
                    translation_y: half_h - y_offset,
                    scale_x: ONE,
                    scale_y: ONE,
                },
            };
            tiles.push(tile);
            x_offset = x_offset + cell_w;
            col = col + 1;
        }
        proof {
            lemma_offset_bound(height as int, cell_h as int, row as int);
        }
        y_offset = y_offset + cell_h;
        row = row + 1;
    }
    tiles
}

/// Bounds an offset of `k` cells, with `k` at most ten, on an axis of `pixels` pixels.
proof fn lemma_offset_bound(pixels: int, cell: int, k: int)
    requires
        0 <= pixels <= u32::MAX,
        cell == pixels * (ONE / 10),
        0 <= k <= 10,
    ensures
        0 <= k * cell <= 10 * cell,
        (k + 1) * cell == k * cell + cell,
        10 * cell <= 10 * (u32::MAX * (ONE / 10)),
{
    assert(0 <= k * cell <= 10 * cell) by (nonlinear_arith)
        requires
            cell >= 0,
            0 <= k <= 10,
    ;
    assert((k + 1) * cell == k * cell + cell) by (nonlinear_arith);
    assert(cell <= u32::MAX * (ONE / 10)) by (nonlinear_arith)
        requires
            0 <= pixels <= u32::MAX,
            cell == pixels * (ONE / 10),
    ;
}

/// Lays out the grid for a window of `width` by `height` pixels, each tile
/// coloured by a fresh uniform draw from the two palette colours.
pub fn setup(width: u32, height: u32) -> (tiles: Vec<Tile>)
    requires
        width > 0,
        height > 0,
    ensures
        tiles@.len() == cells_along(height as int) * cells_along(width as int),
        tiles@.len() == TILE_COUNT,
        forall|i: int|
            0 <= i < TILE_COUNT ==> tile_placed(
                #[trigger] tiles@[i],
                width as int,
                height as int,
                i / 10,
                i % 10,
            ),
{
    let mut colors: Vec<TileColor> = Vec::new();
    let mut i: usize = 0;
    while i < TILE_COUNT
        invariant
            i <= TILE_COUNT,
            colors@.len() == i,
        decreases TILE_COUNT - i,
    {
        let index = draw_in(0, 2);
        colors.push(TileColor::from_index(index));
        i = i + 1;
    }
    layout_tiles(width, height, &colors)
}

} // verus!
