//! The per-frame jitter of the tiles: each frame every tile draws a value `r`
//! in `[-0.5, 0.5)` and loses `r / 15` from its scale and its translation on
//! both axes.
//!
//! A draw `d` in `-DRAW_HALF_RANGE .. DRAW_HALF_RANGE` stands for
//! `r = d / 1_000_000`, so that `r / 15` is exactly `d` fixed-point units.
use crate::grid::{Tile, TileTransform};
use crate::random::draw_in;
use vstd::prelude::*;

verus! {

/// Draws lie in `-DRAW_HALF_RANGE .. DRAW_HALF_RANGE`.
pub const DRAW_HALF_RANGE: i64 = 500_000;

/// `d` is a possible draw.
pub open spec fn valid_draw(d: int) -> bool {
    -DRAW_HALF_RANGE <= d < DRAW_HALF_RANGE
}

/// A coordinate that any draw can move without leaving `i64`.
pub open spec fn jitter_room(v: int) -> bool {
    i64::MIN + DRAW_HALF_RANGE <= v <= i64::MAX - DRAW_HALF_RANGE
}

impl TileTransform {
    /// Every field can take one more jitter.
    pub open spec fn can_jitter(self) -> bool {
        &&& jitter_room(self.translation_x as int)
        &&& jitter_room(self.translation_y as int)
        &&& jitter_room(self.scale_x as int)
        &&& jitter_room(self.scale_y as int)
    }

    /// `self` is `before` after a jitter by `d` units: both scales and both
    /// translations lose `d`.
    pub open spec fn jittered_from(self, before: TileTransform, d: int) -> bool {
        &&& self.scale_x == before.scale_x - d
        &&& self.scale_y == before.scale_y - d
        &&& self.translation_x == before.translation_x - d
        &&& self.translation_y == before.translation_y - d
    }

    /// Shrinks and shifts the transform by the jitter of the draw `draw`.
    pub fn jitter(&mut self, draw: i64)
        requires
            old(self).can_jitter(),
            valid_draw(draw as int),
        ensures
            final(self).jittered_from(*old(self), draw as int),
    {
        self.scale_x = self.scale_x - draw;
        self.scale_y = self.scale_y - draw;
        self.translation_x = self.translation_x - draw;
        self.translation_y = self.translation_y - draw;
    }
}

/// Every tile of `tiles` can take one more jitter.
pub open spec fn all_can_jitter(tiles: Seq<Tile>) -> bool {
    forall|i: int| 0 <= i < tiles.len() ==> (#[trigger] tiles[i]).transform.can_jitter()
}

/// `after` is the tile `before` with its transform jittered by `d` units and
/// nothing else changed.
pub open spec fn tile_jittered(after: Tile, before: Tile, d: int) -> bool {
    &&& after.transform.jittered_from(before.transform, d)
    &&& after.row == before.row
    &&& after.col == before.col
    &&& after.width == before.width
    &&& after.height == before.height
    &&& after.color == before.color
}

/// Jitters tile `i` by `draws[i]`, for every tile.
pub fn jitter_tiles(tiles: &mut Vec<Tile>, draws: &Vec<i64>)
    requires
        old(tiles)@.len() == draws@.len(),
        all_can_jitter(old(tiles)@),
        forall|i: int| 0 <= i < draws@.len() ==> valid_draw(#[trigger] draws@[i] as int),
    ensures
        final(tiles)@.len() == old(tiles)@.len(),
        forall|i: int|
            0 <= i < old(tiles)@.len() ==> tile_jittered(
                #[trigger] final(tiles)@[i],
                old(tiles)@[i],
                draws@[i] as int,
            ),
{
    let n = tiles.len();
    let mut i: usize = 0;
    while i < n
        invariant
            n == tiles@.len(),
            n == draws@.len(),
            i <= n,
            old(tiles)@.len() == n,
            all_can_jitter(old(tiles)@),
            forall|k: int| 0 <= k < draws@.len() ==> valid_draw(#[trigger] draws@[k] as int),
            forall|k: int|
                0 <= k < i ==> tile_jittered(
                    #[trigger] tiles@[k],
                    old(tiles)@[k],
                    draws@[k] as int,
                ),
            forall|k: int| i <= k < n ==> #[trigger] tiles@[k] == old(tiles)@[k],
        decreases n - i,
    {
        let mut tile = tiles[i];
        tile.transform.jitter(draws[i]);
        tiles.set(i, tile);
        i = i + 1;
    }
}

/// One frame of jitter: every tile draws its own value and is jittered by it.
/// Each tile's transform loses the same amount `d`, a possible draw, from its
/// two scales and its two translations; nothing else changes.
pub fn contraction(tiles: &mut Vec<Tile>)
    requires
        all_can_jitter(old(tiles)@),
    ensures
        final(tiles)@.len() == old(tiles)@.len(),
        forall|i: int|
            0 <= i < old(tiles)@.len() ==> {
                let d = old(tiles)@[i].transform.scale_x - final(tiles)@[i].transform.scale_x;
                &&& valid_draw(d)
                &&& tile_jittered(#[trigger] final(tiles)@[i], old(tiles)@[i], d)
            },
{
    let mut draws: Vec<i64> = Vec::new();
    let n = tiles.len();
    let mut i: usize = 0;
    while i < n
        invariant
            n == tiles@.len(),
            i <= n,
            draws@.len() == i,
            forall|k: int| 0 <= k < i ==> valid_draw(#[trigger] draws@[k] as int),
        decreases n - i,
    {
        draws.push(draw_in(-DRAW_HALF_RANGE, DRAW_HALF_RANGE));
        i = i + 1;
    }
    jitter_tiles(tiles, &draws);
}

/// Jitter accumulates linearly: a jitter by `d1` followed by one by `d2` is
/// a jitter by `d1 + d2`; so a jitter by `d` followed by one by `-d`, which
/// is as likely a draw, returns the transform to where it was.
pub proof fn lemma_jitters_accumulate(
    start: TileTransform,
    middle: TileTransform,
    end: TileTransform,
    d1: int,
    d2: int,
)
    requires
        middle.jittered_from(start, d1),
        end.jittered_from(middle, d2),
    ensures
        end.jittered_from(start, d1 + d2),
        d2 == -d1 ==> end == start,
{
}

} // verus!
