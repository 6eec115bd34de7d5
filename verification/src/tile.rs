//! Tile classification: a bounded random draw picks a terrain band, and the
//! band picks a height rule.
//!
//! Heights are in millis (thousandths of a world unit). The boundary
//! handling is deliberate and preserved exactly: a draw of `0` falls into
//! the rarest band together with draws of `7` to `9`, because the common
//! band covers `1` to `4` only.

use vstd::prelude::*;

verus! {

/// Height of every plain tile, in millis.
pub const PLAIN_HEIGHT_MILLI: i64 = 50;

/// Base height of a rough tile, in millis; the jitter spans half of it on
/// each side.
pub const ROUGH_BASE_MILLI: i64 = 100;

/// Base height of a hill tile, in millis; the jitter spans half of it on
/// each side.
pub const HILL_BASE_MILLI: i64 = 200;

/// The terrain band of a tile. Plain tiles are the common band and double
/// as water; hills are the rare band.
#[derive(Clone, Copy, Debug, PartialEq, Eq, Structural, Hash)]
pub enum TileCategory {
    Plain,
    Rough,
    Hill,
}

/// The band a draw in `[0, 10)` falls into: `1..=4` is plain, `5..=6` is
/// rough, and both `0` and `7..=9` are hill.
pub open spec fn classify_spec(draw: u64) -> TileCategory {
    if 1 <= draw < 5 {
        TileCategory::Plain
    } else if 5 <= draw < 7 {
        TileCategory::Rough
    } else {
        TileCategory::Hill
    }
}

/// Whether tiles of this band are tagged as water for downstream ripple
/// animation: exactly the plain band.
pub open spec fn is_water(c: TileCategory) -> bool {
    c is Plain
}

/// Width, in millis, of the half-open jitter interval of a band; a plain
/// tile takes no jitter draw at all.
pub open spec fn jitter_span(c: TileCategory) -> u64 {
    match c {
        TileCategory::Plain => 0,
        TileCategory::Rough => 100,
        TileCategory::Hill => 200,
    }
}

/// The height, in millis, of a tile of band `c` with jitter draw `j` taken
/// uniformly from `[0, jitter_span(c))`: plain tiles have a fixed height,
/// the other bands sit at their base plus a jitter centered on zero.
pub open spec fn height_spec(c: TileCategory, j: u64) -> int {
    match c {
        TileCategory::Plain => PLAIN_HEIGHT_MILLI as int,
        TileCategory::Rough => ROUGH_BASE_MILLI + j - 50,
        TileCategory::Hill => HILL_BASE_MILLI + j - 100,
    }
}

/// Whether `h` is a height some tile of band `c` can have.
pub open spec fn height_in_band(c: TileCategory, h: int) -> bool {
    match c {
        TileCategory::Plain => h == PLAIN_HEIGHT_MILLI,
        TileCategory::Rough => 50 <= h < 150,
        TileCategory::Hill => 100 <= h < 300,
    }
}

/// Classify a bounded random draw into its terrain band: `0` and `7..=9`
/// are hill, `1..=4` plain, `5..=6` rough.
pub fn classify(draw: u64) -> (c: TileCategory)
    requires
        draw < 10,
    ensures
        c == classify_spec(draw),
        draw == 0 ==> c is Hill,
        1 <= draw < 5 ==> c is Plain,
        5 <= draw < 7 ==> c is Rough,
        7 <= draw < 10 ==> c is Hill,
{
    if draw > 0 && draw < 5 {
        TileCategory::Plain
    } else if draw >= 5 && draw < 7 {
        TileCategory::Rough
    } else {
        TileCategory::Hill
    }
}

/// The height, in millis, of a tile of band `c` given its jitter draw.
pub fn tile_height(c: TileCategory, jitter: u64) -> (h: i64)
    requires
        jitter < jitter_span(c) || (c is Plain && jitter == 0),
    ensures
        h == height_spec(c, jitter),
        height_in_band(c, h as int),
{
    match c {
        TileCategory::Plain => PLAIN_HEIGHT_MILLI,
        TileCategory::Rough => ROUGH_BASE_MILLI + (jitter as i64) - 50,
        TileCategory::Hill => HILL_BASE_MILLI + (jitter as i64) - 100,
    }
}

} // verus!
