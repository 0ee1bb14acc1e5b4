//! The layout of the tiles of a map: where each tile is drawn, which cell
//! of the tile sheet it shows, and which corners make its two triangles.

use vstd::prelude::*;
use crate::units::UNIT;

verus! {

/// The length of a tile's side in the world: 32 world units.
pub const TILE_SIZE: i32 = 32 * UNIT;

/// The number of tiles side by side in the tile sheet.
pub const ATLAS_COLUMNS: u32 = 17;

/// The number of tiles one above the other in the tile sheet.
pub const ATLAS_ROWS: u32 = 12;

/// The largest number of tiles in one layer: with four corners to the
/// tile, more would not leave every corner a 16-bit index. The number of
/// rows has no limit.
pub const MAX_TILES: usize = 16383;

/// One tile of a layer, as it is drawn: a square in the world that shows
/// one cell of the tile sheet.
#[derive(Clone, Copy, Debug, PartialEq, Eq, Structural)]
pub struct Quad {
    /// The lower-left corner of the square in the world, in sub-units. A
    /// layer can have more rows than a narrower integer could place.
    pub x: i128,
    pub y: i128,
    /// The cell of the tile sheet, counted from its upper-left cell.
    pub atlas_col: u32,
    pub atlas_row: u32,
    /// The index of the first of the square's four corners among the
    /// corners of the whole layer.
    pub offset: u16,
}

/// One corner of a tile: its place in the world, and its place in the tile
/// sheet, counted in cells from the sheet's upper-left corner.
#[derive(Clone, Copy, Debug, PartialEq, Eq, Structural)]
pub struct Corner {
    pub x: i128,
    pub y: i128,
    pub atlas_x: u32,
    pub atlas_y: u32,
}

/// The tile with the number `tile`, which is at least 1, as it is drawn in
/// column `col` of the row that is `row` rows above the lowest, as tile
/// number `index` of its layer.
pub open spec fn quad_of(tile: u32, col: int, row: int, index: int) -> Quad {
    Quad {
        x: (col * TILE_SIZE) as i128,
        y: (row * TILE_SIZE) as i128,
        atlas_col: ((tile - 1) % (ATLAS_COLUMNS as int)) as u32,
        atlas_row: ((tile - 1) / (ATLAS_COLUMNS as int)) as u32,
        offset: (4 * index) as u16,
    }
}

/// The first `count` tiles of a row of tile numbers, from the left, where
/// `first` tiles of the layer come before the row.
pub open spec fn row_quads(tiles: Seq<u32>, count: int, row: int, first: int) -> Seq<Quad> {
    Seq::new(count as nat, |col: int| quad_of(tiles[col], col, row, first + col))
}

/// The number of tiles in the last `n` rows.
pub open spec fn tiles_in(rows: Seq<Vec<u32>>, n: int) -> int
    decreases n,
{
    if n <= 0 {
        0
    } else {
        tiles_in(rows, n - 1) + rows[rows.len() - n]@.len()
    }
}

/// The tiles of the last `n` rows as they are drawn: the last row first, at
/// the bottom of the world, and each row before it one tile higher.
pub open spec fn quads_of(rows: Seq<Vec<u32>>, n: int) -> Seq<Quad>
    decreases n,
{
    if n <= 0 {
        Seq::empty()
    } else {
        let row = rows[rows.len() - n]@;
        quads_of(rows, n - 1) + row_quads(row, row.len() as int, n - 1, tiles_in(rows, n - 1))
    }
}

/// Whether some place of the layer holds the tile number 0, which stands
/// for no tile.
pub open spec fn has_gap(rows: Seq<Vec<u32>>) -> bool {
    exists|i: int, j: int| 0 <= i < rows.len() && 0 <= j < rows[i]@.len() && #[trigger] rows[i]@[j] == 0
}

/// Whether a layer can be drawn: it has no gap and no more tiles than
/// `MAX_TILES`.
pub open spec fn drawable(rows: Seq<Vec<u32>>) -> bool {
    &&& !has_gap(rows)
    &&& tiles_in(rows, rows.len() as int) <= MAX_TILES
}

/// A layer is drawn with one square for each of its tiles.
pub proof fn lemma_one_quad_for_each_tile(rows: Seq<Vec<u32>>, n: int)
    requires
        0 <= n <= rows.len(),
    ensures
        quads_of(rows, n).len() == tiles_in(rows, n),
    decreases n,
{
    if n > 0 {
        lemma_one_quad_for_each_tile(rows, n - 1);
    }
}

/// The tile in column `col` of the row that is `row` rows above the lowest
/// is drawn after all the tiles of the rows below it and after `col` tiles
/// of its own row: as the square that `quad_of` gives for its number, its
/// column, its row and that place.
pub proof fn lemma_quad_of_tile(rows: Seq<Vec<u32>>, n: int, row: int, col: int)
    requires
        0 <= row < n <= rows.len(),
        0 <= col < rows[rows.len() - 1 - row]@.len(),
    ensures
        0 <= tiles_in(rows, row) + col < quads_of(rows, n).len(),
        quads_of(rows, n)[tiles_in(rows, row) + col] == quad_of(
            rows[rows.len() - 1 - row]@[col],
            col,
            row,
            tiles_in(rows, row) + col,
        ),
    decreases n,
{
    lemma_one_quad_for_each_tile(rows, n);
    lemma_one_quad_for_each_tile(rows, n - 1);
    lemma_tiles_in_grows(rows, row, n - 1);
    if row < n - 1 {
        lemma_quad_of_tile(rows, n - 1, row, col);
    }
}

/// In a layer of no more than `MAX_TILES` tiles the corners of the squares
/// are counted through: the square at place `k` has the corners `4 * k` to
/// `4 * k + 3`.
pub proof fn lemma_corners_are_counted_through(rows: Seq<Vec<u32>>, n: int, k: int)
    requires
        0 <= n <= rows.len(),
        tiles_in(rows, n) <= MAX_TILES,
        0 <= k < quads_of(rows, n).len(),
    ensures
        quads_of(rows, n)[k].offset == 4 * k,
    decreases n,
{
    lemma_one_quad_for_each_tile(rows, n);
    if n > 0 {
        lemma_one_quad_for_each_tile(rows, n - 1);
        lemma_tiles_in_grows(rows, n - 1, n);
        if k < tiles_in(rows, n - 1) {
            lemma_corners_are_counted_through(rows, n - 1, k);
        }
    }
}

/// The rows that are counted first hold no more tiles than all of them.
proof fn lemma_tiles_in_grows(rows: Seq<Vec<u32>>, n: int, m: int)
    requires
        0 <= n <= m <= rows.len(),
    ensures
        0 <= tiles_in(rows, n) <= tiles_in(rows, m),
    decreases m,
{
    if n < m {
        lemma_tiles_in_grows(rows, n, m - 1);
    } else if n > 0 {
        lemma_tiles_in_grows(rows, n - 1, n - 1);
    }
}

impl Quad {
    /// The square and its four corners lie within the range of the
    /// integers that hold them.
    pub open spec fn fits(self) -> bool {
        &&& self.x <= i128::MAX - TILE_SIZE
        &&& self.y <= i128::MAX - TILE_SIZE
        &&& self.atlas_col < u32::MAX
        &&& self.atlas_row < u32::MAX
        &&& self.offset <= u16::MAX - 3
    }

    /// Whether square and corners lie within range: see `fits`.
    pub fn does_fit(&self) -> (b: bool)
        ensures
            b == self.fits(),
    {
        self.x <= i128::MAX - TILE_SIZE as i128 && self.y <= i128::MAX - TILE_SIZE as i128
            && self.atlas_col
            < u32::MAX && self.atlas_row < u32::MAX && self.offset <= u16::MAX - 3
    }

    /// The four corners: lower left, lower right, upper left, upper
    /// right. The tile sheet is counted downwards, so the lower corners
    /// show the lower edge of the cell, which has the greater count.
    pub open spec fn corners(self) -> Seq<Corner> {
        seq![
            Corner { x: self.x, y: self.y, atlas_x: self.atlas_col, atlas_y: (self.atlas_row + 1) as u32 },
            Corner {
                x: (self.x + TILE_SIZE) as i128,
                y: self.y,
                atlas_x: (self.atlas_col + 1) as u32,
                atlas_y: (self.atlas_row + 1) as u32,
            },
            Corner {
                x: self.x,
                y: (self.y + TILE_SIZE) as i128,
                atlas_x: self.atlas_col,
                atlas_y: self.atlas_row,
            },
            Corner {
                x: (self.x + TILE_SIZE) as i128,
                y: (self.y + TILE_SIZE) as i128,
                atlas_x: (self.atlas_col + 1) as u32,
                atlas_y: self.atlas_row,
            },
        ]
    }

    /// The two triangles that make the square, as indices of its corners
    /// among the corners of the layer: lower left, lower right, upper
    /// right; then lower left, upper right, upper left.
    pub open spec fn triangles(self) -> Seq<u16> {
        seq![
            self.offset,
            (self.offset + 1) as u16,
            (self.offset + 3) as u16,
            self.offset,
            (self.offset + 3) as u16,
            (self.offset + 2) as u16,
        ]
    }

    /// The four corners of the square.
    pub fn vertices(&self) -> (corners: [Corner; 4])
        requires
            self.fits(),
        ensures
            corners@ == self.corners(),
    {
        let corners = [
            Corner { x: self.x, y: self.y, atlas_x: self.atlas_col, atlas_y: self.atlas_row + 1 },
            Corner {
                x: self.x + TILE_SIZE as i128,
                y: self.y,
                atlas_x: self.atlas_col + 1,
                atlas_y: self.atlas_row + 1,
            },
            Corner {
                x: self.x,
                y: self.y + TILE_SIZE as i128,
                atlas_x: self.atlas_col,
                atlas_y: self.atlas_row,
            },
            Corner {
                x: self.x + TILE_SIZE as i128,
                y: self.y + TILE_SIZE as i128,
                atlas_x: self.atlas_col + 1,
                atlas_y: self.atlas_row,
            },
        ];
        assert(corners@ =~= self.corners());
        corners
    }

    /// The two triangles of the square.
    pub fn indices(&self) -> (indices: [u16; 6])
        requires
            self.fits(),
        ensures
            indices@ == self.triangles(),
    {
        let o = self.offset;
        let indices = [o, o + 1, o + 3, o, o + 3, o + 2];
        assert(indices@ =~= self.triangles());
        indices
    }
}

/// Lays out the tiles of one layer, given as rows of tile numbers from the
/// top row to the bottom row. A layer that cannot be drawn is refused: one
/// with a gap, or with more than `MAX_TILES` tiles.
pub fn layer_quads(tiles: &Vec<Vec<u32>>) -> (quads: Option<Vec<Quad>>)
    ensures
        quads.is_some() <==> drawable(tiles@),
        quads matches Some(q) ==> {
            &&& q@ == quads_of(tiles@, tiles@.len() as int)
            &&& forall|k: int| 0 <= k < q@.len() ==> (#[trigger] q@[k]).fits()
        },
{
    let mut quads: Vec<Quad> = Vec::new();
    let mut n: usize = 0;
    while n < tiles.len()
        invariant
            n <= tiles.len(),
            quads@ == quads_of(tiles@, n as int),
            quads@.len() == tiles_in(tiles@, n as int),
            quads@.len() <= MAX_TILES,
            forall|k: int| 0 <= k < quads@.len() ==> (#[trigger] quads@[k]).fits(),
            forall|i: int, j: int|
                tiles.len() - n <= i < tiles.len() && 0 <= j < tiles@[i]@.len() ==> #[trigger] tiles@[i]@[j]
                    != 0,
        decreases tiles.len() - n,
    {
        let at: usize = tiles.len() - 1 - n;
        let row = &tiles[at];
        let ghost before = quads@;
        let ghost first = quads@.len() as int;
        proof {
            lemma_tiles_in_grows(tiles@, n as int + 1, tiles@.len() as int);
            assert(row_quads(row@, 0, n as int, first) =~= Seq::<Quad>::empty());
            assert(before + Seq::<Quad>::empty() =~= before);
        }
        if row.len() > MAX_TILES - quads.len() {
            return None;
        }
        let mut col: usize = 0;
        while col < row.len()
            invariant
                n < tiles.len(),
                at == tiles.len() - 1 - n,
                row@ == tiles@[at as int]@,
                col <= row.len(),
                first + row.len() <= MAX_TILES,
                before == quads_of(tiles@, n as int),
                first == before.len(),
                quads@ == before + row_quads(row@, col as int, n as int, first),
                forall|k: int| 0 <= k < quads@.len() ==> (#[trigger] quads@[k]).fits(),
                forall|j: int| 0 <= j < col ==> #[trigger] row@[j] != 0,
            decreases row.len() - col,
        {
            let tile = row[col];
            if tile == 0 {
                assert(tiles@[at as int]@[col as int] == 0);
                return None;
            }
            let cell = tile - 1;
            let index: usize = quads.len();
            let across: i128 = col as i128;
            let up: i128 = n as i128;
            let side: i128 = TILE_SIZE as i128;
            assert(0 <= across * side <= 16_383 * 32_000) by (nonlinear_arith)
                requires
                    0 <= across <= 16_383,
                    side == 32_000,
            ;
            assert(0 <= up * side <= 0xffff_ffff_ffff_ffff * 32_000) by (nonlinear_arith)
                requires
                    0 <= up <= 0xffff_ffff_ffff_ffff,
                    side == 32_000,
            ;
            let quad = Quad {
                x: across * side,
                y: up * side,
                atlas_col: cell % ATLAS_COLUMNS,
                atlas_row: cell / ATLAS_COLUMNS,
                offset: (4 * index) as u16,
            };
            quads.push(quad);
            proof {
                let done = row_quads(row@, col as int, n as int, first);
                let more = row_quads(row@, col as int + 1, n as int, first);
                assert(quad == quad_of(tile, col as int, n as int, first + col));
                assert(more =~= done.push(quad));
                assert(before + more =~= (before + done).push(quad));
            }
            col += 1;
        }
        proof {
            assert forall|i: int, j: int|
                tiles.len() - (n + 1) <= i < tiles.len() && 0 <= j < tiles@[i]@.len() implies #[trigger] tiles@[i]@[j]
                != 0 by {
                if i == at {
                    assert(row@[j] != 0);
                }
            }
        }
        n += 1;
    }
    Some(quads)
}

/// The corners of all the squares of a layer, square after square.
pub open spec fn mesh_corners(quads: Seq<Quad>) -> Seq<Corner> {
    Seq::new(4 * quads.len(), |i: int| quads[i / 4].corners()[i % 4])
}

/// The triangles of all the squares of a layer, square after square.
pub open spec fn mesh_triangles(quads: Seq<Quad>) -> Seq<u16> {
    Seq::new(6 * quads.len(), |i: int| quads[i / 6].triangles()[i % 6])
}

/// The mesh of a layer: the corners of its squares, four to the square, and
/// the triangles that are drawn between them, six indices to the square.
pub fn mesh(quads: &Vec<Quad>) -> (m: (Vec<Corner>, Vec<u16>))
    requires
        forall|k: int| 0 <= k < quads@.len() ==> (#[trigger] quads@[k]).fits(),
    ensures
        m.0@ == mesh_corners(quads@),
        m.1@ == mesh_triangles(quads@),
{
    let mut corners: Vec<Corner> = Vec::new();
    let mut triangles: Vec<u16> = Vec::new();
    let mut k: usize = 0;
    while k < quads.len()
        invariant
            k <= quads.len(),
            forall|j: int| 0 <= j < quads@.len() ==> (#[trigger] quads@[j]).fits(),
            corners@.len() == 4 * k,
            triangles@.len() == 6 * k,
            forall|i: int|
                0 <= i < 4 * k ==> #[trigger] corners@[i] == quads@[i / 4].corners()[i % 4],
            forall|i: int|
                0 <= i < 6 * k ==> #[trigger] triangles@[i] == quads@[i / 6].triangles()[i % 6],
        decreases quads.len() - k,
    {
        let quad = quads[k];
        let four = quad.vertices();
        let six = quad.indices();
        corners.push(four[0]);
        corners.push(four[1]);
        corners.push(four[2]);
        corners.push(four[3]);
        triangles.push(six[0]);
        triangles.push(six[1]);
        triangles.push(six[2]);
        triangles.push(six[3]);
        triangles.push(six[4]);
        triangles.push(six[5]);
        k += 1;
    }
    proof {
        assert(corners@ =~= mesh_corners(quads@));
        assert(triangles@ =~= mesh_triangles(quads@));
    }
    (corners, triangles)
}

/// Lays out the tiles of every layer of a map, layer by layer in the
/// order of the map. A map with a layer that cannot be drawn is refused.
pub fn map_quads(layers: &Vec<Vec<Vec<u32>>>) -> (quads: Option<Vec<Vec<Quad>>>)
    ensures
        quads.is_some() <==> (forall|i: int|
            0 <= i < layers@.len() ==> drawable(#[trigger] layers@[i]@)),
        quads matches Some(q) ==> {
            &&& q@.len() == layers@.len()
            &&& forall|i: int|
                0 <= i < q@.len() ==> (#[trigger] q@[i])@ == quads_of(
                    layers@[i]@,
                    layers@[i]@.len() as int,
                )
            &&& forall|i: int, k: int|
                0 <= i < q@.len() && 0 <= k < q@[i]@.len() ==> (#[trigger] q@[i]@[k]).fits()
        },
{
    let mut result: Vec<Vec<Quad>> = Vec::new();
    let mut i: usize = 0;
    while i < layers.len()
        invariant
            i <= layers.len(),
            result@.len() == i,
            forall|j: int| 0 <= j < i ==> drawable(#[trigger] layers@[j]@),
            forall|j: int|
                0 <= j < i ==> (#[trigger] result@[j])@ == quads_of(
                    layers@[j]@,
                    layers@[j]@.len() as int,
                ),
            forall|j: int, k: int|
                0 <= j < i && 0 <= k < result@[j]@.len() ==> (#[trigger] result@[j]@[k]).fits(),
        decreases layers.len() - i,
    {
        match layer_quads(&layers[i]) {
            Some(quads) => {
                result.push(quads);
            },
            None => {
                assert(!drawable(layers@[i as int]@));
                return None;
            },
        }
        i += 1;
    }
    Some(result)
}

} // verus!
