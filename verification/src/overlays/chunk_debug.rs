//! The chunk map overlay: a grid of chunk columns around the player showing
//! which are loaded, for debugging chunk streaming.

use crate::text::{push_str, push_vec, string_from_str, u32_decimal_chars};
use crate::text;
use vstd::prelude::*;

verus! {

/// Chunks shown in each direction from the player's chunk.
pub const VIEW_RADIUS: i32 = 14;

/// Cells per row (and rows) of the map: `2 * VIEW_RADIUS + 1`.
pub const MAP_DIAMETER: usize = 29;

/// What a map cell shows.
#[derive(Clone, Copy, Debug, PartialEq, Eq, Structural)]
pub enum ChunkCell {
    /// The player's own chunk.
    Player,
    /// A loaded chunk column.
    Loaded,
    /// A chunk column that is not loaded.
    Unloaded,
}

/// What the cell at offset `(dx, dz)` from the player's chunk `(pcx, pcz)`
/// shows, given the loaded chunk columns.
pub open spec fn cell_kind(dx: int, dz: int, pcx: int, pcz: int, loaded: Seq<(i32, i32)>) -> ChunkCell {
    if dx == 0 && dz == 0 {
        ChunkCell::Player
    } else if exists|k: int|
        0 <= k < loaded.len() && loaded[k].0 == pcx + dx && loaded[k].1 == pcz + dz {
        ChunkCell::Loaded
    } else {
        ChunkCell::Unloaded
    }
}

/// Whether a chunk column is in the list.
fn is_loaded(loaded: &[(i32, i32)], cx: i32, cz: i32) -> (b: bool)
    ensures
        b == exists|k: int| 0 <= k < loaded@.len() && loaded@[k].0 == cx && loaded@[k].1 == cz,
{
    let mut i: usize = 0;
    while i < loaded.len()
        invariant
            i <= loaded@.len(),
            forall|k: int| 0 <= k < i ==> !(loaded@[k].0 == cx && loaded@[k].1 == cz),
        decreases loaded.len() - i,
    {
        let (x, z) = loaded[i];
        if x == cx && z == cz {
            return true;
        }
        i = i + 1;
    }
    false
}

/// The map cells row by row (north to south, `dz` from `-VIEW_RADIUS`),
/// each row west to east (`dx` from `-VIEW_RADIUS`).
pub fn chunk_map_cells(pcx: i32, pcz: i32, loaded: &[(i32, i32)]) -> (cells: Vec<ChunkCell>)
    requires
        i32::MIN + VIEW_RADIUS <= pcx <= i32::MAX - VIEW_RADIUS,
        i32::MIN + VIEW_RADIUS <= pcz <= i32::MAX - VIEW_RADIUS,
    ensures
        cells@.len() == MAP_DIAMETER * MAP_DIAMETER,
        forall|row: int, col: int|
            0 <= row < MAP_DIAMETER && 0 <= col < MAP_DIAMETER ==> #[trigger] cells@[row
                * MAP_DIAMETER + col] == cell_kind(
                col - VIEW_RADIUS,
                row - VIEW_RADIUS,
                pcx as int,
                pcz as int,
                loaded@,
            ),
{
    let mut cells: Vec<ChunkCell> = Vec::new();
    let mut dz: i32 = -VIEW_RADIUS;
    while dz <= VIEW_RADIUS
        invariant
            -VIEW_RADIUS <= dz <= VIEW_RADIUS + 1,
            i32::MIN + VIEW_RADIUS <= pcx <= i32::MAX - VIEW_RADIUS,
            i32::MIN + VIEW_RADIUS <= pcz <= i32::MAX - VIEW_RADIUS,
            cells@.len() == (dz + VIEW_RADIUS) * MAP_DIAMETER,
            forall|row: int, col: int|
                0 <= row < dz + VIEW_RADIUS && 0 <= col < MAP_DIAMETER ==> #[trigger] cells@[row
                    * MAP_DIAMETER + col] == cell_kind(
                    col - VIEW_RADIUS,
                    row - VIEW_RADIUS,
                    pcx as int,
                    pcz as int,
                    loaded@,
                ),
        decreases VIEW_RADIUS + 1 - dz,
    {
        let mut dx: i32 = -VIEW_RADIUS;
        let ghost row = dz + VIEW_RADIUS;
        while dx <= VIEW_RADIUS
            invariant
                -VIEW_RADIUS <= dx <= VIEW_RADIUS + 1,
                -VIEW_RADIUS <= dz <= VIEW_RADIUS,
                row == dz + VIEW_RADIUS,
                i32::MIN + VIEW_RADIUS <= pcx <= i32::MAX - VIEW_RADIUS,
                i32::MIN + VIEW_RADIUS <= pcz <= i32::MAX - VIEW_RADIUS,
                cells@.len() == row * MAP_DIAMETER + (dx + VIEW_RADIUS),
                forall|r: int, col: int|
                    0 <= r < row && 0 <= col < MAP_DIAMETER ==> #[trigger] cells@[r * MAP_DIAMETER
                        + col] == cell_kind(
                        col - VIEW_RADIUS,
                        r - VIEW_RADIUS,
                        pcx as int,
                        pcz as int,
                        loaded@,
                    ),
                forall|col: int|
                    0 <= col < dx + VIEW_RADIUS ==> #[trigger] cells@[row * MAP_DIAMETER + col]
                        == cell_kind(
                        col - VIEW_RADIUS,
                        row - VIEW_RADIUS,
                        pcx as int,
                        pcz as int,
                        loaded@,
                    ),
            decreases VIEW_RADIUS + 1 - dx,
        {
            let cell = if dx == 0 && dz == 0 {
                ChunkCell::Player
            } else if is_loaded(loaded, pcx + dx, pcz + dz) {
                ChunkCell::Loaded
            } else {
                ChunkCell::Unloaded
            };
            let ghost col = dx + VIEW_RADIUS;
            assert(cells@.len() == row * MAP_DIAMETER + col);
            cells.push(cell);
            assert(cells@[row * MAP_DIAMETER + col] == cell);
            dx = dx + 1;
        }
        proof {
            assert forall|r: int, col: int|
                0 <= r < row + 1 && 0 <= col < MAP_DIAMETER implies #[trigger] cells@[r
                * MAP_DIAMETER + col] == cell_kind(
                col - VIEW_RADIUS,
                r - VIEW_RADIUS,
                pcx as int,
                pcz as int,
                loaded@,
            ) by {
                if r == row {
                    assert(cells@[row * MAP_DIAMETER + col] == cell_kind(
                        col - VIEW_RADIUS,
                        row - VIEW_RADIUS,
                        pcx as int,
                        pcz as int,
                        loaded@,
                    ));
                }
            }
        }
        dz = dz + 1;
    }
    cells
}

/// The decimal text of an integer, with a leading `-` when negative.
pub open spec fn signed_text(x: int) -> Seq<char> {
    if x < 0 {
        seq!['-'] + text::decimal_text((-x) as nat)
    } else {
        text::decimal_text(x as nat)
    }
}

/// Appends the decimal text of an `i32`.
fn push_i32(s: &mut String, x: i32)
    ensures
        final(s)@ == old(s)@ + signed_text(x as int),
{
    if x < 0 {
        push_str(s, "-");
        let magnitude: u32 = if x == i32::MIN {
            2147483648u32
        } else {
            (-x) as u32
        };
        let digits = u32_decimal_chars(magnitude);
        push_vec(s, &digits);
        proof {
            reveal_strlit("-");
        }
        assert(old(s)@ + "-"@ + text::decimal_text(magnitude as nat) =~= old(s)@ + signed_text(
            x as int,
        ));
    } else {
        let digits = u32_decimal_chars(x as u32);
        push_vec(s, &digits);
    }
}

/// The label under the map: `chunks (<x>,<z>)`.
pub fn chunk_label(pcx: i32, pcz: i32) -> (s: String)
    ensures
        s@ == "chunks ("@ + signed_text(pcx as int) + ","@ + signed_text(pcz as int) + ")"@,
{
    let mut s = string_from_str("chunks (");
    push_i32(&mut s, pcx);
    push_str(&mut s, ",");
    push_i32(&mut s, pcz);
    push_str(&mut s, ")");
    s
}

/// The chunk map overlay; hidden until switched on.
#[derive(Debug)]
pub struct ChunkDebugOverlay {
    visible: bool,
}

impl ChunkDebugOverlay {
    /// A hidden overlay.
    pub fn new() -> (o: Self)
        ensures
            !o.visible(),
    {
        Self { visible: false }
    }

    /// Whether the overlay is switched on.
    pub closed spec fn visible(&self) -> bool {
        self.visible
    }

    /// The overlay's name.
    pub fn name(&self) -> (s: &'static str)
        ensures
            s@ == "chunk_debug"@,
    {
        "chunk_debug"
    }

    /// Whether the overlay is switched on.
    pub fn is_visible(&self) -> (b: bool)
        ensures
            b == self.visible(),
    {
        self.visible
    }

    /// Switches the overlay on or off.
    pub fn set_visible(&mut self, visible: bool)
        ensures
            final(self).visible() == visible,
    {
        self.visible = visible;
    }

    /// Switches the overlay over.
    pub fn toggle(&mut self)
        ensures
            final(self).visible() == !old(self).visible(),
    {
        self.visible = !self.visible;
    }
}

} // verus!
