//! What the display shows: the lit pixels as squares in window coordinates.

use vstd::prelude::*;

verus! {

/// Side of the square that shows one pixel, in window units.
pub const PIXEL_SIZE: i32 = 16;

/// The top-left corner of the square for the pixel stored at `index`.
pub open spec fn cell_of(index: int) -> (i32, i32) {
    (((index % 64) * 16) as i32, ((index / 64) * 16) as i32)
}

/// The squares for the lit pixels among the first `count`, in storage
/// order: row by row, left to right.
pub open spec fn lit_cells(vram: Seq<u8>, count: nat) -> Seq<(i32, i32)>
    decreases count,
{
    if count == 0 {
        Seq::empty()
    } else {
        let rest = lit_cells(vram, (count - 1) as nat);
        if vram[count - 1] == 1 {
            rest.push(cell_of(count - 1))
        } else {
            rest
        }
    }
}

/// A square is listed exactly when it belongs to a lit pixel.
pub proof fn lemma_lit_cells_contains(vram: Seq<u8>, count: nat, cell: (i32, i32))
    ensures
        lit_cells(vram, count).contains(cell) <==> exists|index: int|
            0 <= index < count && vram[index] == 1 && #[trigger] cell_of(index) == cell,
    decreases count,
{
    if count > 0 {
        let rest = lit_cells(vram, (count - 1) as nat);
        lemma_lit_cells_contains(vram, (count - 1) as nat, cell);
        if vram[count - 1] == 1 {
            let all = rest.push(cell_of(count - 1));
            assert(all[rest.len() as int] == cell_of(count - 1));
            if all.contains(cell) {
                let k = choose|k: int| 0 <= k < all.len() && all[k] == cell;
                if k < rest.len() {
                    assert(rest[k] == cell);
                } else {
                    assert(cell_of(count - 1) == cell);
                }
            }
            if exists|index: int|
                0 <= index < count && vram[index] == 1 && #[trigger] cell_of(index) == cell {
                let index = choose|index: int|
                    0 <= index < count && vram[index] == 1 && #[trigger] cell_of(index) == cell;
                if index < count - 1 {
                    assert(rest.contains(cell));
                    let k = choose|k: int| 0 <= k < rest.len() && rest[k] == cell;
                    assert(all[k] == cell);
                } else {
                    assert(all[rest.len() as int] == cell);
                }
            }
        }
    }
}

/// On a screen with every pixel off no square is listed.
pub proof fn lemma_dark_screen(vram: Seq<u8>, count: nat)
    requires
        forall|index: int| 0 <= index < count ==> vram[index] == 0,
    ensures
        lit_cells(vram, count) == Seq::<(i32, i32)>::empty(),
    decreases count,
{
    if count > 0 {
        lemma_dark_screen(vram, (count - 1) as nat);
    }
}

} // verus!
