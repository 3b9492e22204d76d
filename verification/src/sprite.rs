//! Sprite drawing on the framebuffer.

use vstd::prelude::*;

use crate::machine::Machine;

verus! {

/// The pixel in column `column` of a sprite row, counted from the left:
/// bit 7 of the byte is column 0.
pub open spec fn sprite_bit(row: u8, column: int) -> u8 {
    (row >> ((7 - column) as u8)) & 1
}

/// One pixel of a sprite is combined with the screen. The target is
/// `(VX + column, VY + row)`, wrapped to the screen, as the registers stand
/// when the pixel is plotted. The sprite pixel is XOR-ed into the screen, and
/// `VF` accumulates a 1 where a lit sprite pixel meets a lit screen pixel.
pub open spec fn plot_pixel(m: Machine, x: u8, y: u8, row: int, column: int) -> Machine {
    let px = (m.reg(x) + column) % 64;
    let py = (m.reg(y) + row) % 32;
    let color = sprite_bit(m.byte_at(m.i + row), column);
    let target = py * 64 + px;
    Machine {
        regs: m.regs.update(0xF, m.regs[0xF] | (color & m.vram[target])),
        vram: m.vram.update(target, m.vram[target] ^ color),
        ..m
    }
}

/// The state after `VF` is cleared and the first `count` pixels of the
/// sprite are plotted, row by row and left to right within a row.
pub open spec fn plot(m: Machine, x: u8, y: u8, count: nat) -> Machine
    decreases count,
{
    if count == 0 {
        m.set_flag(0)
    } else {
        let done = (count - 1) as nat;
        plot_pixel(plot(m, x, y, done), x, y, done as int / 8, done as int % 8)
    }
}

/// The state after the `n`-row sprite at `I` is drawn at `(VX, VY)`.
pub open spec fn draw_sprite(m: Machine, x: u8, y: u8, n: u8) -> Machine {
    plot(m, x, y, 8 * n as nat)
}

/// Drawing keeps the state well formed and changes nothing but the screen
/// and `VF`, whichever registers hold the coordinates.
pub proof fn lemma_plot_frame(m: Machine, x: u8, y: u8, count: nat)
    requires
        m.wf(),
        x < 16,
        y < 16,
    ensures
        ({
            let p = plot(m, x, y, count);
            &&& p.wf()
            &&& p == Machine { regs: m.regs.update(0xF, p.regs[0xF]), vram: p.vram, ..m }
        }),
    decreases count,
{
    let p = plot(m, x, y, count);
    if count > 0 {
        let done = (count - 1) as nat;
        let before = plot(m, x, y, done);
        lemma_plot_frame(m, x, y, done);
        let row = done as int / 8;
        let column = done as int % 8;
        let color = sprite_bit(before.byte_at(before.i + row), column);
        let target = ((before.reg(y) + row) % 32) * 64 + (before.reg(x) + column) % 64;
        let lit = before.vram[target];
        let line = before.byte_at(before.i + row);
        let shift = (7 - column) as u8;
        assert((line >> shift) & 1 <= 1) by (bit_vector);
        assert(lit <= 1 && color <= 1 ==> lit ^ color <= 1) by (bit_vector);
        assert(p.regs =~= m.regs.update(0xF, p.regs[0xF]));
    } else {
        assert(p.regs =~= m.regs.update(0xF, p.regs[0xF]));
    }
}

/// The pixel of the sprite at `I` in row `row` and column `column`.
pub open spec fn sprite_at(m: Machine, row: int, column: int) -> u8 {
    sprite_bit(m.byte_at(m.i + row), column)
}

/// The screen column on which sprite column `column` lands.
pub open spec fn target_x(m: Machine, x: u8, column: int) -> int {
    (m.reg(x) + column) % 64
}

/// The screen row on which sprite row `row` lands.
pub open spec fn target_y(m: Machine, y: u8, row: int) -> int {
    (m.reg(y) + row) % 32
}

/// What an `n`-row sprite drawn at `(VX, VY)` puts on screen pixel
/// `(px, py)`: the sprite pixel that lands there, or 0 where none does.
pub open spec fn overlay(m: Machine, x: u8, y: u8, n: u8, px: int, py: int) -> u8 {
    let column = (px - m.reg(x)) % 64;
    let row = (py - m.reg(y)) % 32;
    if column < 8 && row < n {
        sprite_at(m, row, column)
    } else {
        0
    }
}

/// The sprite pixel in `(row, column)` is lit and lands on a screen pixel
/// whose value is `screen`.
pub open spec fn lands_on(m: Machine, x: u8, y: u8, row: int, column: int, screen: u8) -> bool {
    sprite_at(m, row, column) == 1 && m.pixel(target_x(m, x, column), target_y(m, y, row))
        == screen
}

/// Some lit pixel among the first `count` of the sprite, counted row by
/// row, lands on a screen pixel whose value is `screen`.
pub open spec fn some_lands_on(m: Machine, x: u8, y: u8, count: int, screen: u8) -> bool {
    exists|row: int, column: int|
        0 <= row && 0 <= column < 8 && 8 * row + column < count && #[trigger] lands_on(
            m,
            x,
            y,
            row,
            column,
            screen,
        )
}

/// Drawing an `n`-row sprite turns a lit pixel off.
pub open spec fn collides(m: Machine, x: u8, y: u8, n: u8) -> bool {
    some_lands_on(m, x, y, 8 * n, 1)
}

/// What the first `count` pixels of the sprite put on screen pixel
/// `(px, py)`.
spec fn partial_overlay(m: Machine, x: u8, y: u8, count: int, px: int, py: int) -> u8 {
    let column = (px - m.reg(x)) % 64;
    let row = (py - m.reg(y)) % 32;
    if column < 8 && 8 * row + column < count {
        sprite_at(m, row, column)
    } else {
        0
    }
}

/// A sprite pixel's column and row can be read back from the screen pixel
/// it lands on.
proof fn lemma_landing(origin_x: int, origin_y: int, row: int, column: int)
    requires
        0 <= row < 32,
        0 <= column < 64,
    ensures
        ({
            let tx = (origin_x + column) % 64;
            let ty = (origin_y + row) % 32;
            &&& 0 <= tx < 64
            &&& 0 <= ty < 32
            &&& (tx - origin_x) % 64 == column
            &&& (ty - origin_y) % 32 == row
        }),
{
}

/// A screen pixel is where the sprite pixel that is read back from it
/// lands.
proof fn lemma_landed(origin_x: int, origin_y: int, px: int, py: int)
    requires
        0 <= px < 64,
        0 <= py < 32,
    ensures
        ({
            let column = (px - origin_x) % 64;
            let row = (py - origin_y) % 32;
            &&& 0 <= column < 64
            &&& 0 <= row < 32
            &&& (origin_x + column) % 64 == px
            &&& (origin_y + row) % 32 == py
        }),
{
}

/// `p` is `m` after the first `count` pixels of the sprite: each screen
/// pixel is XOR-ed with the sprite pixel that has landed on it, `VF` tells
/// whether a lit pixel was turned off, and nothing else has changed.
spec fn plotted(m: Machine, p: Machine, x: u8, y: u8, count: int) -> bool {
    &&& p.wf()
    &&& p == Machine { regs: p.regs, vram: p.vram, ..m }
    &&& p.regs == m.regs.update(
        0xF,
        if some_lands_on(m, x, y, count, 1) {
            1u8
        } else {
            0u8
        },
    )
    &&& forall|px: int, py: int|
        0 <= px < 64 && 0 <= py < 32 ==> #[trigger] p.pixel(px, py) == m.pixel(px, py)
            ^ partial_overlay(m, x, y, count, px, py)
}

/// Among the first `done + 1` pixels some lit one lands on `screen` exactly
/// when one of the first `done` does or the pixel numbered `done` does.
proof fn lemma_some_lands_on_step(m: Machine, x: u8, y: u8, done: int, screen: u8)
    requires
        0 <= done,
    ensures
        some_lands_on(m, x, y, done + 1, screen) <==> some_lands_on(m, x, y, done, screen)
            || lands_on(m, x, y, done / 8, done % 8, screen),
{
    if some_lands_on(m, x, y, done + 1, screen) {
        let (r, c) = choose|r: int, c: int|
            0 <= r && 0 <= c < 8 && 8 * r + c < done + 1 && #[trigger] lands_on(
                m,
                x,
                y,
                r,
                c,
                screen,
            );
        if 8 * r + c < done {
            assert(some_lands_on(m, x, y, done, screen));
        } else {
            assert(r == done / 8 && c == done % 8);
        }
    }
    if some_lands_on(m, x, y, done, screen) {
        let (r, c) = choose|r: int, c: int|
            0 <= r && 0 <= c < 8 && 8 * r + c < done && #[trigger] lands_on(m, x, y, r, c, screen);
        assert(lands_on(m, x, y, r, c, screen));
    }
    if lands_on(m, x, y, done / 8, done % 8, screen) {
        assert(8 * (done / 8) + done % 8 < done + 1);
    }
}

/// The sprite pixel numbered `done` changes what has landed on its target
/// and on no other screen pixel.
proof fn lemma_partial_overlay_step(m: Machine, x: u8, y: u8, done: int, px: int, py: int)
    requires
        0 <= done < 8 * 16,
        0 <= px < 64,
        0 <= py < 32,
    ensures
        ({
            let row = done / 8;
            let column = done % 8;
            if px == target_x(m, x, column) && py == target_y(m, y, row) {
                &&& partial_overlay(m, x, y, done, px, py) == 0
                &&& partial_overlay(m, x, y, done + 1, px, py) == sprite_at(m, row, column)
            } else {
                partial_overlay(m, x, y, done + 1, px, py) == partial_overlay(
                    m,
                    x,
                    y,
                    done,
                    px,
                    py,
                )
            }
        }),
{
    let row = done / 8;
    let column = done % 8;
    lemma_landing(m.reg(x) as int, m.reg(y) as int, row, column);
    lemma_landed(m.reg(x) as int, m.reg(y) as int, px, py);
}

/// Plotting the pixel numbered `done` leads from the state after `done`
/// pixels to the state after `done + 1`.
proof fn lemma_plot_pixel_step(m: Machine, before: Machine, x: u8, y: u8, done: int)
    requires
        m.wf(),
        x < 15,
        y < 15,
        0 <= done < 8 * 16,
        plotted(m, before, x, y, done),
    ensures
        plotted(m, plot_pixel(before, x, y, done / 8, done % 8), x, y, done + 1),
{
    let row = done / 8;
    let column = done % 8;
    let p = plot_pixel(before, x, y, row, column);
    let tx = target_x(m, x, column);
    let ty = target_y(m, y, row);
    let color = sprite_at(m, row, column);
    let lit = m.pixel(tx, ty);
    let flag_before: u8 = if some_lands_on(m, x, y, done, 1) {
        1
    } else {
        0
    };
    assert(before.reg(x) == m.reg(x) && before.reg(y) == m.reg(y));
    assert(sprite_at(before, row, column) == color);
    lemma_landing(m.reg(x) as int, m.reg(y) as int, row, column);
    assert(0 <= ty * 64 + tx < 2048);
    assert(lit <= 1);
    assert(color <= 1) by {
        let line = m.byte_at(m.i + row);
        let shift = (7 - column) as u8;
        assert((line >> shift) & 1 <= 1) by (bit_vector);
    }
    assert(before.pixel(tx, ty) == lit) by {
        lemma_partial_overlay_step(m, x, y, done, tx, ty);
        assert(before.pixel(tx, ty) == m.pixel(tx, ty) ^ partial_overlay(m, x, y, done, tx, ty));
        assert(lit ^ 0 == lit) by (bit_vector);
    }
    assert(p.vram == before.vram.update(ty * 64 + tx, lit ^ color));
    assert(p.regs == before.regs.update(0xF, flag_before | (color & lit)));
    assert(lit ^ color <= 1) by (bit_vector)
        requires
            lit <= 1,
            color <= 1,
    ;
    assert(p.wf());
    assert forall|px: int, py: int| 0 <= px < 64 && 0 <= py < 32 implies #[trigger] p.pixel(
        px,
        py,
    ) == m.pixel(px, py) ^ partial_overlay(m, x, y, done + 1, px, py) by {
        lemma_partial_overlay_step(m, x, y, done, px, py);
        if px != tx || py != ty {
            assert(py * 64 + px != ty * 64 + tx);
            assert(p.pixel(px, py) == before.pixel(px, py));
        }
    }
    lemma_some_lands_on_step(m, x, y, done, 1);
    assert(flag_before | (color & lit) == if flag_before == 1 || (color == 1 && lit == 1) {
        1u8
    } else {
        0u8
    }) by (bit_vector)
        requires
            flag_before <= 1,
            color <= 1,
            lit <= 1,
    ;
    assert(p.regs =~= m.regs.update(
        0xF,
        if some_lands_on(m, x, y, done + 1, 1) {
            1u8
        } else {
            0u8
        },
    ));
}

/// The state after the first `count` pixels, where neither coordinate
/// register is `VF`.
proof fn lemma_plot_closed_form(m: Machine, x: u8, y: u8, count: nat)
    requires
        m.wf(),
        x < 15,
        y < 15,
        count <= 8 * 16,
    ensures
        plotted(m, plot(m, x, y, count), x, y, count as int),
    decreases count,
{
    let p = plot(m, x, y, count);
    if count == 0 {
        assert forall|px: int, py: int| 0 <= px < 64 && 0 <= py < 32 implies #[trigger] p.pixel(
            px,
            py,
        ) == m.pixel(px, py) ^ partial_overlay(m, x, y, 0, px, py) by {
            let lit = m.pixel(px, py);
            assert(lit ^ 0 == lit) by (bit_vector);
        }
        assert(!some_lands_on(m, x, y, 0, 1));
        assert(p.regs =~= m.regs.update(0xF, 0u8));
    } else {
        let done = (count - 1) as nat;
        lemma_plot_closed_form(m, x, y, done);
        lemma_plot_pixel_step(m, plot(m, x, y, done), x, y, done as int);
    }
}

/// Drawing, where neither coordinate register is `VF`: each screen pixel is
/// XOR-ed with the sprite pixel that lands on it, with both coordinates
/// wrapping at the screen's edges; `VF` becomes 1 if a lit pixel was turned
/// off and 0 otherwise; nothing else changes.
pub proof fn lemma_draw_sprite(m: Machine, x: u8, y: u8, n: u8)
    requires
        m.wf(),
        x < 15,
        y < 15,
        n < 16,
    ensures
        ({
            let d = draw_sprite(m, x, y, n);
            &&& d.wf()
            &&& d == Machine { regs: d.regs, vram: d.vram, ..m }
            &&& d.regs == m.regs.update(
                0xF,
                if collides(m, x, y, n) {
                    1u8
                } else {
                    0u8
                },
            )
            &&& forall|px: int, py: int|
                0 <= px < 64 && 0 <= py < 32 ==> #[trigger] d.pixel(px, py) == m.pixel(px, py)
                    ^ overlay(m, x, y, n, px, py)
        }),
{
    lemma_plot_closed_form(m, x, y, 8 * n as nat);
    let d = draw_sprite(m, x, y, n);
    assert forall|px: int, py: int| 0 <= px < 64 && 0 <= py < 32 implies #[trigger] d.pixel(
        px,
        py,
    ) == m.pixel(px, py) ^ overlay(m, x, y, n, px, py) by {
        lemma_landed(m.reg(x) as int, m.reg(y) as int, px, py);
        assert(partial_overlay(m, x, y, 8 * n, px, py) == overlay(m, x, y, n, px, py));
    }
}

/// Drawing a sprite twice at the same place restores the screen, and the
/// second draw sets `VF` to 1 exactly when a lit pixel of the sprite landed
/// on a dark screen pixel the first time. Neither coordinate register may
/// be `VF`, which the first draw overwrites.
pub proof fn lemma_draw_twice(m: Machine, x: u8, y: u8, n: u8)
    requires
        m.wf(),
        x < 15,
        y < 15,
        n < 16,
    ensures
        ({
            let once = draw_sprite(m, x, y, n);
            let twice = draw_sprite(once, x, y, n);
            &&& twice.vram == m.vram
            &&& twice == Machine { regs: twice.regs, ..m }
            &&& twice.regs == m.regs.update(
                0xF,
                if some_lands_on(m, x, y, 8 * n, 0) {
                    1u8
                } else {
                    0u8
                },
            )
        }),
{
    let once = draw_sprite(m, x, y, n);
    let twice = draw_sprite(once, x, y, n);
    lemma_draw_sprite(m, x, y, n);
    lemma_draw_sprite(once, x, y, n);
    assert(once.reg(x) == m.reg(x) && once.reg(y) == m.reg(y));
    assert forall|k: int| 0 <= k < 2048 implies twice.vram[k] == m.vram[k] by {
        let px = k % 64;
        let py = k / 64;
        let lit = m.pixel(px, py);
        let over = overlay(m, x, y, n, px, py);
        assert(overlay(once, x, y, n, px, py) == over);
        assert(once.pixel(px, py) == lit ^ over);
        assert(twice.pixel(px, py) == once.pixel(px, py) ^ over);
        assert((lit ^ over) ^ over == lit) by (bit_vector);
    }
    assert(twice.vram =~= m.vram);
    assert forall|row: int, column: int| 0 <= row < n && 0 <= column < 8 implies (lands_on(
        once,
        x,
        y,
        row,
        column,
        1,
    ) <==> lands_on(m, x, y, row, column, 0)) by {
        let tx = target_x(m, x, column);
        let ty = target_y(m, y, row);
        lemma_landing(m.reg(x) as int, m.reg(y) as int, row, column);
        let lit = m.pixel(tx, ty);
        assert(lit <= 1);
        assert(once.pixel(tx, ty) == lit ^ overlay(m, x, y, n, tx, ty));
        if sprite_at(m, row, column) == 1 {
            assert(overlay(m, x, y, n, tx, ty) == 1);
            assert((lit ^ 1 == 1) <==> lit == 0) by (bit_vector)
                requires
                    lit <= 1,
            ;
        }
    }
    assert(some_lands_on(once, x, y, 8 * n, 1) <==> some_lands_on(m, x, y, 8 * n, 0)) by {
        if some_lands_on(once, x, y, 8 * n, 1) {
            let (r, c) = choose|r: int, c: int|
                0 <= r && 0 <= c < 8 && 8 * r + c < 8 * n && #[trigger] lands_on(
                    once,
                    x,
                    y,
                    r,
                    c,
                    1,
                );
            assert(lands_on(m, x, y, r, c, 0));
        }
        if some_lands_on(m, x, y, 8 * n, 0) {
            let (r, c) = choose|r: int, c: int|
                0 <= r && 0 <= c < 8 && 8 * r + c < 8 * n && #[trigger] lands_on(m, x, y, r, c, 0);
            assert(lands_on(once, x, y, r, c, 1));
        }
    }
    assert(twice.regs =~= m.regs.update(
        0xF,
        if some_lands_on(m, x, y, 8 * n, 0) {
            1u8
        } else {
            0u8
        },
    ));
}

/// A sprite with a lit pixel, drawn twice over dark pixels: the first draw
/// lights them without a collision, the second sets `VF` to 1 and leaves
/// them dark again. Neither coordinate register may be `VF`.
pub proof fn lemma_draw_twice_over_dark(m: Machine, x: u8, y: u8, n: u8)
    requires
        m.wf(),
        x < 15,
        y < 15,
        n < 16,
        exists|row: int, column: int|
            0 <= row < n && 0 <= column < 8 && #[trigger] sprite_at(m, row, column) == 1,
        forall|row: int, column: int|
            0 <= row < n && 0 <= column < 8 && #[trigger] sprite_at(m, row, column) == 1
                ==> m.pixel(target_x(m, x, column), target_y(m, y, row)) == 0,
    ensures
        ({
            let once = draw_sprite(m, x, y, n);
            let twice = draw_sprite(once, x, y, n);
            &&& once.reg(0xF) == 0
            &&& twice.reg(0xF) == 1
            &&& forall|row: int, column: int|
                0 <= row < n && 0 <= column < 8 && #[trigger] sprite_at(m, row, column) == 1 ==> {
                    &&& once.pixel(target_x(m, x, column), target_y(m, y, row)) == 1
                    &&& twice.pixel(target_x(m, x, column), target_y(m, y, row)) == 0
                }
        }),
{
    let once = draw_sprite(m, x, y, n);
    let twice = draw_sprite(once, x, y, n);
    lemma_draw_sprite(m, x, y, n);
    lemma_draw_twice(m, x, y, n);
    assert(!some_lands_on(m, x, y, 8 * n, 1)) by {
        if some_lands_on(m, x, y, 8 * n, 1) {
            let (r, c) = choose|r: int, c: int|
                0 <= r && 0 <= c < 8 && 8 * r + c < 8 * n && #[trigger] lands_on(m, x, y, r, c, 1);
            assert(sprite_at(m, r, c) == 1);
        }
    }
    let (r, c) = choose|r: int, c: int|
        0 <= r < n && 0 <= c < 8 && #[trigger] sprite_at(m, r, c) == 1;
    assert(lands_on(m, x, y, r, c, 0));
    assert(some_lands_on(m, x, y, 8 * n, 0));
    assert forall|row: int, column: int|
        0 <= row < n && 0 <= column < 8 && #[trigger] sprite_at(m, row, column) == 1 implies {
        &&& once.pixel(target_x(m, x, column), target_y(m, y, row)) == 1
        &&& twice.pixel(target_x(m, x, column), target_y(m, y, row)) == 0
    } by {
        let tx = target_x(m, x, column);
        let ty = target_y(m, y, row);
        lemma_landing(m.reg(x) as int, m.reg(y) as int, row, column);
        assert(overlay(m, x, y, n, tx, ty) == 1);
        assert(once.pixel(tx, ty) == m.pixel(tx, ty) ^ overlay(m, x, y, n, tx, ty));
        assert(0u8 ^ 1u8 == 1u8) by (bit_vector);
        assert(twice.pixel(tx, ty) == m.pixel(tx, ty));
    }
}

} // verus!
