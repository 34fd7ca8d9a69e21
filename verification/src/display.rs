use vstd::prelude::*;
use crate::machine::RAM_SIZE;
use crate::machine::SCREEN_SIZE;

verus! {

/// Whether column `col` of a sprite row is set; column 0 is the leftmost
/// pixel and the highest bit of the byte.
pub open spec fn sprite_bit(row_byte: u8, col: int) -> bool {
    0 <= col < 8 && row_byte & (0x80u8 >> (col as u8)) != 0
}

/// How many columns right of a sprite's left edge at `vx` the pixel of index
/// `k` lies, going round the screen.
pub open spec fn pixel_col(k: int, vx: u8) -> int {
    (k % 64 - vx) % 64
}

/// How many rows below a sprite's top edge at `vy` the pixel of index `k`
/// lies, going round the screen.
pub open spec fn pixel_row(k: int, vy: u8) -> int {
    (k / 64 - vy) % 32
}

/// Index of the pixel that lies `row` rows below and `col` columns right of
/// `(vx, vy)`, going round the screen.
pub open spec fn pixel_index(vx: u8, vy: u8, row: int, col: int) -> int {
    ((vy + row) % 32) * 64 + (vx + col) % 64
}

/// Whether `sprite`, one byte per row, placed with its top left corner at
/// `(vx, vy)`, has a set bit on the pixel of index `k`. A sprite is eight
/// pixels wide and less than a screen high, so each pixel meets at most one
/// of its bits.
pub open spec fn sprite_hits(sprite: Seq<u8>, vx: u8, vy: u8, k: int) -> bool {
    &&& 0 <= k < SCREEN_SIZE
    &&& pixel_row(k, vy) < sprite.len()
    &&& sprite_bit(sprite[pixel_row(k, vy)], pixel_col(k, vx))
}

/// The screen after `sprite` was drawn at `(vx, vy)`: each pixel under a set
/// bit of the sprite is flipped, every other pixel is kept.
pub open spec fn drawn_screen(screen: Seq<bool>, sprite: Seq<u8>, vx: u8, vy: u8) -> Seq<bool> {
    Seq::new(screen.len(), |k: int| screen[k] != sprite_hits(sprite, vx, vy, k))
}

/// Whether drawing `sprite` at `(vx, vy)` turns a pixel off: some pixel that
/// is on lies under a set bit of the sprite.
pub open spec fn collides(screen: Seq<bool>, sprite: Seq<u8>, vx: u8, vy: u8) -> bool {
    exists|k: int| #[trigger] sprite_hits(sprite, vx, vy, k) && screen[k]
}

/// The pixel that lies `row` rows below and `col` columns right of
/// `(vx, vy)` is the only one at that offset.
pub proof fn lemma_pixel_index(vx: u8, vy: u8, row: int, col: int, k: int)
    requires
        0 <= row < 32,
        0 <= col < 64,
        0 <= k < SCREEN_SIZE,
    ensures
        0 <= pixel_index(vx, vy, row, col) < SCREEN_SIZE,
        (pixel_row(k, vy) == row && pixel_col(k, vx) == col) <==> k == pixel_index(
            vx,
            vy,
            row,
            col,
        ),
{
}

/// Whether the drawing loop has passed the pixel of index `k` once it stands
/// at `row`, `col`.
spec fn passed(k: int, vx: u8, vy: u8, row: int, col: int) -> bool {
    pixel_row(k, vy) < row || (pixel_row(k, vy) == row && pixel_col(k, vx) < col)
}

/// Whether a pixel that is on lies under a set bit among those the drawing
/// loop has passed.
spec fn collides_so_far(
    screen: Seq<bool>,
    sprite: Seq<u8>,
    vx: u8,
    vy: u8,
    row: int,
    col: int,
) -> bool {
    exists|k: int|
        #[trigger] sprite_hits(sprite, vx, vy, k) && screen[k] && passed(k, vx, vy, row, col)
}

/// Draws the `n` bytes of `ram` from `start` on as a sprite at `(vx, vy)`,
/// flipping the pixels under its set bits, and reports whether a pixel went
/// off.
pub fn draw_sprite(
    screen: &mut [bool; SCREEN_SIZE],
    ram: &[u8; RAM_SIZE],
    start: usize,
    n: usize,
    vx: u8,
    vy: u8,
) -> (hit: bool)
    requires
        n < 32,
        start + n <= RAM_SIZE,
    ensures
        final(screen)@ == drawn_screen(
            old(screen)@,
            ram@.subrange(start as int, start + n),
            vx,
            vy,
        ),
        hit == collides(old(screen)@, ram@.subrange(start as int, start + n), vx, vy),
    no_unwind
{
    let ghost before = screen@;
    let ghost sprite = ram@.subrange(start as int, start + n);
    let mut hit = false;
    let mut row: usize = 0;
    while row < n
        invariant
            row <= n < 32,
            start + n <= RAM_SIZE,
            before.len() == SCREEN_SIZE,
            sprite == ram@.subrange(start as int, start + n),
            forall|k: int|
                0 <= k < SCREEN_SIZE ==> screen@[k] == (before[k] != (sprite_hits(
                    sprite,
                    vx,
                    vy,
                    k,
                ) && passed(k, vx, vy, row as int, 0))),
            hit == collides_so_far(before, sprite, vx, vy, row as int, 0),
        decreases n - row,
    {
        let row_byte = ram[start + row];
        let y = (vy as usize + row) % 32;
        let mut col: usize = 0;
        while col < 8
            invariant
                row < n < 32,
                col <= 8,
                start + n <= RAM_SIZE,
                before.len() == SCREEN_SIZE,
                sprite == ram@.subrange(start as int, start + n),
                row_byte == sprite[row as int],
                y == (vy + row) % 32,
                forall|k: int|
                    0 <= k < SCREEN_SIZE ==> screen@[k] == (before[k] != (sprite_hits(
                        sprite,
                        vx,
                        vy,
                        k,
                    ) && passed(k, vx, vy, row as int, col as int))),
                hit == collides_so_far(before, sprite, vx, vy, row as int, col as int),
            decreases 8 - col,
        {
            let x = (vx as usize + col) % 64;
            let idx = y * 64 + x;
            let ghost hit_before = hit;
            let ghost screen_before = screen@;
            proof {
                lemma_pixel_index(vx, vy, row as int, col as int, idx as int);
                assert(idx == pixel_index(vx, vy, row as int, col as int));
                assert(!passed(idx as int, vx, vy, row as int, col as int));
                assert(passed(idx as int, vx, vy, row as int, col + 1));
            }
            if row_byte & (0x80u8 >> col) != 0 {
                if screen[idx] {
                    hit = true;
                }
                screen[idx] = !screen[idx];
            }
            proof {
                assert(sprite_hits(sprite, vx, vy, idx as int) == (row_byte & (0x80u8 >> (
                col as u8)) != 0));
                assert forall|k: int| 0 <= k < SCREEN_SIZE implies screen@[k] == (before[k] != (
                sprite_hits(sprite, vx, vy, k) && passed(k, vx, vy, row as int, col + 1))) by {
                    lemma_pixel_index(vx, vy, row as int, col as int, k);
                }
                if hit {
                    if hit_before {
                        let w = choose|k: int|
                            #[trigger] sprite_hits(sprite, vx, vy, k) && before[k] && passed(
                                k,
                                vx,
                                vy,
                                row as int,
                                col as int,
                            );
                        assert(passed(w, vx, vy, row as int, col + 1));
                    } else {
                        assert(sprite_hits(sprite, vx, vy, idx as int) && before[idx as int]);
                    }
                    assert(collides_so_far(before, sprite, vx, vy, row as int, col + 1));
                } else {
                    assert forall|k: int|
                        !(#[trigger] sprite_hits(sprite, vx, vy, k) && before[k] && passed(
                            k,
                            vx,
                            vy,
                            row as int,
                            col + 1,
                        )) by {
                        if 0 <= k < SCREEN_SIZE {
                            lemma_pixel_index(vx, vy, row as int, col as int, k);
                        }
                    }
                }
            }
            col += 1;
        }
        proof {
            assert forall|k: int| 0 <= k < SCREEN_SIZE implies (sprite_hits(sprite, vx, vy, k)
                && passed(k, vx, vy, row as int, 8)) == (sprite_hits(sprite, vx, vy, k) && passed(
                k,
                vx,
                vy,
                row + 1,
                0,
            )) by {}
            if hit {
                let w = choose|k: int|
                    #[trigger] sprite_hits(sprite, vx, vy, k) && before[k] && passed(
                        k,
                        vx,
                        vy,
                        row as int,
                        8,
                    );
                assert(passed(w, vx, vy, row + 1, 0));
            } else {
                assert forall|k: int|
                    !(#[trigger] sprite_hits(sprite, vx, vy, k) && before[k] && passed(
                        k,
                        vx,
                        vy,
                        row + 1,
                        0,
                    )) by {
                    if sprite_hits(sprite, vx, vy, k) && before[k] {
                        assert(!passed(k, vx, vy, row as int, 8));
                    }
                }
            }
        }
        row += 1;
    }
    proof {
        assert(screen@ =~= drawn_screen(before, sprite, vx, vy));
        if hit {
            let w = choose|k: int|
                #[trigger] sprite_hits(sprite, vx, vy, k) && before[k] && passed(
                    k,
                    vx,
                    vy,
                    n as int,
                    0,
                );
            assert(sprite_hits(sprite, vx, vy, w) && before[w]);
        } else {
            assert forall|k: int| !(#[trigger] sprite_hits(sprite, vx, vy, k) && before[k]) by {
                if sprite_hits(sprite, vx, vy, k) && before[k] {
                    assert(passed(k, vx, vy, n as int, 0));
                }
            }
        }
    }
    hit
}

} // verus!
