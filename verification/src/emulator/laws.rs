//! Laws of the instruction set, proved of the model that `execute` meets.

use vstd::prelude::*;
use crate::decoder::Instruction;
use crate::emulator::machine::{flag, sprite_bit, Machine};
use crate::error::RunError;

verus! {

/// The low bit of a byte is 0 or 1.
proof fn lemma_low_bit(b: u8)
    by (bit_vector)
    ensures
        b & 1 == 0 || b & 1 == 1,
{
}

/// `Add` after `Vx = a; Vy = b`: the flag register ends as 1 exactly when
/// `a + b` does not fit a byte, and `Vx` as the sum modulo 256. The flag is
/// written last, so with `x = 15` only the flag is kept. Where `x = y` the
/// two loads hit one register, so `a` and `b` must agree.
pub proof fn lemma_add(
    s: Machine,
    x: usize,
    y: usize,
    a: u8,
    b: u8,
    random: u8,
    keys: Seq<bool>,
)
    requires
        s.wf(),
        x < 16,
        y < 16,
        x == y ==> a == b,
    ensures
        ({
            let loaded = s.after(Instruction::LoadInmm(x, a), random, keys).after(
                Instruction::LoadInmm(y, b),
                random,
                keys,
            );
            let summed = loaded.after(Instruction::Add(x, y), random, keys);
            &&& loaded.outcome(Instruction::Add(x, y)) == Ok::<(), RunError>(())
            &&& summed.v[15] == flag(a + b >= 256)
            &&& x != 15 ==> summed.v[x as int] == (a + b) % 256
            &&& forall|r: int| 0 <= r < 15 && r != x ==> summed.v[r] == loaded.v[r]
        }),
{
}

/// `Sub` after `Vx = a; Vy = b`: `Vx` ends as `a - b` modulo 256, and the
/// flag register as 1 exactly when `a > b`. The difference is written last,
/// so with `x = 15` only the difference is kept. Where `x = y` the two loads
/// hit one register, so `a` and `b` must agree.
pub proof fn lemma_sub(
    s: Machine,
    x: usize,
    y: usize,
    a: u8,
    b: u8,
    random: u8,
    keys: Seq<bool>,
)
    requires
        s.wf(),
        x < 16,
        y < 16,
        x == y ==> a == b,
    ensures
        ({
            let loaded = s.after(Instruction::LoadInmm(x, a), random, keys).after(
                Instruction::LoadInmm(y, b),
                random,
                keys,
            );
            let subtracted = loaded.after(Instruction::Sub(x, y), random, keys);
            &&& loaded.outcome(Instruction::Sub(x, y)) == Ok::<(), RunError>(())
            &&& subtracted.v[x as int] == (a - b) % 256
            &&& x != 15 ==> subtracted.v[15] == flag(a > b)
            &&& forall|r: int| 0 <= r < 15 && r != x ==> subtracted.v[r] == loaded.v[r]
        }),
{
}

/// `ShiftRight` after `Vy = b`: `Vx` ends as `b >> 1`, and the flag
/// register as `b & 1`. Both come from `b`, whichever register held it. The
/// shifted value is written last, so with `x = 15` only that value is kept.
pub proof fn lemma_shift_right(
    s: Machine,
    x: usize,
    y: usize,
    b: u8,
    random: u8,
    keys: Seq<bool>,
)
    requires
        s.wf(),
        x < 16,
        y < 16,
    ensures
        ({
            let loaded = s.after(Instruction::LoadInmm(y, b), random, keys);
            let shifted = loaded.after(Instruction::ShiftRight(x, y), random, keys);
            &&& loaded.outcome(Instruction::ShiftRight(x, y)) == Ok::<(), RunError>(())
            &&& shifted.v[x as int] == b >> 1
            &&& x != 15 ==> shifted.v[15] == b & 1
            &&& forall|r: int| 0 <= r < 15 && r != x ==> shifted.v[r] == loaded.v[r]
            &&& shifted == (Machine { v: shifted.v, ..loaded })
        }),
{
    lemma_low_bit(b);
}

/// The high bit of a byte is 0 or 1.
proof fn lemma_high_bit(b: u8)
    by (bit_vector)
    ensures
        (b >> 7) & 1 == 0 || (b >> 7) & 1 == 1,
{
}

/// `ShiftLeft` after `Vy = b`: `Vx` ends as `b << 1`, cut to eight bits,
/// and the flag register as the high bit of `b`. Both come from `b`,
/// whichever register held it. The shifted value is written last, so with
/// `x = 15` only that value is kept.
pub proof fn lemma_shift_left(
    s: Machine,
    x: usize,
    y: usize,
    b: u8,
    random: u8,
    keys: Seq<bool>,
)
    requires
        s.wf(),
        x < 16,
        y < 16,
    ensures
        ({
            let loaded = s.after(Instruction::LoadInmm(y, b), random, keys);
            let shifted = loaded.after(Instruction::ShiftLeft(x, y), random, keys);
            &&& loaded.outcome(Instruction::ShiftLeft(x, y)) == Ok::<(), RunError>(())
            &&& shifted.v[x as int] == b << 1
            &&& x != 15 ==> shifted.v[15] == (b >> 7) & 1
            &&& forall|r: int| 0 <= r < 15 && r != x ==> shifted.v[r] == loaded.v[r]
            &&& shifted == (Machine { v: shifted.v, ..loaded })
        }),
{
    lemma_high_bit(b);
}

/// A sprite without rows: drawing it completes, changes no pixel and
/// clears the flag register.
pub proof fn lemma_draw_nothing(s: Machine, x: usize, y: usize, random: u8, keys: Seq<bool>)
    requires
        s.wf(),
        x < 16,
        y < 16,
    ensures
        ({
            let drawn = s.after(Instruction::Display(x, y, 0), random, keys);
            &&& s.outcome(Instruction::Display(x, y, 0)) == Ok::<(), RunError>(())
            &&& drawn.screen.pixels == s.screen.pixels
            &&& drawn.v[15] == 0
        }),
{
    s.lemma_no_rows((s.v[x as int] % 64) as int, (s.v[y as int] % 32) as int);
}

/// Drawing the same sprite twice at the same place restores every pixel.
/// After the second draw the flag register is 1 exactly when some set bit
/// of the sprite fell on a pixel that was off before the first.
///
/// The second draw must start from the corner of the first: that is so
/// whenever neither coordinate is held in the flag register.
pub proof fn lemma_draw_twice(
    s: Machine,
    x: usize,
    y: usize,
    n: u8,
    random: u8,
    keys: Seq<bool>,
)
    requires
        s.wf(),
        x < 16,
        y < 16,
        s.sprite_fault(n) is None,
        ({
            let once = s.after(Instruction::Display(x, y, n), random, keys);
            once.v[x as int] % 64 == s.v[x as int] % 64 && once.v[y as int] % 32 == s.v[y as int]
                % 32
        }),
    ensures
        ({
            let once = s.after(Instruction::Display(x, y, n), random, keys);
            let twice = once.after(Instruction::Display(x, y, n), random, keys);
            let sx = (s.v[x as int] % 64) as int;
            let sy = (s.v[y as int] % 32) as int;
            &&& once.outcome(Instruction::Display(x, y, n)) == Ok::<(), RunError>(())
            &&& twice.screen.pixels == s.screen.pixels
            &&& twice.v[15] == flag(
                exists|k: int|
                    0 <= k < 2048 && !#[trigger] s.screen.pixels[k] && s.sprite_lights(
                        sx,
                        sy,
                        n as int,
                        k % 64,
                        k / 64,
                    ),
            )
        }),
{
    let once = s.after(Instruction::Display(x, y, n), random, keys);
    let twice = once.after(Instruction::Display(x, y, n), random, keys);
    let sx = (s.v[x as int] % 64) as int;
    let sy = (s.v[y as int] % 32) as int;
    assert forall|px: int, py: int| #[trigger]
        once.sprite_lights(sx, sy, n as int, px, py) == s.sprite_lights(
            sx,
            sy,
            n as int,
            px,
            py,
        ) by {}
    assert(twice.screen.pixels =~= s.screen.pixels);
    let uncovered = exists|k: int|
        0 <= k < 2048 && !#[trigger] s.screen.pixels[k] && s.sprite_lights(
            sx,
            sy,
            n as int,
            k % 64,
            k / 64,
        );
    if once.sprite_collides(sx, sy, n as int) {
        let k = choose|k: int|
            0 <= k < 2048 && #[trigger] once.screen.pixels[k] && once.sprite_lights(
                sx,
                sy,
                n as int,
                k % 64,
                k / 64,
            );
        assert(!s.screen.pixels[k]);
    }
    if uncovered {
        let k = choose|k: int|
            0 <= k < 2048 && !#[trigger] s.screen.pixels[k] && s.sprite_lights(
                sx,
                sy,
                n as int,
                k % 64,
                k / 64,
            );
        assert(once.screen.pixels[k]);
    }
}

/// Where a sprite lands: its corner is `(Vx mod 64, Vy mod 32)`, and bit
/// `c` of row `r` flips the pixel `c` to the right and `r` below, provided
/// that pixel is on the display.
pub proof fn lemma_draw_flips(
    s: Machine,
    x: usize,
    y: usize,
    n: u8,
    c: int,
    r: int,
    random: u8,
    keys: Seq<bool>,
)
    requires
        s.wf(),
        x < 16,
        y < 16,
        s.sprite_fault(n) is None,
        0 <= c < 8,
        0 <= r < n,
        s.v[x as int] % 64 + c < 64,
        s.v[y as int] % 32 + r < 32,
    ensures
        ({
            let drawn = s.after(Instruction::Display(x, y, n), random, keys);
            let px = s.v[x as int] % 64 + c;
            let py = s.v[y as int] % 32 + r;
            drawn.screen.at(px, py) == (s.screen.at(px, py) != sprite_bit(s.memory[s.i + r], c))
        }),
{
}

/// A sprite is clipped, not wrapped: a pixel to the left of or above the
/// sprite's corner, or eight or more columns to its right, or `n` or more
/// rows below, stays as it was.
pub proof fn lemma_draw_clips(
    s: Machine,
    x: usize,
    y: usize,
    n: u8,
    px: int,
    py: int,
    random: u8,
    keys: Seq<bool>,
)
    requires
        s.wf(),
        x < 16,
        y < 16,
        0 <= px < 64,
        0 <= py < 32,
        ({
            let sx = s.v[x as int] % 64;
            let sy = s.v[y as int] % 32;
            px < sx || px >= sx + 8 || py < sy || py >= sy + n
        }),
    ensures
        s.after(Instruction::Display(x, y, n), random, keys).screen.at(px, py) == s.screen.at(
            px,
            py,
        ),
{
}

} // verus!
