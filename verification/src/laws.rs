//! Theorems about the model: what holds of every machine and every run,
//! proved from the definitions in [`crate::machine`] and
//! [`crate::display`].

use crate::display::{draw_collides, draw_pixels, sprite_covers};
use crate::error::Fault;
use crate::instruction::{decode_spec, Instruction};
use crate::keypad::{any_key, is_lowest_key, lemma_lowest_key_in_range, lowest_key};
use crate::machine::Machine;
use vstd::prelude::*;

verus! {

/// The result of running one cycle for each byte of `rnds` in turn, each
/// byte being the random byte of its cycle. The run ends at the first
/// fault.
pub open spec fn run(s: Machine, rnds: Seq<u8>) -> Result<Machine, Fault>
    decreases rnds.len(),
{
    if rnds.len() == 0 {
        Ok(s)
    } else {
        match s.step(rnds[0]) {
            Ok(next) => run(next, rnds.subrange(1, rnds.len() as int)),
            Err(fault) => Err(fault),
        }
    }
}

/// The machine after `n` timer ticks.
pub open spec fn after_timer_ticks(s: Machine, n: nat) -> Machine
    decreases n,
{
    if n == 0 {
        s
    } else {
        after_timer_ticks(s.after_timer_tick(), (n - 1) as nat)
    }
}

/// A well-formed machine whose program counter points past a fetched
/// instruction stays well formed under every instruction.
pub proof fn lemma_apply_preserves_wf(s: Machine, ins: Instruction, rnd: u8)
    requires
        s.wf(),
        ins.wf(),
        2 <= s.pc <= 4096,
    ensures
        s.apply(ins, rnd) matches Ok(next) ==> next.wf(),
{
    if any_key(s.keys) {
        lemma_lowest_key_in_range(s.keys);
    }
}

/// One cycle keeps a machine well formed: memory, registers, framebuffer
/// and keypad keep their sizes and at most sixteen calls are in progress.
pub proof fn lemma_step_preserves_wf(s: Machine, rnd: u8)
    requires
        s.wf(),
    ensures
        s.step(rnd) matches Ok(next) ==> next.wf(),
{
    if let Some(op) = s.opcode() {
        if let Some(ins) = decode_spec(op) {
            lemma_apply_preserves_wf(s.advanced(), ins, rnd);
        }
    }
}

/// Every decoded instruction has its operands in range.
pub proof fn lemma_decode_wf(op: u16)
    ensures
        decode_spec(op) matches Some(ins) ==> ins.wf(),
{
}

/// A successful fetch reads the two bytes at the program counter as one
/// big-endian word and moves the program counter on by exactly two.
pub proof fn lemma_fetch_big_endian(s: Machine)
    requires
        s.wf(),
        s.pc + 1 < 4096,
    ensures
        s.opcode() == Some((256 * s.memory[s.pc as int] + s.memory[s.pc + 1]) as u16),
        256 * s.memory[s.pc as int] + s.memory[s.pc + 1] < 65536,
        s.advanced().pc == s.pc + 2,
{
}

/// Only the random instruction looks at the random byte.
pub proof fn lemma_step_ignores_random(s: Machine, r1: u8, r2: u8)
    requires
        !s.wants_random(),
    ensures
        s.step(r1) == s.step(r2),
{
}

/// After the clear instruction every pixel is off, whatever was shown
/// before.
pub proof fn lemma_cls_blanks_display(s: Machine, rnd: u8)
    requires
        s.wf(),
        s.opcode() == Some(0x00E0u16),
    ensures
        s.step(rnd) matches Ok(next) && next.display.len() == 2048 && forall|p: int|
            0 <= p < 2048 ==> !next.display[p],
{
}

/// Addition is exact once the carry is counted: the new `Vx` plus 256
/// times the flag is the sum of the operands.
pub proof fn lemma_add_carries(s: Machine, x: u8, y: u8, rnd: u8)
    requires
        s.wf(),
        x < 15,
        y < 16,
    ensures
        s.apply(Instruction::Add { x, y }, rnd) matches Ok(next) && next.v[x as int] + 256
            * next.v[0xF] == s.v[x as int] + s.v[y as int] && next.v[0xF] <= 1,
{
}

/// Subtraction is exact once the borrow is counted: the flag is 1 exactly
/// when `Vx >= Vy`, and the new `Vx` is the difference plus 256 where a
/// borrow occurred.
pub proof fn lemma_sub_borrows(s: Machine, x: u8, y: u8, rnd: u8)
    requires
        s.wf(),
        x < 15,
        y < 16,
    ensures
        s.apply(Instruction::Sub { x, y }, rnd) matches Ok(next) && next.v[x as int] == s.v[x as int]
            - s.v[y as int] + 256 * (1 - next.v[0xF]) && (next.v[0xF] == 1 <==> s.v[x as int]
            >= s.v[y as int]) && next.v[0xF] <= 1,
{
}

/// An instruction that defines the flag leaves the flag in `VF` even where
/// `VF` is also its destination.
pub proof fn lemma_flag_wins(s: Machine, y: u8, rnd: u8)
    requires
        s.wf(),
        y < 16,
    ensures
        s.apply(Instruction::Add { x: 0xF, y }, rnd) matches Ok(next) && next.v[0xF] == (if s.v[0xF]
            + s.v[y as int] > 255 {
            1u8
        } else {
            0u8
        }),
{
}

/// The three stored digits are decimal digits and spell the value of
/// `Vx`; nothing else in memory changes.
pub proof fn lemma_digits_spell_value(s: Machine, x: u8, rnd: u8)
    requires
        s.wf(),
        x < 16,
        s.i + 2 < 4096,
    ensures
        s.apply(Instruction::StoreDigits { x }, rnd) matches Ok(next) && {
            let i = s.i as int;
            &&& next.memory[i] < 10
            &&& next.memory[i + 1] < 10
            &&& next.memory[i + 2] < 10
            &&& 100 * next.memory[i] + 10 * next.memory[i + 1] + next.memory[i + 2] == s.v[x as int]
            &&& forall|a: int| 0 <= a < 4096 && !(i <= a <= i + 2) ==> next.memory[a] == s.memory[a]
        },
{
}

/// For a register that holds a hexadecimal digit, the glyph instruction
/// points the index register at that digit's five rows inside the font.
pub proof fn lemma_glyph_inside_font(s: Machine, x: u8, rnd: u8)
    requires
        s.wf(),
        x < 16,
        s.v[x as int] < 16,
    ensures
        s.apply(Instruction::LoadGlyph { x }, rnd) matches Ok(next) && next.i == 5 * s.v[x as int]
            && next.i + 5 <= 80,
{
}

/// Storing registers and loading them back from the same place restores
/// them.
pub proof fn lemma_store_then_load(s: Machine, x: u8, r1: u8, r2: u8)
    requires
        s.wf(),
        x < 16,
        s.i + x < 4096,
    ensures
        s.apply(Instruction::StoreRegs { x }, r1) matches Ok(stored) && stored.apply(
            Instruction::LoadRegs { x },
            r2,
        ) matches Ok(loaded) && loaded.v == s.v,
{
}

/// A return undoes a call: the program counter is back after the call
/// instruction and the stack is as before.
pub proof fn lemma_ret_undoes_call(s: Machine, addr: u16, r1: u8, r2: u8)
    requires
        s.wf(),
        s.stack.len() < 16,
    ensures
        s.apply(Instruction::Call { addr }, r1) matches Ok(called) && called.pc == addr
            && called.apply(Instruction::Ret, r2) == Ok::<Machine, Fault>(s),
{
    let called = s.apply(Instruction::Call { addr }, r1).unwrap();
    assert(called.stack.drop_last() =~= s.stack);
}

/// A call with sixteen calls in progress and a return with none are
/// reported as faults.
pub proof fn lemma_stack_limits(s: Machine, addr: u16, rnd: u8)
    requires
        s.wf(),
    ensures
        s.stack.len() == 16 ==> s.apply(Instruction::Call { addr }, rnd) == Err::<Machine, Fault>(
            Fault::StackOverflow,
        ),
        s.stack.len() == 0 ==> s.apply(Instruction::Ret, rnd) == Err::<Machine, Fault>(
            Fault::StackUnderflow,
        ),
{
}

/// No instruction but the two timer loads changes a timer.
pub proof fn lemma_timers_change_only_by_load(s: Machine, ins: Instruction, rnd: u8)
    requires
        !(ins is SetDelay),
        !(ins is SetSound),
    ensures
        s.apply(ins, rnd) matches Ok(next) ==> next.delay == s.delay && next.sound == s.sound,
{
}

/// The framebuffer changes only by the clear and draw instructions.
pub proof fn lemma_display_changes_only_by_cls_and_draw(s: Machine, ins: Instruction, rnd: u8)
    requires
        !(ins is Cls),
        !(ins is Draw),
    ensures
        s.apply(ins, rnd) matches Ok(next) ==> next.display == s.display,
{
}

/// Memory changes only by the two store instructions.
pub proof fn lemma_memory_changes_only_by_stores(s: Machine, ins: Instruction, rnd: u8)
    requires
        !(ins is StoreDigits),
        !(ins is StoreRegs),
    ensures
        s.apply(ins, rnd) matches Ok(next) ==> next.memory == s.memory,
{
}

/// No instruction changes the keypad.
pub proof fn lemma_keys_are_read_only(s: Machine, ins: Instruction, rnd: u8)
    ensures
        s.apply(ins, rnd) matches Ok(next) ==> next.keys == s.keys,
{
}

/// The call stack changes only by call and return.
pub proof fn lemma_stack_changes_only_by_call_and_ret(s: Machine, ins: Instruction, rnd: u8)
    requires
        !(ins is Call),
        !(ins is Ret),
    ensures
        s.apply(ins, rnd) matches Ok(next) ==> next.stack == s.stack,
{
}

/// Timers count down to zero and stay there: after `n` ticks each timer
/// has lost `n`, or is zero where it held less.
pub proof fn lemma_timers_count_down(s: Machine, n: nat)
    ensures
        after_timer_ticks(s, n).delay == (if s.delay >= n {
            s.delay - n
        } else {
            0
        }),
        after_timer_ticks(s, n).sound == (if s.sound >= n {
            s.sound - n
        } else {
            0
        }),
    decreases n,
{
    if n > 0 {
        lemma_timers_count_down(s.after_timer_tick(), (n - 1) as nat);
    }
}

/// The tone is due at exactly one tick of a countdown: of the ticks that
/// follow a machine whose sound timer holds `t`, tick number `k` (counted
/// from zero) plays the tone exactly when `k + 1 == t`.
pub proof fn lemma_tone_once(s: Machine, k: nat)
    ensures
        after_timer_ticks(s, k).tone_due() <==> k + 1 == s.sound,
{
    lemma_timers_count_down(s, k);
}

/// While no key is down, a cycle on the wait-for-key instruction changes
/// nothing at all: the program counter stays on the instruction.
pub proof fn lemma_wait_key_blocks(s: Machine, x: u8, rnd: u8)
    requires
        s.wf(),
        s.opcode() matches Some(op) && decode_spec(op) == Some(Instruction::WaitKey { x }),
        !any_key(s.keys),
    ensures
        s.step(rnd) == Ok::<Machine, Fault>(s),
{
}

/// While no key is down, any number of cycles on the wait-for-key
/// instruction changes nothing.
pub proof fn lemma_wait_key_blocks_forever(s: Machine, x: u8, rnds: Seq<u8>)
    requires
        s.wf(),
        s.opcode() matches Some(op) && decode_spec(op) == Some(Instruction::WaitKey { x }),
        !any_key(s.keys),
    ensures
        run(s, rnds) == Ok::<Machine, Fault>(s),
    decreases rnds.len(),
{
    if rnds.len() > 0 {
        lemma_wait_key_blocks(s, x, rnds[0]);
        lemma_wait_key_blocks_forever(s, x, rnds.subrange(1, rnds.len() as int));
    }
}

/// Once the keypad reports a key, the next cycle on the wait-for-key
/// instruction stores the lowest key that is down in `Vx` and moves on to
/// the next instruction; nothing else changes.
pub proof fn lemma_wait_key_resumes(s: Machine, x: u8, keys: Seq<bool>, rnd: u8)
    requires
        s.wf(),
        s.opcode() matches Some(op) && decode_spec(op) == Some(Instruction::WaitKey { x }),
        keys.len() == 16,
        any_key(keys),
    ensures
        is_lowest_key(keys, lowest_key(keys)),
        s.with_keys(keys).step(rnd) == Ok::<Machine, Fault>(
            Machine {
                v: s.v.update(x as int, lowest_key(keys) as u8),
                pc: (s.pc + 2) as u16,
                keys,
                ..s
            },
        ),
{
    lemma_lowest_key_in_range(keys);
}

/// Drawing is its own inverse on the framebuffer: the same sprite drawn
/// twice at the same place leaves every pixel as it was.
pub proof fn lemma_draw_twice_restores(display: Seq<bool>, sprite: Seq<u8>, vx: int, vy: int)
    requires
        display.len() == 2048,
    ensures
        draw_pixels(draw_pixels(display, sprite, vx, vy), sprite, vx, vy) == display,
{
}

/// Of two identical draw instructions in a row, the first reports a
/// collision exactly when the sprite covers a lit pixel, the second exactly
/// when it covers a pixel that was dark before the first, and the second
/// restores the framebuffer. The coordinate registers must not be `VF`,
/// which the first draw overwrites.
pub proof fn lemma_draw_instruction_twice(s: Machine, x: u8, y: u8, rows: u8, r1: u8, r2: u8)
    requires
        s.wf(),
        x < 15,
        y < 15,
        rows < 16,
        s.i + rows <= 4096,
    ensures
        ({
            let sprite = s.sprite(rows);
            let vx = s.v[x as int] as int;
            let vy = s.v[y as int] as int;
            &&& s.apply(Instruction::Draw { x, y, rows }, r1) matches Ok(first)
            &&& first.apply(Instruction::Draw { x, y, rows }, r2) matches Ok(second)
            &&& second.display == s.display
            &&& first.v[0xF] == 1 <==> exists|p: int|
                0 <= p < 2048 && s.display[p] && #[trigger] sprite_covers(sprite, vx, vy, p)
            &&& second.v[0xF] == 1 <==> exists|p: int|
                0 <= p < 2048 && !s.display[p] && #[trigger] sprite_covers(sprite, vx, vy, p)
        }),
{
    let ins = Instruction::Draw { x, y, rows };
    let vx = s.v[x as int] as int;
    let vy = s.v[y as int] as int;
    let sprite = s.sprite(rows);
    let first = s.apply(ins, r1).unwrap();
    if draw_collides(first.display, sprite, vx, vy) {
        let p = choose|p: int|
            0 <= p < 2048 && first.display[p] && #[trigger] sprite_covers(sprite, vx, vy, p);
        assert(!s.display[p]);
    }
    if exists|p: int| 0 <= p < 2048 && !s.display[p] && #[trigger] sprite_covers(sprite, vx, vy, p) {
        let p = choose|p: int|
            0 <= p < 2048 && !s.display[p] && #[trigger] sprite_covers(sprite, vx, vy, p);
        assert(first.display[p]);
    }
}

/// A sprite of one row with only its leftmost bit set covers exactly one
/// pixel: the one at its coordinates, taken modulo the screen's size.
pub proof fn lemma_dot_covers_one_pixel(vx: int, vy: int, p: int)
    requires
        0 <= vx,
        0 <= vy,
        0 <= p < 2048,
    ensures
        sprite_covers(seq![0x80u8], vx, vy, p) <==> p == vx % 64 + 64 * (vy % 32),
{
    let col = (p % 64 - vx) % 64;
    if col < 8 {
        let c = col as u8;
        assert((0x80u8 & (0x80u8 >> c) != 0) <==> c == 0) by (bit_vector)
            requires
                c < 8,
        ;
    }
}

/// Drawing a one-pixel sprite twice at the same coordinates, on a pixel
/// that is off: the first draw lights the pixel and reports no collision,
/// the second puts it out again and reports one.
pub proof fn lemma_dot_drawn_twice(s: Machine, x: u8, y: u8, r1: u8, r2: u8)
    requires
        s.wf(),
        x < 15,
        y < 15,
        s.i < 4096,
        s.memory[s.i as int] == 0x80,
        !s.display[s.v[x as int] % 64 + 64 * (s.v[y as int] % 32)],
    ensures
        ({
            let at = s.v[x as int] % 64 + 64 * (s.v[y as int] % 32);
            &&& s.apply(Instruction::Draw { x, y, rows: 1 }, r1) matches Ok(first)
            &&& first.display == s.display.update(at, true)
            &&& first.v[0xF] == 0
            &&& first.apply(Instruction::Draw { x, y, rows: 1 }, r2) matches Ok(second)
            &&& second.display == s.display
            &&& second.v[0xF] == 1
        }),
{
    let ins = Instruction::Draw { x, y, rows: 1 };
    let vx = s.v[x as int] as int;
    let vy = s.v[y as int] as int;
    let at = vx % 64 + 64 * (vy % 32);
    let dot = seq![0x80u8];
    let first = s.apply(ins, r1).unwrap();
    assert(first.sprite(1) =~= dot);
    assert forall|p: int| 0 <= p < 2048 implies (sprite_covers(dot, vx, vy, p) <==> p == at) by {
        lemma_dot_covers_one_pixel(vx, vy, p);
    }
}

} // verus!
