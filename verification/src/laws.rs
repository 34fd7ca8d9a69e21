use vstd::prelude::*;
use crate::decode::decoded;
use crate::decode::field_n;
use crate::decode::field_nn;
use crate::decode::field_nnn;
use crate::decode::field_op;
use crate::decode::field_x;
use crate::decode::field_y;
use crate::decode::Instruction;
use crate::display::collides;
use crate::display::drawn_screen;
use crate::display::sprite_bit;
use crate::display::sprite_hits;
use crate::error::FatalError;
use crate::font::FONT;
use crate::machine::Machine;
use crate::machine::FLAG;
use crate::machine::RAM_SIZE;
use crate::machine::SCREEN_SIZE;
use crate::machine::STACK_SIZE;
use crate::semantics::any_key_down;
use crate::semantics::first_key_down;
use crate::semantics::flag_of;
use crate::semantics::is_first_key_down;
use crate::semantics::key_named;

verus! {

/// The operand fields of an opcode word are its bit fields: the operation
/// in bits 12 to 15, `x` in bits 8 to 11, `y` in bits 4 to 7, `n` in bits 0 to
/// 3, `nn` in bits 0 to 7 and `nnn` in bits 0 to 11.
pub proof fn lemma_fields_are_bit_fields(word: u16)
    ensures
        field_op(word) == word >> 12,
        field_x(word) == (word >> 8) & 0xF,
        field_y(word) == (word >> 4) & 0xF,
        field_n(word) == word & 0xF,
        field_nn(word) == word & 0xFF,
        field_nnn(word) == word & 0xFFF,
{
    assert(word / 4096 == word >> 12) by (bit_vector);
    assert((word / 256) % 16 == (word >> 8) & 0xF) by (bit_vector);
    assert((word / 16) % 16 == (word >> 4) & 0xF) by (bit_vector);
    assert(word % 16 == word & 0xF) by (bit_vector);
    assert(word % 256 == word & 0xFF) by (bit_vector);
    assert(word % 4096 == word & 0xFFF) by (bit_vector);
}

/// The arithmetic of the two shift instructions is a shift by one bit: the
/// result is the register shifted, the flag the bit that fell out.
pub proof fn lemma_shifts_are_bit_shifts(a: u8)
    ensures
        a / 2 == a >> 1,
        a % 2 == a & 1,
        (a * 2) % 256 == a << 1,
        a / 128 == a >> 7,
{
    assert(a / 2 == a >> 1) by (bit_vector);
    assert(a % 2 == a & 1) by (bit_vector);
    assert((a * 2) % 256 == a << 1) by (bit_vector);
    assert(a / 128 == a >> 7) by (bit_vector);
}

/// Column `col` of a sprite row is bit `7 - col` of its byte.
pub proof fn lemma_sprite_bit_is_bit(row_byte: u8, col: u8)
    requires
        col < 8,
    ensures
        sprite_bit(row_byte, col as int) <==> (row_byte >> (7 - col) as u8) & 1 == 1,
{
    let down = (7 - col) as u8;
    assert((row_byte & (0x80u8 >> col) != 0) <==> ((row_byte >> down) & 1 == 1)) by (bit_vector)
        requires
            col < 8,
            down == 7 - col,
    ;
}

/// Every opcode word that decodes gives an instruction whose operands fit
/// their fields.
pub proof fn lemma_decoded_is_wf(word: u16)
    ensures
        decoded(word) matches Some(ins) ==> ins.wf(),
{
}

/// Whenever an instruction can be fetched, executing it either fails and
/// names the error, or gives a well-formed state.
pub proof fn lemma_step_keeps_wf(m: Machine)
    requires
        m.wf(),
    ensures
        m.step() matches Ok(s) ==> s.wf(),
{
    lemma_decoded_is_wf(m.fetch().unwrap());
}

/// Register addition: `VF` becomes 1 if the sum of the two registers exceeds
/// 255 and 0 if it does not, whatever it held before; the destination,
/// unless it is `VF` itself, holds the sum modulo 256.
pub proof fn lemma_add_sets_carry(m: Machine, x: u8, y: u8)
    requires
        m.wf(),
        m.current() == Some(Instruction::Add { x, y }),
    ensures
        m.step() matches Ok(s) && s.v[FLAG as int] == flag_of(m.v[x as int] + m.v[y as int] > 255)
            && (x != FLAG ==> s.v[x as int] == (m.v[x as int] + m.v[y as int]) % 256),
{
    lemma_decoded_is_wf(m.fetch().unwrap());
}

/// Register subtraction `Vx = Vx - Vy`: `VF` becomes 1 exactly if no borrow
/// was needed, that is if `Vx >= Vy`, and 0 otherwise; the destination,
/// unless it is `VF` itself, holds the difference modulo 256.
pub proof fn lemma_sub_sets_no_borrow(m: Machine, x: u8, y: u8)
    requires
        m.wf(),
        m.current() == Some(Instruction::Sub { x, y }),
    ensures
        m.step() matches Ok(s) && (s.v[FLAG as int] == 1 <==> m.v[x as int] >= m.v[y as int])
            && (s.v[FLAG as int] == 0 <==> m.v[x as int] < m.v[y as int]) && (x != FLAG
            ==> s.v[x as int] == (m.v[x as int] - m.v[y as int]) % 256),
{
    lemma_decoded_is_wf(m.fetch().unwrap());
}

/// Reversed register subtraction `Vx = Vy - Vx`: `VF` becomes 1 exactly if
/// no borrow was needed, that is if `Vy >= Vx`, and 0 otherwise; the
/// destination, unless it is `VF` itself, holds the difference modulo 256.
pub proof fn lemma_sub_reverse_sets_no_borrow(m: Machine, x: u8, y: u8)
    requires
        m.wf(),
        m.current() == Some(Instruction::SubReverse { x, y }),
    ensures
        m.step() matches Ok(s) && (s.v[FLAG as int] == 1 <==> m.v[y as int] >= m.v[x as int])
            && (s.v[FLAG as int] == 0 <==> m.v[y as int] < m.v[x as int]) && (x != FLAG
            ==> s.v[x as int] == (m.v[y as int] - m.v[x as int]) % 256),
{
    lemma_decoded_is_wf(m.fetch().unwrap());
}

/// Whether executing `ins` in state `m` skips the next instruction, for the
/// six skip instructions.
pub open spec fn skip_taken(m: Machine, ins: Instruction) -> bool {
    match ins {
        Instruction::SkipEqImm { x, nn } => m.v[x as int] == nn,
        Instruction::SkipNeImm { x, nn } => m.v[x as int] != nn,
        Instruction::SkipEqReg { x, y } => m.v[x as int] == m.v[y as int],
        Instruction::SkipNeReg { x, y } => m.v[x as int] != m.v[y as int],
        Instruction::SkipKey { x } => m.keys[key_named(m.v[x as int])],
        Instruction::SkipNoKey { x } => !m.keys[key_named(m.v[x as int])],
        _ => false,
    }
}

/// Whether `ins` is one of the six skip instructions.
pub open spec fn is_skip(ins: Instruction) -> bool {
    ins is SkipEqImm || ins is SkipNeImm || ins is SkipEqReg || ins is SkipNeReg
        || ins is SkipKey || ins is SkipNoKey
}

/// A skip instruction moves the program counter by 4 if its condition holds
/// and by 2 if it does not, and changes nothing else.
pub proof fn lemma_skip_moves_by_four_or_two(m: Machine, ins: Instruction)
    requires
        m.wf(),
        m.current() == Some(ins),
        is_skip(ins),
    ensures
        m.step() == Ok::<Machine, FatalError>(
            Machine { pc: (m.pc + if skip_taken(m, ins) { 4int } else { 2int }) as u16, ..m },
        ),
        m.pc + 4 <= u16::MAX,
{
}

/// Drawing a sprite twice at the same place gives back the screen as it
/// was.
pub proof fn lemma_draw_twice_restores(screen: Seq<bool>, sprite: Seq<u8>, vx: u8, vy: u8)
    ensures
        drawn_screen(drawn_screen(screen, sprite, vx, vy), sprite, vx, vy) == screen,
{
    assert(drawn_screen(drawn_screen(screen, sprite, vx, vy), sprite, vx, vy) =~= screen);
}

/// The second of two draws of a sprite at the same place reports a
/// collision exactly if the first draw turned some pixel on.
pub proof fn lemma_second_draw_collides(screen: Seq<bool>, sprite: Seq<u8>, vx: u8, vy: u8)
    requires
        screen.len() == SCREEN_SIZE,
    ensures
        collides(drawn_screen(screen, sprite, vx, vy), sprite, vx, vy) <==> exists|k: int|
            0 <= k < SCREEN_SIZE && !screen[k] && #[trigger] drawn_screen(
                screen,
                sprite,
                vx,
                vy,
            )[k],
{
    let once = drawn_screen(screen, sprite, vx, vy);
    if collides(once, sprite, vx, vy) {
        let k = choose|k: int| #[trigger] sprite_hits(sprite, vx, vy, k) && once[k];
        assert(0 <= k < SCREEN_SIZE && !screen[k] && once[k]);
    }
    if exists|k: int| 0 <= k < SCREEN_SIZE && !screen[k] && #[trigger] once[k] {
        let k = choose|k: int| 0 <= k < SCREEN_SIZE && !screen[k] && #[trigger] once[k];
        assert(sprite_hits(sprite, vx, vy, k) && once[k]);
    }
}

/// Two draw instructions in a row with the same operands, where the first
/// left the two coordinate registers as they were: the second gives back the
/// screen as it was before the first, and sets `VF` to 1 if the first turned
/// some pixel on and to 0 if it turned none on.
pub proof fn lemma_draw_instruction_twice(m: Machine, x: u8, y: u8, n: u8)
    requires
        m.wf(),
        m.current() == Some(Instruction::Draw { x, y, n }),
        m.step() matches Ok(once) && once.current() == Some(Instruction::Draw { x, y, n })
            && once.v[x as int] == m.v[x as int] && once.v[y as int] == m.v[y as int],
    ensures
        m.step() matches Ok(once) && once.step() matches Ok(twice) && twice.screen == m.screen
            && twice.v[FLAG as int] == flag_of(
            exists|k: int| 0 <= k < SCREEN_SIZE && !m.screen[k] && #[trigger] once.screen[k],
        ),
{
    lemma_decoded_is_wf(m.fetch().unwrap());
    let once = m.step().unwrap();
    let vx = m.v[x as int];
    let vy = m.v[y as int];
    let sprite = m.operand(n as int);
    assert(once.operand(n as int) =~= sprite);
    lemma_draw_twice_restores(m.screen, sprite, vx, vy);
    lemma_second_draw_collides(m.screen, sprite, vx, vy);
}

/// The state after the values of `vals` were pushed in order, or the error
/// of the first push that was refused.
pub open spec fn pushed_all(m: Machine, vals: Seq<u16>) -> Result<Machine, FatalError>
    decreases vals.len(),
{
    if vals.len() == 0 {
        Ok(m)
    } else {
        match m.push(vals[0]) {
            Ok(next) => pushed_all(next, vals.drop_first()),
            Err(e) => Err(e),
        }
    }
}

/// A run of pushes succeeds exactly if the stack has room for all of them:
/// counted from an empty stack, sixteen pushes succeed and the seventeenth
/// is refused as a stack overflow.
pub proof fn lemma_stack_capacity(m: Machine, vals: Seq<u16>)
    requires
        m.wf(),
    ensures
        m.sp + vals.len() <= STACK_SIZE ==> (pushed_all(m, vals) matches Ok(s) && s.wf() && s.sp
            == m.sp + vals.len()),
        m.sp + vals.len() > STACK_SIZE ==> pushed_all(m, vals) == Err::<Machine, FatalError>(
            FatalError::StackOverflow,
        ),
    decreases vals.len(),
{
    if vals.len() > 0 {
        match m.push(vals[0]) {
            Ok(next) => {
                lemma_stack_capacity(next, vals.drop_first());
            },
            Err(_) => {},
        }
    }
}

/// What was pushed last is popped first, and the pop leaves the stack
/// pointer where it was before the push. A pop from an empty stack is
/// refused as a stack underflow.
pub proof fn lemma_push_then_pop(m: Machine, val: u16)
    requires
        m.wf(),
    ensures
        m.push(val) matches Ok(s) ==> (s.pop() matches Ok((t, top)) && top == val && t.sp
            == m.sp && t.pc == m.pc),
        m.sp == 0 ==> m.pop() == Err::<(Machine, u16), FatalError>(FatalError::StackUnderflow),
{
}

/// The key-wait instruction with no key down leaves the whole state as it
/// is, the program counter included, however often it is run; with a key
/// down it moves on and leaves the lowest-numbered such key in `Vx`.
pub proof fn lemma_wait_key_blocks(m: Machine, x: u8)
    requires
        m.wf(),
        m.current() == Some(Instruction::WaitKey { x }),
    ensures
        !any_key_down(m.keys) ==> m.step() == Ok::<Machine, FatalError>(m),
        forall|k: int|
            is_first_key_down(m.keys, k) ==> m.step() == Ok::<Machine, FatalError>(
                m.with_reg(x, k as u8).advanced(false),
            ),
{
    assert forall|k: int| is_first_key_down(m.keys, k) implies m.step() == Ok::<
        Machine,
        FatalError,
    >(m.with_reg(x, k as u8).advanced(false)) by {
        let c = first_key_down(m.keys);
        assert(is_first_key_down(m.keys, c));
        assert(c == k);
    }
}

/// A blocked machine does not move: a cycle succeeds and leaves the state
/// as it is.
pub proof fn lemma_awaiting_key_is_a_fixed_point(m: Machine)
    requires
        m.wf(),
        m.awaiting_key(),
    ensures
        m.step() == Ok::<Machine, FatalError>(m),
{
}

/// A cycle that is no jump, call or return keeps an even program counter
/// even.
pub proof fn lemma_step_keeps_pc_even(m: Machine)
    requires
        m.wf(),
        m.pc % 2 == 0,
    ensures
        m.step() matches Ok(s) ==> s.pc % 2 == 0 || (m.current() matches Some(ins) && (
        ins is Jump || ins is JumpOffset || ins is Call || ins is Return)),
{
}

/// An instruction cycle never touches the timers, except that the two
/// timer-set instructions write the one they name.
pub proof fn lemma_step_keeps_timers(m: Machine)
    requires
        m.wf(),
    ensures
        m.step() matches Ok(s) ==> (s.delay == m.delay || m.current() matches Some(
            Instruction::SetDelay { .. },
        )) && (s.sound == m.sound || m.current() matches Some(Instruction::SetSound { .. })),
{
}

/// Only the draw and the clear-screen instruction change the display.
pub proof fn lemma_step_keeps_screen(m: Machine)
    requires
        m.wf(),
    ensures
        m.step() matches Ok(s) ==> s.screen == m.screen || m.current() matches Some(
            Instruction::Draw { .. },
        ) || m.current() == Some(Instruction::ClearScreen),
{
}

/// The initial state is well formed, holds the font in its first eighty
/// bytes and zero in all the others.
pub proof fn lemma_initial_state()
    ensures
        Machine::initial().wf(),
        forall|a: int| 0 <= a < 80 ==> Machine::initial().ram[a] == FONT@[a],
        forall|a: int| 80 <= a < RAM_SIZE ==> Machine::initial().ram[a] == 0,
{
}

/// The glyph-address instruction points `I` at the first of the five font
/// bytes of the digit in the low nibble of `Vx`.
pub proof fn lemma_font_addr_in_font(m: Machine, x: u8)
    requires
        m.wf(),
        m.current() == Some(Instruction::FontAddr { x }),
    ensures
        m.step() matches Ok(s) && s.i == 5 * (m.v[x as int] % 16) && s.i + 5 <= 80,
{
}

/// Loading a program leaves every byte below the start address, the font
/// included, as it was.
pub proof fn lemma_load_keeps_low_memory(m: Machine, data: Seq<u8>)
    requires
        m.wf(),
    ensures
        m.loaded(data).wf(),
        forall|a: int| 0 <= a < 0x200 ==> m.loaded(data).ram[a] == m.ram[a],
        forall|k: int|
            0 <= k < data.len() && 0x200 + k < RAM_SIZE ==> m.loaded(data).ram[0x200 + k]
                == data[k],
{
}

/// An instruction that is no jump, call, return or skip, and no key-wait,
/// moves the program counter by exactly 2.
pub proof fn lemma_step_advances_by_two(m: Machine)
    requires
        m.wf(),
    ensures
        m.step() matches Ok(s) ==> s.pc == m.pc + 2 || (m.current() matches Some(ins) && (
        is_skip(ins) || ins is Jump || ins is JumpOffset || ins is Call || ins is Return
            || ins is WaitKey)),
{
}

} // verus!
