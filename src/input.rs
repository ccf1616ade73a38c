use vstd::prelude::*;

verus! {

/// The logical buttons of the console's controller.
#[derive(Debug, Hash, PartialEq, Eq, Structural, Clone, Copy)]
pub enum NesInput {
    Up,
    Down,
    Left,
    Right,
    A,
    B,
    Start,
    Select,
}

/// The bit of the key code that stands for a button.
pub open spec fn key_bit(i: NesInput) -> u16 {
    match i {
        NesInput::A => 1,
        NesInput::B => 2,
        NesInput::Up => 4,
        NesInput::Down => 8,
        NesInput::Left => 16,
        NesInput::Right => 32,
        NesInput::Select => 64,
        NesInput::Start => 128,
    }
}

/// `key_bit(i)` if `i` is held, else 0.
pub open spec fn held_bit(held: Seq<NesInput>, i: NesInput) -> u16 {
    if held.contains(i) {
        key_bit(i)
    } else {
        0
    }
}

/// The key code of a set of held buttons: the sum (equivalently, the OR) of
/// their bits.
pub open spec fn key_code_of(held: Seq<NesInput>) -> u16 {
    (held_bit(held, NesInput::A) + held_bit(held, NesInput::B) + held_bit(held, NesInput::Up)
        + held_bit(held, NesInput::Down) + held_bit(held, NesInput::Left) + held_bit(
        held,
        NesInput::Right,
    ) + held_bit(held, NesInput::Select) + held_bit(held, NesInput::Start)) as u16
}

/// The pointer code of a pixel position, each coordinate clamped to 0..=255.
pub open spec fn pos_code_of(x: int, y: int) -> u16 {
    let cx = if x > 255 { 255 } else { x };
    let cy = if y > 255 { 255 } else { y };
    (cy * 256 + cx) as u16
}

fn is_held(held: &[NesInput], button: NesInput) -> (r: bool)
    ensures
        r == held@.contains(button),
{
    let mut i: usize = 0;
    while i < held.len()
        invariant
            i <= held@.len(),
            forall|j: int| 0 <= j < i ==> held@[j] != button,
        decreases held@.len() - i,
    {
        if held[i] == button {
            return true;
        }
        i = i + 1;
    }
    false
}

/// The key code for the buttons in `held` (repetitions count once).
pub fn encode_keys(held: &[NesInput]) -> (r: u16)
    ensures
        r == key_code_of(held@),
        r < 256,
{
    let mut key_code: u16 = 0;
    if is_held(held, NesInput::A) {
        key_code += 1;
    }
    if is_held(held, NesInput::B) {
        key_code += 2;
    }
    if is_held(held, NesInput::Up) {
        key_code += 4;
    }
    if is_held(held, NesInput::Down) {
        key_code += 8;
    }
    if is_held(held, NesInput::Left) {
        key_code += 16;
    }
    if is_held(held, NesInput::Right) {
        key_code += 32;
    }
    if is_held(held, NesInput::Select) {
        key_code += 64;
    }
    if is_held(held, NesInput::Start) {
        key_code += 128;
    }
    key_code
}

/// The pointer code `y * 256 + x` of a pixel position, with both
/// coordinates clamped to 0..=255.
pub fn encode_position(x: usize, y: usize) -> (r: u16)
    ensures
        r == pos_code_of(x as int, y as int),
{
    let cx: u16 = if x > 255 { 255 } else { x as u16 };
    let cy: u16 = if y > 255 { 255 } else { y as u16 };
    cy * 256 + cx
}

} // verus!
