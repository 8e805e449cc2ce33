//! Input device identifiers.

use vstd::prelude::*;

use crate::dmg::spec::Button;

verus! {

/// Number of bits that a device subclass is shifted by.
pub const RETRO_DEVICE_TYPE_SHIFT: u32 = 8;

/// Mask selecting the base device type of an identifier.
pub const RETRO_DEVICE_MASK: u32 = 0xff;

/// Defines an ID for a subclass of a known device type.
///
/// The subclass ID is `id + 1` shifted above the base device type, which
/// occupies the low bits; bits shifted past the width of the type are lost.
#[allow(non_snake_case)]
pub fn RETRO_DEVICE_SUBCLASS(base: u32, id: u32) -> (r: u32)
    requires
        id < u32::MAX,
    ensures
        r == (((id + 1) as u32) << 8u32) | base,
{
    ((id + 1) << RETRO_DEVICE_TYPE_SHIFT) | base
}

/// The joypad device.
pub const RETRO_DEVICE_JOYPAD: u32 = 1;

/// Joypad button B.
pub const RETRO_DEVICE_ID_JOYPAD_B: u32 = 0;
/// Joypad button Select.
pub const RETRO_DEVICE_ID_JOYPAD_SELECT: u32 = 2;
/// Joypad button Start.
pub const RETRO_DEVICE_ID_JOYPAD_START: u32 = 3;
/// Joypad direction up.
pub const RETRO_DEVICE_ID_JOYPAD_UP: u32 = 4;
/// Joypad direction down.
pub const RETRO_DEVICE_ID_JOYPAD_DOWN: u32 = 5;
/// Joypad direction left.
pub const RETRO_DEVICE_ID_JOYPAD_LEFT: u32 = 6;
/// Joypad direction right.
pub const RETRO_DEVICE_ID_JOYPAD_RIGHT: u32 = 7;
/// Joypad button A.
pub const RETRO_DEVICE_ID_JOYPAD_A: u32 = 8;

/// The joypad keys that are polled each frame, with the console button each
/// one presses, in polling order.
pub open spec fn joypad_table() -> Seq<(u32, Button)> {
    seq![
        (RETRO_DEVICE_ID_JOYPAD_A, Button::A),
        (RETRO_DEVICE_ID_JOYPAD_B, Button::B),
        (RETRO_DEVICE_ID_JOYPAD_SELECT, Button::Select),
        (RETRO_DEVICE_ID_JOYPAD_START, Button::Start),
        (RETRO_DEVICE_ID_JOYPAD_LEFT, Button::Left),
        (RETRO_DEVICE_ID_JOYPAD_RIGHT, Button::Right),
        (RETRO_DEVICE_ID_JOYPAD_UP, Button::Up),
        (RETRO_DEVICE_ID_JOYPAD_DOWN, Button::Down),
    ]
}

/// The joypad keys that are polled each frame, with the console button each
/// one presses.
pub fn joypad_keys() -> (r: Vec<(u32, Button)>)
    ensures
        r@ == joypad_table(),
{
    let r = vec![
        (RETRO_DEVICE_ID_JOYPAD_A, Button::A),
        (RETRO_DEVICE_ID_JOYPAD_B, Button::B),
        (RETRO_DEVICE_ID_JOYPAD_SELECT, Button::Select),
        (RETRO_DEVICE_ID_JOYPAD_START, Button::Start),
        (RETRO_DEVICE_ID_JOYPAD_LEFT, Button::Left),
        (RETRO_DEVICE_ID_JOYPAD_RIGHT, Button::Right),
        (RETRO_DEVICE_ID_JOYPAD_UP, Button::Up),
        (RETRO_DEVICE_ID_JOYPAD_DOWN, Button::Down),
    ];
    assert(r@ =~= joypad_table());
    r
}

} // verus!
