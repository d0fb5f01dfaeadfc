//! The keys and buttons that the clients react to, as the numbers that a key event or a button
//! event carries.

use vstd::prelude::*;

verus! {

pub const KEY_SPACE: u32 = 0x0020;

pub const KEY_1: u32 = 0x0031;

pub const KEY_2: u32 = 0x0032;

pub const KEY_3: u32 = 0x0033;

pub const KEY_4: u32 = 0x0034;

pub const KEY_5: u32 = 0x0035;

pub const KEY_6: u32 = 0x0036;

pub const KEY_7: u32 = 0x0037;

pub const KEY_8: u32 = 0x0038;

pub const KEY_D: u32 = 0x0064;

pub const KEY_E: u32 = 0x0065;

pub const KEY_F: u32 = 0x0066;

pub const KEY_G: u32 = 0x0067;

pub const KEY_Q: u32 = 0x0071;

pub const KEY_R: u32 = 0x0072;

pub const KEY_S: u32 = 0x0073;

pub const KEY_T: u32 = 0x0074;

pub const KEY_W: u32 = 0x0077;

pub const KEY_ESCAPE: u32 = 0xFF1B;

pub const KEY_PAGE_UP: u32 = 0xFF55;

pub const KEY_PAGE_DOWN: u32 = 0xFF56;

/// The left mouse button.
pub const BUTTON_LEFT: u32 = 0x110;

/// The right mouse button.
pub const BUTTON_RIGHT: u32 = 0x111;

/// The key ends the client.
pub open spec fn quits(keysym: u32) -> bool {
    keysym == KEY_ESCAPE || keysym == KEY_Q
}

/// The executable form of [`quits`].
pub fn is_quit_key(keysym: u32) -> (quit: bool)
    ensures
        quit == quits(keysym),
{
    keysym == KEY_ESCAPE || keysym == KEY_Q
}

/// Escape and q end a client, and no other key does.
pub proof fn law_quit_keys(keysym: u32)
    ensures
        quits(keysym) <==> keysym == 0xFF1B || keysym == 'q' as u32,
{
}

} // verus!
