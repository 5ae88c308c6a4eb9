//! The lines that the input probe prints for mouse and keyboard events.

use crate::text::{
    dec, dec_signed, hex, hex2, push_dec, push_hex, to_dec_signed, to_hex2, to_hex_padded,
    zero_padded,
};
use crate::win32::scroll_hook::WM_MOUSEMOVE;
use vstd::prelude::*;
use vstd::string::StringExecFns;

verus! {

/// The name of a mouse message.
pub open spec fn mouse_msg_word(msg: u32) -> Seq<char> {
    match msg {
        0x0200 => "MOVE"@,
        0x0201 => "L-DOWN"@,
        0x0202 => "L-UP"@,
        0x0204 => "R-DOWN"@,
        0x0205 => "R-UP"@,
        0x0207 => "M-DOWN"@,
        0x0208 => "M-UP"@,
        0x020A => "WHEEL"@,
        0x020B => "X1/X2-DOWN"@,
        0x020C => "X1/X2-UP"@,
        0x020E => "HWHEEL"@,
        _ => "OTHER"@,
    }
}

/// The name of a mouse message.
pub fn mouse_msg_name(msg: u32) -> (r: &'static str)
    ensures
        r@ == mouse_msg_word(msg),
{
    match msg {
        0x0200 => "MOVE",
        0x0201 => "L-DOWN",
        0x0202 => "L-UP",
        0x0204 => "R-DOWN",
        0x0205 => "R-UP",
        0x0207 => "M-DOWN",
        0x0208 => "M-UP",
        0x020A => "WHEEL",
        0x020B => "X1/X2-DOWN",
        0x020C => "X1/X2-UP",
        0x020E => "HWHEEL",
        _ => "OTHER",
    }
}

/// The name of a key, or its code in hexadecimal.
pub open spec fn key_word(vk: u32) -> Seq<char> {
    if 0x01 <= vk <= 0x06 {
        "mouse-ish"@
    } else {
        match vk {
            0xA4 => "Alt"@,
            0xA5 => "AltGr"@,
            0x25 => "Left"@,
            0x26 => "Up"@,
            0x27 => "Right"@,
            0x28 => "Down"@,
            0x2F => "Sleep"@,
            0xA6 => "BrowserBack"@,
            0xA7 => "BrowserForward"@,
            0xB0 => "MediaNext"@,
            0xB1 => "MediaPrev"@,
            _ => "vk=0x"@ + hex2(vk as nat, false),
        }
    }
}

/// The name of a key, or its code in hexadecimal.
pub fn key_name(vk: u32) -> (r: String)
    ensures
        r@ == key_word(vk),
{
    if 0x01 <= vk && vk <= 0x06 {
        return "mouse-ish".to_owned();
    }
    match vk {
        0xA4 => "Alt".to_owned(),
        0xA5 => "AltGr".to_owned(),
        0x25 => "Left".to_owned(),
        0x26 => "Up".to_owned(),
        0x27 => "Right".to_owned(),
        0x28 => "Down".to_owned(),
        0x2F => "Sleep".to_owned(),
        0xA6 => "BrowserBack".to_owned(),
        0xA7 => "BrowserForward".to_owned(),
        0xB0 => "MediaNext".to_owned(),
        0xB1 => "MediaPrev".to_owned(),
        _ => "vk=0x".to_owned().concat(to_hex2(vk, false).as_str()),
    }
}

/// Yes or no as the probe prints it.
pub open spec fn truth(b: bool) -> Seq<char> {
    if b {
        "true"@
    } else {
        "false"@
    }
}

fn truth_text(b: bool) -> (r: &'static str)
    ensures
        r@ == truth(b),
{
    if b {
        "true"
    } else {
        "false"
    }
}

/// The high half of a number, as a signed one.
pub open spec fn signed_high_half(v: u32) -> int {
    let h = v as int / 0x10000;
    if h >= 0x8000 {
        h - 0x10000
    } else {
        h
    }
}

/// The line for a mouse event.
pub open spec fn mouse_line_text(msg: u32, mouse_data: u32, flags: u32) -> Seq<char> {
    "mouse msg=0x"@ + zero_padded(hex(msg as nat, false), 4) + " ("@ + mouse_msg_word(msg)
        + ") xbtn_hi="@ + dec((mouse_data / 0x10000) as nat) + " wheel_hi="@ + dec_signed(
        signed_high_half(mouse_data),
    ) + " flags=0x"@ + hex(flags as nat, false) + " injected="@ + truth(flags % 2 == 1)
}

/// The line for a mouse event. Plain movement has none.
pub fn mouse_line(msg: u32, mouse_data: u32, flags: u32) -> (r: Option<String>)
    ensures
        r is None <==> msg == WM_MOUSEMOVE && flags == 0,
        r matches Some(s) ==> s@ == mouse_line_text(msg, mouse_data, flags),
{
    if msg == WM_MOUSEMOVE && flags == 0 {
        return None;
    }
    let high: u32 = mouse_data / 0x10000;
    let signed: i32 = if high >= 0x8000 { high as i32 - 0x10000 } else { high as i32 };
    let mut s = "mouse msg=0x".to_owned();
    s.append(to_hex_padded(msg, 4, false).as_str());
    s.append(" (");
    s.append(mouse_msg_name(msg));
    s.append(") xbtn_hi=");
    push_dec(&mut s, high);
    s.append(" wheel_hi=");
    s.append(to_dec_signed(signed).as_str());
    s.append(" flags=0x");
    push_hex(&mut s, flags, false);
    s.append(" injected=");
    s.append(truth_text(flags % 2 == 1));
    Some(s)
}

/// The message of a key going down.
pub const WM_KEYDOWN: u32 = 0x0100;

/// The line for a key event; the flag of an injected one is the fifth bit.
pub fn key_line(msg: u32, vk: u32, flags: u32) -> (r: String)
    ensures
        r@ == "key "@ + key_word(vk) + " down="@ + truth(msg == WM_KEYDOWN) + " injected="@ + truth(
            (flags / 16) % 2 == 1,
        ) + " flags=0x"@ + hex(flags as nat, false),
{
    let mut s = "key ".to_owned();
    s.append(key_name(vk).as_str());
    s.append(" down=");
    s.append(truth_text(msg == WM_KEYDOWN));
    s.append(" injected=");
    s.append(truth_text((flags / 16) % 2 == 1));
    s.append(" flags=0x");
    push_hex(&mut s, flags, false);
    s
}

/// The high half is read as a signed number of sixteen bits, so a wheel turned
/// down gives a negative one.
pub proof fn law_high_half_is_signed(n: int, low: int)
    requires
        -0x8000 <= n < 0x8000,
        0 <= low < 0x10000,
    ensures
        signed_high_half(((n % 0x10000) * 0x10000 + low) as u32) == n,
{
}

} // verus!
