//! Scroll mode: trigger keys, its settings, and the accumulator that turns
//! pointer travel into whole wheel notches.

use crate::text::{dec, hex2, lemma_dec_value, lemma_hex_value, numeral_value, to_dec, to_hex2};
use vstd::prelude::*;
use vstd::string::StringExecFns;

verus! {

/// A mouse button that can hold scroll mode on.
#[derive(Debug, Clone, Copy, PartialEq, Eq, Structural)]
pub enum TriggerBtn {
    Left,
    Middle,
    Right,
    X1,
    X2,
}

impl Default for TriggerBtn {
    fn default() -> (r: Self)
        ensures
            r == TriggerBtn::X1,
    {
        TriggerBtn::X1
    }
}

impl TriggerBtn {
    /// The name shown in menus.
    pub open spec fn label_text(self) -> Seq<char> {
        match self {
            TriggerBtn::Left => "鼠标左键"@,
            TriggerBtn::Middle => "鼠标中键"@,
            TriggerBtn::Right => "鼠标右键"@,
            TriggerBtn::X1 => "鼠标侧键1"@,
            TriggerBtn::X2 => "鼠标侧键2"@,
        }
    }

    /// The stable number of a button.
    pub open spec fn number(self) -> u32 {
        match self {
            TriggerBtn::Left => 1,
            TriggerBtn::Middle => 2,
            TriggerBtn::Right => 3,
            TriggerBtn::X1 => 4,
            TriggerBtn::X2 => 5,
        }
    }

    /// The name under which the configuration file stores a button.
    pub open spec fn stored_name(self) -> Seq<char> {
        match self {
            TriggerBtn::Left => "left"@,
            TriggerBtn::Middle => "middle"@,
            TriggerBtn::Right => "right"@,
            TriggerBtn::X1 => "x1"@,
            TriggerBtn::X2 => "x2"@,
        }
    }

    /// The name shown in menus.
    pub fn label(self) -> (r: &'static str)
        ensures
            r@ == self.label_text(),
    {
        match self {
            TriggerBtn::Left => "鼠标左键",
            TriggerBtn::Middle => "鼠标中键",
            TriggerBtn::Right => "鼠标右键",
            TriggerBtn::X1 => "鼠标侧键1",
            TriggerBtn::X2 => "鼠标侧键2",
        }
    }

    /// The stable number of the button, for messages and shared cells.
    pub fn code(self) -> (r: u32)
        ensures
            r == self.number(),
    {
        match self {
            TriggerBtn::Left => 1,
            TriggerBtn::Middle => 2,
            TriggerBtn::Right => 3,
            TriggerBtn::X1 => 4,
            TriggerBtn::X2 => 5,
        }
    }

    /// The button with number `c`, if there is one.
    pub fn from_code(c: u32) -> (r: Option<TriggerBtn>)
        ensures
            r is Some <==> 1 <= c <= 5,
            r matches Some(t) ==> t.number() == c,
    {
        match c {
            1 => Some(TriggerBtn::Left),
            2 => Some(TriggerBtn::Middle),
            3 => Some(TriggerBtn::Right),
            4 => Some(TriggerBtn::X1),
            5 => Some(TriggerBtn::X2),
            _ => None,
        }
    }

    /// The name under which the configuration file stores the button.
    pub fn config_name(self) -> (r: &'static str)
        ensures
            r@ == self.stored_name(),
    {
        match self {
            TriggerBtn::Left => "left",
            TriggerBtn::Middle => "middle",
            TriggerBtn::Right => "right",
            TriggerBtn::X1 => "x1",
            TriggerBtn::X2 => "x2",
        }
    }

    /// The button that the configuration file stores under `name`, if any.
    pub fn from_config_name(name: &str) -> (r: Option<TriggerBtn>)
        ensures
            r is Some <==> exists|t: TriggerBtn| #[trigger] t.stored_name() == name@,
            r matches Some(t) ==> t.stored_name() == name@,
    {
        proof {
            assert(TriggerBtn::Left.stored_name() == "left"@);
            assert(TriggerBtn::Middle.stored_name() == "middle"@);
            assert(TriggerBtn::Right.stored_name() == "right"@);
            assert(TriggerBtn::X1.stored_name() == "x1"@);
            assert(TriggerBtn::X2.stored_name() == "x2"@);
        }
        let n = name.to_owned();
        if n == "left".to_owned() {
            Some(TriggerBtn::Left)
        } else if n == "middle".to_owned() {
            Some(TriggerBtn::Middle)
        } else if n == "right".to_owned() {
            Some(TriggerBtn::Right)
        } else if n == "x1".to_owned() {
            Some(TriggerBtn::X1)
        } else if n == "x2".to_owned() {
            Some(TriggerBtn::X2)
        } else {
            None
        }
    }
}

/// Numbers and buttons correspond one to one: a number read back gives the
/// button it came from.
pub proof fn law_codes_are_distinct(a: TriggerBtn, b: TriggerBtn)
    requires
        a.number() == b.number(),
    ensures
        a == b,
{
}

/// Stored names and buttons correspond one to one: a button read back from
/// its stored name is that button.
pub proof fn law_stored_names_are_distinct(a: TriggerBtn, b: TriggerBtn)
    requires
        a.stored_name() == b.stored_name(),
    ensures
        a == b,
{
    reveal_strlit("left");
    reveal_strlit("middle");
    reveal_strlit("right");
    reveal_strlit("x1");
    reveal_strlit("x2");
    if a != b {
        assert("left"@.len() == 4 && "middle"@.len() == 6 && "right"@.len() == 5);
        assert("x1"@[1] == '1' && "x2"@[1] == '2');
    }
}

/// A keyboard key that can hold scroll mode on, alone: pressing any other key
/// while it is down leaves scroll mode.
#[derive(Debug, Clone, Copy, PartialEq, Eq, Structural)]
pub struct KbTrigger {
    /// The virtual key code.
    pub vk: u32,
}

/// The virtual key code with left and right variants of Shift, Ctrl, Alt and
/// Win mapped to one code.
pub open spec fn canonical(vk: u32) -> u32 {
    if vk == 0xA0 || vk == 0xA1 {
        0x10
    } else if vk == 0xA2 || vk == 0xA3 {
        0x11
    } else if vk == 0xA4 || vk == 0xA5 {
        0x12
    } else if vk == 0x5C {
        0x5B
    } else {
        vk
    }
}

/// The display names that are fixed texts.
pub open spec fn key_word(vk: u32) -> Option<Seq<char>> {
    match vk {
        0x08 => Some("Backspace"@),
        0x09 => Some("Tab"@),
        0x0D => Some("Enter"@),
        0x1B => Some("Esc"@),
        0x20 => Some("Space"@),
        0x21 => Some("PgUp"@),
        0x22 => Some("PgDn"@),
        0x23 => Some("End"@),
        0x24 => Some("Home"@),
        0x25 => Some("Left"@),
        0x26 => Some("Up"@),
        0x27 => Some("Right"@),
        0x28 => Some("Down"@),
        0x2C => Some("PrtSc"@),
        0x2D => Some("Insert"@),
        0x2E => Some("Delete"@),
        0x90 => Some("Num Lock"@),
        0x91 => Some("Scroll Lock"@),
        0xA0 => Some("LShift"@),
        0xA1 => Some("RShift"@),
        0xA2 => Some("LCtrl"@),
        0xA3 => Some("RCtrl"@),
        0xA4 => Some("LAlt"@),
        0xA5 => Some("RAlt"@),
        0x5B => Some("Win"@),
        0x5C => Some("Win"@),
        0x10 => Some("Shift"@),
        0x11 => Some("Ctrl"@),
        0x12 => Some("Alt"@),
        0x14 => Some("Caps Lock"@),
        _ => None,
    }
}

/// The display name of a virtual key code: a fixed word; the digit or letter
/// itself; `Num 0`..`Num 9`; `F1`..`F24`; or the code in hexadecimal.
pub open spec fn key_label(vk: u32) -> Seq<char> {
    match key_word(vk) {
        Some(w) => w,
        None => if 0x30 <= vk <= 0x39 || 0x41 <= vk <= 0x5A {
            seq![vk as char]
        } else if 0x60 <= vk <= 0x69 {
            "Num "@ + dec((vk - 0x60) as nat)
        } else if 0x70 <= vk <= 0x87 {
            "F"@ + dec((vk - 0x6F) as nat)
        } else {
            "VK 0x"@ + hex2(vk as nat, true)
        },
    }
}

impl KbTrigger {
    /// The display name, the same for the left and right variant of a key.
    pub fn label(self) -> (r: String)
        ensures
            r@ == key_label(canonical(self.vk)),
    {
        vk_label(self.vk_canonical())
    }

    /// The code with left and right variants mapped to one, for matching.
    pub fn vk_canonical(self) -> (r: u32)
        ensures
            r == canonical(self.vk),
    {
        canonicalize_vk(self.vk)
    }
}

/// Maps the left and right variant of a modifier key to one code.
pub fn canonicalize_vk(vk: u32) -> (r: u32)
    ensures
        r == canonical(vk),
{
    match vk {
        0xA0 | 0xA1 => 0x10,
        0xA2 | 0xA3 => 0x11,
        0xA4 | 0xA5 => 0x12,
        0x5C => 0x5B,
        _ => vk,
    }
}

fn vk_word(vk: u32) -> (r: Option<&'static str>)
    ensures
        r is Some <==> key_word(vk) is Some,
        r matches Some(w) ==> key_word(vk) == Some(w@),
{
    match vk {
        0x08 => Some("Backspace"),
        0x09 => Some("Tab"),
        0x0D => Some("Enter"),
        0x1B => Some("Esc"),
        0x20 => Some("Space"),
        0x21 => Some("PgUp"),
        0x22 => Some("PgDn"),
        0x23 => Some("End"),
        0x24 => Some("Home"),
        0x25 => Some("Left"),
        0x26 => Some("Up"),
        0x27 => Some("Right"),
        0x28 => Some("Down"),
        0x2C => Some("PrtSc"),
        0x2D => Some("Insert"),
        0x2E => Some("Delete"),
        0x90 => Some("Num Lock"),
        0x91 => Some("Scroll Lock"),
        0xA0 => Some("LShift"),
        0xA1 => Some("RShift"),
        0xA2 => Some("LCtrl"),
        0xA3 => Some("RCtrl"),
        0xA4 => Some("LAlt"),
        0xA5 => Some("RAlt"),
        0x5B => Some("Win"),
        0x5C => Some("Win"),
        0x10 => Some("Shift"),
        0x11 => Some("Ctrl"),
        0x12 => Some("Alt"),
        0x14 => Some("Caps Lock"),
        _ => None,
    }
}

/// The display name of a virtual key code.
pub fn vk_label(vk: u32) -> (r: String)
    ensures
        r@ == key_label(vk),
{
    if let Some(w) = vk_word(vk) {
        return w.to_owned();
    }
    if (0x30 <= vk && vk <= 0x39) || (0x41 <= vk && vk <= 0x5A) {
        let mut out = String::new();
        let b: u8 = vk as u8;
        out.push(b as char);
        assert(out@ =~= seq![vk as char]);
        out
    } else if 0x60 <= vk && vk <= 0x69 {
        "Num ".to_owned().concat(to_dec(vk - 0x60).as_str())
    } else if 0x70 <= vk && vk <= 0x87 {
        "F".to_owned().concat(to_dec(vk - 0x6F).as_str())
    } else {
        "VK 0x".to_owned().concat(to_hex2(vk, true).as_str())
    }
}

/// What tells the fixed display names apart: the length, the first two
/// characters and the last one.
spec fn word_traits(vk: u32) -> (int, char, char, char) {
    match vk {
        0x08 => (9, 'B', 'a', 'e'),
        0x09 => (3, 'T', 'a', 'b'),
        0x0D => (5, 'E', 'n', 'r'),
        0x1B => (3, 'E', 's', 'c'),
        0x20 => (5, 'S', 'p', 'e'),
        0x21 => (4, 'P', 'g', 'p'),
        0x22 => (4, 'P', 'g', 'n'),
        0x23 => (3, 'E', 'n', 'd'),
        0x24 => (4, 'H', 'o', 'e'),
        0x25 => (4, 'L', 'e', 't'),
        0x26 => (2, 'U', 'p', 'p'),
        0x27 => (5, 'R', 'i', 't'),
        0x28 => (4, 'D', 'o', 'n'),
        0x2C => (5, 'P', 'r', 'c'),
        0x2D => (6, 'I', 'n', 't'),
        0x2E => (6, 'D', 'e', 'e'),
        0x90 => (8, 'N', 'u', 'k'),
        0x91 => (11, 'S', 'c', 'k'),
        0xA0 => (6, 'L', 'S', 't'),
        0xA1 => (6, 'R', 'S', 't'),
        0xA2 => (5, 'L', 'C', 'l'),
        0xA3 => (5, 'R', 'C', 'l'),
        0xA4 => (4, 'L', 'A', 't'),
        0xA5 => (4, 'R', 'A', 't'),
        0x5B => (3, 'W', 'i', 'n'),
        0x5C => (3, 'W', 'i', 'n'),
        0x10 => (5, 'S', 'h', 't'),
        0x11 => (4, 'C', 't', 'l'),
        0x12 => (3, 'A', 'l', 't'),
        0x14 => (9, 'C', 'a', 'k'),
        _ => (0, ' ', ' ', ' '),
    }
}

proof fn lemma_word_traits(vk: u32)
    requires
        key_word(vk) is Some,
    ensures
        ({
            let w = key_word(vk)->0;
            word_traits(vk) == (w.len() as int, w[0], w[1], w.last())
        }),
{
    reveal_strlit("Backspace");
    reveal_strlit("Tab");
    reveal_strlit("Enter");
    reveal_strlit("Esc");
    reveal_strlit("Space");
    reveal_strlit("PgUp");
    reveal_strlit("PgDn");
    reveal_strlit("End");
    reveal_strlit("Home");
    reveal_strlit("Left");
    reveal_strlit("Up");
    reveal_strlit("Right");
    reveal_strlit("Down");
    reveal_strlit("PrtSc");
    reveal_strlit("Insert");
    reveal_strlit("Delete");
    reveal_strlit("Num Lock");
    reveal_strlit("Scroll Lock");
    reveal_strlit("LShift");
    reveal_strlit("RShift");
    reveal_strlit("LCtrl");
    reveal_strlit("RCtrl");
    reveal_strlit("LAlt");
    reveal_strlit("RAlt");
    reveal_strlit("Win");
    reveal_strlit("Shift");
    reveal_strlit("Ctrl");
    reveal_strlit("Alt");
    reveal_strlit("Caps Lock");
}

proof fn lemma_words_differ(a: u32, b: u32)
    requires
        key_word(a) is Some,
        key_word(b) is Some,
        key_word(a) == key_word(b),
    ensures
        a == b || (a == 0x5B && b == 0x5C) || (a == 0x5C && b == 0x5B),
{
    lemma_word_traits(a);
    lemma_word_traits(b);
}

/// How the display names of the other keys begin and what they stand for.
proof fn lemma_label_shape(vk: u32)
    ensures
        ({
            let s = key_label(vk);
            if key_word(vk) is Some {
                &&& s.len() >= 2
                &&& s[0] != 'F' && s[0] != 'V'
                &&& !(s[0] == 'N' && s.len() == 5)
            } else if 0x30 <= vk <= 0x39 || 0x41 <= vk <= 0x5A {
                s.len() == 1 && s[0] as int == vk
            } else if 0x60 <= vk <= 0x69 {
                &&& s.len() == 5 && s[0] == 'N'
                &&& numeral_value(s.skip(4), 10) == vk - 0x60
            } else if 0x70 <= vk <= 0x87 {
                &&& s.len() >= 2 && s[0] == 'F'
                &&& numeral_value(s.skip(1), 10) == vk - 0x6F
            } else {
                &&& s.len() >= 5 && s[0] == 'V'
                &&& numeral_value(s.skip(5), 16) == vk
            }
        }),
{
    let s = key_label(vk);
    if key_word(vk) is Some {
        lemma_word_traits(vk);
    } else if 0x30 <= vk <= 0x39 || 0x41 <= vk <= 0x5A {
    } else if 0x60 <= vk <= 0x69 {
        reveal_strlit("Num ");
        let n = (vk - 0x60) as nat;
        lemma_dec_value(n);
        assert(s.skip(4) =~= dec(n));
    } else if 0x70 <= vk <= 0x87 {
        reveal_strlit("F");
        let n = (vk - 0x6F) as nat;
        lemma_dec_value(n);
        assert(s.skip(1) =~= dec(n));
    } else {
        reveal_strlit("VK 0x");
        lemma_hex_value(vk as nat, true);
        assert(s.skip(5) =~= hex2(vk as nat, true));
    }
}

/// Every key has a display name, and the names tell keys apart; only the two
/// Win keys share theirs.
pub proof fn law_labels_tell_keys_apart(a: u32, b: u32)
    ensures
        key_label(a).len() > 0,
        key_label(a) == key_label(b) <==> a == b || (a == 0x5B && b == 0x5C) || (a == 0x5C && b
            == 0x5B),
{
    lemma_label_shape(a);
    lemma_label_shape(b);
    if key_label(a) == key_label(b) && key_word(a) is Some {
        lemma_words_differ(a, b);
    }
}

/// Two trigger keys have the same display name just when they are the same key,
/// the left and right variants taken as one.
pub proof fn law_trigger_labels_tell_keys_apart(a: KbTrigger, b: KbTrigger)
    ensures
        key_label(canonical(a.vk)) == key_label(canonical(b.vk)) <==> canonical(a.vk)
            == canonical(b.vk),
{
    law_labels_tell_keys_apart(canonical(a.vk), canonical(b.vk));
}

/// Mapping a code twice is mapping it once, so a mapped code never maps on.
pub proof fn law_canonical_is_idempotent(vk: u32)
    ensures
        canonical(canonical(vk)) == canonical(vk),
{
}

/// The left and right variant of a modifier key match each other and show the
/// same name.
pub proof fn law_sides_are_one_key(left: u32, right: u32)
    requires
        (left == 0xA0 && right == 0xA1) || (left == 0xA2 && right == 0xA3)
            || (left == 0xA4 && right == 0xA5) || (left == 0x5B && right == 0x5C),
    ensures
        canonical(left) == canonical(right),
        key_label(canonical(left)) == key_label(canonical(right)),
{
}

/// Smallest sensitivity, in pixels of travel per scrolled line.
pub const SCROLL_PX_MIN: u32 = 2;

/// Largest sensitivity value.
pub const SCROLL_PX_MAX: u32 = 200;

/// Sensitivity of a fresh setting.
pub const SCROLL_PX_DEFAULT: u32 = 15;

/// The scroll mode settings of a rule or of the global configuration.
#[derive(Debug, Clone, Copy, PartialEq, Eq, Structural)]
pub struct ScrollCfg {
    pub enabled: bool,
    pub trigger: TriggerBtn,
    /// The key that holds scroll mode on, besides the button.
    pub kb_trigger: Option<KbTrigger>,
    /// Pixels of travel per scrolled line; smaller is more sensitive.
    pub px_per_line: u32,
}

impl ScrollCfg {
    /// The settings of a device that has none yet: off, first side button, no
    /// key, default sensitivity.
    pub open spec fn initial() -> ScrollCfg {
        ScrollCfg {
            enabled: false,
            trigger: TriggerBtn::X1,
            kb_trigger: None,
            px_per_line: SCROLL_PX_DEFAULT,
        }
    }
}

impl Default for ScrollCfg {
    fn default() -> (r: Self)
        ensures
            r == ScrollCfg::initial(),
    {
        ScrollCfg {
            enabled: false,
            trigger: TriggerBtn::X1,
            kb_trigger: None,
            px_per_line: SCROLL_PX_DEFAULT,
        }
    }
}

/// The most notches that one wheel message carries: the message holds the
/// amount in sixteen signed bits and one notch is 120.
pub const NOTCHES_MAX: i64 = 273;

/// Quotient rounded towards zero, for a positive divisor.
pub open spec fn trunc_div(a: int, b: int) -> int {
    if a >= 0 {
        a / b
    } else {
        -((-a) / b)
    }
}

/// `v` moved into the range from `lo` to `hi`.
pub open spec fn clamp_int(v: int, lo: int, hi: int) -> int {
    if v < lo {
        lo
    } else if v > hi {
        hi
    } else {
        v
    }
}

/// The whole notches in `pending` pixels and `dy` more pixels of travel, where
/// travel down counts negative and one notch is `notch` pixels.
pub open spec fn notches_out(pending: int, dy: int, notch: int) -> int {
    trunc_div(pending - dy, notch)
}

/// The pixels left over once the whole notches are taken out.
pub open spec fn travel_left(pending: int, dy: int, notch: int) -> int {
    pending - dy - notches_out(pending, dy, notch) * notch
}

/// The wheel amount injected for `dy` more pixels of travel: 120 per whole notch,
/// as far as one message carries it.
pub open spec fn wheel_amount(pending: int, dy: int, notch: int) -> int {
    120 * clamp_int(notches_out(pending, dy, notch), -NOTCHES_MAX as int, NOTCHES_MAX as int)
}

/// Scroll mode is on: it is enabled and one of the triggers is held.
pub open spec fn held_on(enabled: bool, mouse_held: bool, kb_held: bool) -> bool {
    enabled && (mouse_held || kb_held)
}

/// The notches handed out for a series of movements.
pub open spec fn notches_out_all(pending: int, dys: Seq<int>, notch: int) -> int
    decreases dys.len(),
{
    if dys.len() == 0 {
        0
    } else {
        notches_out(pending, dys[0], notch) + notches_out_all(
            travel_left(pending, dys[0], notch),
            dys.skip(1),
            notch,
        )
    }
}

/// The pixels left over after a series of movements.
pub open spec fn travel_left_all(pending: int, dys: Seq<int>, notch: int) -> int
    decreases dys.len(),
{
    if dys.len() == 0 {
        pending
    } else {
        travel_left_all(travel_left(pending, dys[0], notch), dys.skip(1), notch)
    }
}

/// The sum of a series of movements.
pub open spec fn sum(dys: Seq<int>) -> int
    decreases dys.len(),
{
    if dys.len() == 0 {
        0
    } else {
        dys[0] + sum(dys.skip(1))
    }
}

/// What stays behind is less than one notch and keeps the direction of travel.
pub proof fn law_rest_is_below_one_notch(pending: int, dy: int, notch: int)
    requires
        notch > 0,
    ensures
        -notch < travel_left(pending, dy, notch) < notch,
        pending - dy >= 0 ==> travel_left(pending, dy, notch) >= 0,
        pending - dy <= 0 ==> travel_left(pending, dy, notch) <= 0,
{
    let total = pending - dy;
    let m = if total >= 0 { total } else { -total };
    vstd::arithmetic::div_mod::lemma_fundamental_div_mod(m, notch);
    assert((m / notch) * notch == notch * (m / notch)) by (nonlinear_arith);
    assert((-(m / notch)) * notch == -((m / notch) * notch)) by (nonlinear_arith);
}

/// No pixel is lost or made up over any series of movements: the notches
/// handed out and the rest account for all the travel.
pub proof fn law_travel_is_conserved(pending: int, dys: Seq<int>, notch: int)
    requires
        notch > 0,
    ensures
        notches_out_all(pending, dys, notch) * notch + travel_left_all(pending, dys, notch)
            == pending - sum(dys),
    decreases dys.len(),
{
    if dys.len() > 0 {
        let first = notches_out(pending, dys[0], notch);
        let rest = travel_left(pending, dys[0], notch);
        let later = notches_out_all(rest, dys.skip(1), notch);
        law_travel_is_conserved(rest, dys.skip(1), notch);
        assert((first + later) * notch == first * notch + later * notch) by (nonlinear_arith);
    } else {
        assert(0 * notch == 0);
    }
}

/// Slow travel adds up: a movement handed in two pieces of the same direction
/// gives the notches, and leaves the rest, of the whole movement.
pub proof fn law_pieces_add_up(pending: int, a: int, b: int, notch: int)
    requires
        notch > 0,
        (pending >= 0 && a <= 0 && b <= 0) || (pending <= 0 && a >= 0 && b >= 0),
    ensures
        notches_out(pending, a, notch) + notches_out(travel_left(pending, a, notch), b, notch)
            == notches_out(pending, a + b, notch),
        travel_left(travel_left(pending, a, notch), b, notch) == travel_left(
            pending,
            a + b,
            notch,
        ),
{
    let up = pending >= 0 && a <= 0 && b <= 0;
    let p = if up { pending } else { -pending };
    let x = if up { -a } else { a };
    let y = if up { -b } else { b };
    let q = (p + x) / notch;
    law_rest_is_below_one_notch(pending, a, notch);
    vstd::arithmetic::div_mod::lemma_fundamental_div_mod(p + x, notch);
    assert(q * notch == notch * q) by (nonlinear_arith);
    assert((-q) * notch == -(q * notch)) by (nonlinear_arith);
    let r = p + x - q * notch;
    vstd::arithmetic::div_mod::lemma_hoist_over_denominator(r + y, q, notch as nat);
    let n1 = notches_out(pending, a, notch);
    let n2 = notches_out(travel_left(pending, a, notch), b, notch);
    assert((n1 + n2) * notch == n1 * notch + n2 * notch) by (nonlinear_arith);
}

/// Collects pointer travel and hands it out as whole wheel notches.
///
/// One notch is the sensitivity times the lines per notch of the system.
/// Travel short of a notch stays here, so slow movement adds up.
#[derive(Debug, Clone, Copy)]
pub struct WheelAccum {
    accum_px: i64,
}

impl WheelAccum {
    /// Pixels collected and not yet handed out; scrolling up is positive.
    pub closed spec fn pending(&self) -> int {
        self.accum_px as int
    }

    #[verifier::type_invariant]
    spec fn in_range(&self) -> bool {
        -0x4000_0000_0000_0000 < self.accum_px < 0x4000_0000_0000_0000
    }

    /// Takes in `dy_px` pixels of travel (down is positive) and returns the
    /// wheel amount to inject: a multiple of 120, up is positive. With a
    /// sensitivity or lines per notch that is not positive, nothing happens.
    pub fn feed(&mut self, dy_px: i32, px_per_line: i32, lines_per_notch: i32) -> (r: i32)
        ensures
            px_per_line <= 0 || lines_per_notch <= 0 ==> r == 0 && *final(self) == *old(self),
            px_per_line > 0 && lines_per_notch > 0 ==> {
                let notch = px_per_line * lines_per_notch;
                &&& final(self).pending() == travel_left(old(self).pending(), dy_px as int, notch)
                &&& r == wheel_amount(old(self).pending(), dy_px as int, notch)
            },
    {
        if px_per_line <= 0 || lines_per_notch <= 0 {
            return 0;
        }
        proof {
            use_type_invariant(&*self);
        }
        assert(0 < px_per_line * lines_per_notch < 0x4000_0000_0000_0000) by (nonlinear_arith)
            requires
                0 < px_per_line <= i32::MAX,
                0 < lines_per_notch <= i32::MAX,
        ;
        let notch: i64 = px_per_line as i64 * lines_per_notch as i64;
        let total: i64 = self.accum_px - dy_px as i64;
        let magnitude: i64 = if total >= 0 { total } else { -total };
        let whole: i64 = magnitude / notch;
        let rest: i64 = magnitude % notch;
        proof {
            vstd::arithmetic::div_mod::lemma_fundamental_div_mod(magnitude as int, notch as int);
            vstd::arithmetic::div_mod::lemma_div_is_ordered_by_denominator(
                magnitude as int,
                1,
                notch as int,
            );
            assert((-(whole as int)) * notch == -(whole * notch)) by (nonlinear_arith);
            assert(whole * notch == notch * whole) by (nonlinear_arith);
        }
        let n: i64 = if total >= 0 { whole } else { -whole };
        self.accum_px = if total >= 0 { rest } else { -rest };
        let capped: i64 = if n < -NOTCHES_MAX {
            -NOTCHES_MAX
        } else if n > NOTCHES_MAX {
            NOTCHES_MAX
        } else {
            n
        };
        capped as i32 * 120
    }

    /// Forgets the pixels collected so far.
    pub fn reset(&mut self)
        ensures
            final(self).pending() == 0,
    {
        self.accum_px = 0;
    }
}

impl Default for WheelAccum {
    fn default() -> (r: Self)
        ensures
            r.pending() == 0,
    {
        WheelAccum { accum_px: 0 }
    }
}

/// What runs while scroll mode is configured: its settings, which triggers are
/// held, and the travel collected.
#[derive(Debug)]
pub struct ScrollEngine {
    /// The settings in force have scroll mode on.
    pub enabled: bool,
    /// A trigger is held and pointer travel scrolls.
    pub active: bool,
    /// The trigger button is held.
    pub mouse_held: bool,
    /// The trigger key is held, and no other key.
    pub kb_held: bool,
    pub accum: WheelAccum,
    pub trigger: TriggerBtn,
    pub kb_trigger: Option<KbTrigger>,
    pub px_per_line: u32,
}

impl Default for ScrollEngine {
    fn default() -> (r: Self)
        ensures
            !r.enabled,
            !r.active,
            !r.mouse_held,
            !r.kb_held,
            r.accum.pending() == 0,
            r.trigger == TriggerBtn::X1,
            r.kb_trigger is None,
            r.px_per_line == SCROLL_PX_DEFAULT,
    {
        ScrollEngine {
            enabled: false,
            active: false,
            mouse_held: false,
            kb_held: false,
            accum: WheelAccum::default(),
            trigger: TriggerBtn::X1,
            kb_trigger: None,
            px_per_line: SCROLL_PX_DEFAULT,
        }
    }
}

impl ScrollEngine {
    /// Recomputes `active` from the two triggers. Entering scroll mode starts
    /// from no travel; leaving it keeps what was collected.
    pub fn sync_active(&mut self)
        ensures
            final(self).active == held_on(
                old(self).enabled,
                old(self).mouse_held,
                old(self).kb_held,
            ),
            final(self).active && !old(self).active ==> final(self).accum.pending() == 0,
            !final(self).active || old(self).active ==> final(self).accum == old(self).accum,
            final(self).enabled == old(self).enabled,
            final(self).mouse_held == old(self).mouse_held,
            final(self).kb_held == old(self).kb_held,
            final(self).trigger == old(self).trigger,
            final(self).kb_trigger == old(self).kb_trigger,
            final(self).px_per_line == old(self).px_per_line,
    {
        if !self.enabled {
            self.active = false;
            return;
        }
        let want = self.mouse_held || self.kb_held;
        if want && !self.active {
            self.accum.reset();
        }
        self.active = want;
    }
}

/// The wheel amount is a whole number of notches of 120 each that a signed number
/// of sixteen bits holds. It goes against the travel: up for movement up, down
/// for movement down. Travel that makes fewer notches than one message carries is
/// handed out to the last notch.
pub proof fn law_wheel_amount(pending: int, dy: int, notch: int)
    requires
        notch > 0,
    ensures
        ({
            let r = wheel_amount(pending, dy, notch);
            &&& r % 120 == 0
            &&& -0x8000 <= r <= 0x7FFF
            &&& r > 0 ==> dy < pending
            &&& r < 0 ==> dy > pending
            &&& r == 0 <==> -notch < pending - dy < notch
            &&& pending - dy >= notch ==> r >= 120
            &&& dy - pending >= notch ==> r <= -120
            &&& -0x7FFF < 120 * notches_out(pending, dy, notch) < 0x7FFF ==> r == 120
                * notches_out(pending, dy, notch)
            &&& travel_left(pending, dy, notch) != pending - dy ==> r != 0
        }),
{
    law_rest_is_below_one_notch(pending, dy, notch);
    let n = notches_out(pending, dy, notch);
    let total = pending - dy;
    assert(travel_left(pending, dy, notch) == total - n * notch);
    if n >= 1 {
        assert(n * notch >= notch) by (nonlinear_arith)
            requires
                n >= 1,
                notch > 0,
        ;
    } else if n <= -1 {
        assert(n * notch <= -notch) by (nonlinear_arith)
            requires
                n <= -1,
                notch > 0,
        ;
    } else {
        assert(n * notch == 0) by (nonlinear_arith)
            requires
                n == 0,
        ;
    }
}

/// Moving a value into a range changes it no more than it must: a value in the
/// range stays, one below goes to the low end, one above to the high end.
pub proof fn law_nearest_value_in_range(v: int, lo: int, hi: int, other: int)
    requires
        lo <= other <= hi,
    ensures
        lo <= clamp_int(v, lo, hi) <= hi,
        lo <= v <= hi ==> clamp_int(v, lo, hi) == v,
        v <= clamp_int(v, lo, hi) ==> clamp_int(v, lo, hi) <= (if v <= other {
            other
        } else {
            v
        }),
        v >= clamp_int(v, lo, hi) ==> clamp_int(v, lo, hi) >= (if v >= other {
            other
        } else {
            v
        }),
{
}

/// Two keys count as one just when they are the same key, or both are a Shift,
/// both a Ctrl, both an Alt or both a Win key.
pub proof fn law_keys_that_count_as_one(a: u32, b: u32)
    ensures
        canonical(a) == canonical(b) <==> {
            ||| a == b
            ||| (a == 0x10 || a == 0xA0 || a == 0xA1) && (b == 0x10 || b == 0xA0 || b == 0xA1)
            ||| (a == 0x11 || a == 0xA2 || a == 0xA3) && (b == 0x11 || b == 0xA2 || b == 0xA3)
            ||| (a == 0x12 || a == 0xA4 || a == 0xA5) && (b == 0x12 || b == 0xA4 || b == 0xA5)
            ||| (a == 0x5B || a == 0x5C) && (b == 0x5B || b == 0x5C)
        },
        canonical(0x10) == 0x10 && canonical(0x11) == 0x11 && canonical(0x12) == 0x12 && canonical(
            0x5B,
        ) == 0x5B,
{
}

/// Either trigger alone holds scroll mode on, and neither does while it is not
/// enabled.
pub proof fn law_either_trigger_holds(enabled: bool, other: bool)
    ensures
        held_on(true, true, other),
        held_on(true, other, true),
        !held_on(enabled, false, false),
        !held_on(false, enabled, other),
{
}

/// Menus tell the buttons apart.
pub proof fn law_button_labels_are_distinct(a: TriggerBtn, b: TriggerBtn)
    requires
        a.label_text() == b.label_text(),
    ensures
        a == b,
{
    reveal_strlit("鼠标左键");
    reveal_strlit("鼠标中键");
    reveal_strlit("鼠标右键");
    reveal_strlit("鼠标侧键1");
    reveal_strlit("鼠标侧键2");
    assert("鼠标左键"@[2] == '左' && "鼠标中键"@[2] == '中' && "鼠标右键"@[2] == '右');
    assert("鼠标侧键1"@[4] == '1' && "鼠标侧键2"@[4] == '2');
    assert("鼠标侧键1"@[2] == '侧' && "鼠标侧键2"@[2] == '侧');
}

/// Digit and letter keys show themselves, the number pad its digit and the
/// function keys their number, in order.
pub proof fn law_labels_follow_the_keys(vk: u32)
    ensures
        '0' as int <= vk <= '9' as int || 'A' as int <= vk <= 'Z' as int ==> key_label(vk).len()
            == 1 && key_label(vk)[0] as int == vk,
        0x60 <= vk <= 0x69 ==> numeral_value(key_label(vk).skip(4), 10) == vk - 0x60,
        0x70 <= vk <= 0x87 ==> key_label(vk)[0] == 'F' && numeral_value(
            key_label(vk).skip(1),
            10,
        ) == vk - 0x70 + 1,
        vk > 0xFF ==> numeral_value(key_label(vk).skip(5), 16) == vk,
{
    lemma_label_shape(vk);
}

/// The numbers of the buttons are those that messages carry, from one to five.
pub proof fn law_codes_are_stable(t: TriggerBtn)
    ensures
        1 <= t.number() <= 5,
        t.number() == 1 <==> t == TriggerBtn::Left,
        t.number() == 2 <==> t == TriggerBtn::Middle,
        t.number() == 3 <==> t == TriggerBtn::Right,
        t.number() == 4 <==> t == TriggerBtn::X1,
        t.number() == 5 <==> t == TriggerBtn::X2,
{
}

/// Fresh settings are off, with the first side button for a trigger, no key, and a
/// sensitivity within its range.
pub proof fn law_fresh_settings_are_off()
    ensures
        !ScrollCfg::initial().enabled,
        ScrollCfg::initial().trigger == TriggerBtn::X1,
        ScrollCfg::initial().kb_trigger is None,
        ScrollCfg::initial().px_per_line == 15,
        SCROLL_PX_MIN <= ScrollCfg::initial().px_per_line <= SCROLL_PX_MAX,
{
}

} // verus!
