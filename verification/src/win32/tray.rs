//! The tray icon: its tool tip and its clicks.

use crate::text::same_text;
use crate::utf16::{encode, encoded};
use crate::win32::scroll_hook::{WM_LBUTTONUP, WM_RBUTTONUP};
use vstd::prelude::*;

verus! {

/// The number of the icon.
pub fn uid() -> (r: u32)
    ensures
        r == 1,
{
    1
}

/// What is known of the icon.
#[derive(Debug)]
pub struct Tray {
    /// The icon is shown.
    pub added: bool,
    /// The tool tip last set.
    pub tip: String,
}

/// What a fixed buffer of `n` units holds of a text: as many units as fit
/// before a zero.
pub open spec fn cut_units(s: Seq<char>, n: int) -> Seq<u16> {
    if encoded(s).len() < n {
        encoded(s)
    } else {
        encoded(s).take(n - 1)
    }
}

/// Writes a text into a buffer, cut to fit, and a zero behind it. The rest of
/// the buffer stays as it is.
pub fn wide(buf: &mut Vec<u16>, s: &str)
    requires
        old(buf)@.len() > 0,
    ensures
        final(buf)@.len() == old(buf)@.len(),
        ({
            let units = cut_units(s@, old(buf)@.len() as int);
            final(buf)@ == units.push(0) + old(buf)@.skip(units.len() as int + 1)
        }),
{
    let units = encode(s);
    let ghost before = buf@;
    let n: usize = if units.len() < buf.len() { units.len() } else { buf.len() - 1 };
    let mut i: usize = 0;
    while i < n
        invariant
            i <= n < buf@.len(),
            n <= units@.len(),
            buf@.len() == before.len(),
            buf@ == units@.take(i as int) + before.skip(i as int),
        decreases n - i,
    {
        buf.set(i, units[i]);
        i = i + 1;
        assert(buf@ =~= units@.take(i as int) + before.skip(i as int));
    }
    buf.set(n, 0);
    assert(cut_units(s@, before.len() as int) =~= units@.take(n as int));
    assert(buf@ =~= units@.take(n as int).push(0) + before.skip(n + 1));
}

/// The low sixteen bits of a message parameter.
pub open spec fn low_half(lparam: int) -> int {
    lparam % 0x10000
}

/// The notification is the left or right button going up.
pub open spec fn is_button_up(lparam: int) -> bool {
    low_half(lparam) == WM_LBUTTONUP || low_half(lparam) == WM_RBUTTONUP
}

impl Tray {
    /// A new tool tip changes the shown icon.
    pub open spec fn changes_with(&self, tip: Seq<char>) -> bool {
        tip != self.tip@ && self.added
    }

    /// The icon was added with a tool tip, or could not be.
    pub fn add(&mut self, tip: &str, shown: bool)
        ensures
            final(self).tip@ == tip@,
            final(self).added == (shown || old(self).added),
    {
        self.tip = tip.to_owned();
        if shown {
            self.added = true;
        }
    }

    /// A new tool tip; returns whether the shown icon is to be changed. The
    /// same text again, or an icon that is not shown, changes nothing.
    pub fn set_tip(&mut self, tip: &str) -> (modify: bool)
        ensures
            modify == old(self).changes_with(tip@),
            modify ==> final(self).tip@ == tip@,
            !modify ==> final(self).tip == old(self).tip,
            final(self).added == old(self).added,
    {
        if same_text(tip, self.tip.as_str()) || !self.added {
            return false;
        }
        self.tip = tip.to_owned();
        true
    }

    /// The icon is to be removed; returns whether it was shown.
    pub fn remove(&mut self) -> (was_shown: bool)
        ensures
            was_shown == old(self).added,
            *final(self) == (Tray { added: false, ..*old(self) }),
    {
        let was_shown = self.added;
        self.added = false;
        was_shown
    }

    /// Whether a notification is the left or right button going up.
    pub fn is_click_up(lparam: isize) -> (r: bool)
        ensures
            r == is_button_up(lparam as int),
    {
        let low: isize = if lparam >= 0 {
            lparam % 0x10000
        } else {
            0xFFFF - (-(lparam + 1)) % 0x10000
        };
        low as u32 == WM_LBUTTONUP || low as u32 == WM_RBUTTONUP
    }

    /// The tool tip last set.
    pub fn last_tip(&self) -> (r: &str)
        ensures
            r@ == self.tip@,
    {
        self.tip.as_str()
    }
}

/// The size to load the icon in: what the system says, or sixteen.
pub fn tray_icon_size(system: i32) -> (r: u32)
    ensures
        r == (if system > 0 {
            system as int
        } else {
            16
        }),
{
    if system > 0 {
        system as u32
    } else {
        16
    }
}

/// What fits of a text goes into the buffer, and there is always room for the zero
/// behind it; a longer text loses only its end.
pub proof fn law_texts_are_cut_to_fit(s: Seq<char>, n: int)
    requires
        n > 0,
    ensures
        cut_units(s, n).len() < n,
        encoded(s).len() < n ==> cut_units(s, n) == encoded(s),
        encoded(s).len() >= n ==> cut_units(s, n).len() == n - 1,
        forall|i: int|
            0 <= i < cut_units(s, n).len() ==> #[trigger] cut_units(s, n)[i] == encoded(s)[i],
{
}

/// The same tool tip again changes nothing, and neither does any while the icon is
/// not shown.
pub proof fn law_tip_changes_only_a_shown_icon(t: Tray, tip: Seq<char>)
    ensures
        !t.changes_with(t.tip@),
        !t.added ==> !t.changes_with(tip),
        t.added && tip != t.tip@ ==> t.changes_with(tip),
{
}

/// A click is told by the low half of the notification alone: the left or the
/// right button going up.
pub proof fn law_clicks_are_told_by_the_low_half(low: int, high: int)
    requires
        0 <= low < 0x10000,
    ensures
        is_button_up(high * 0x10000 + low) <==> low == 0x0202 || low == 0x0205,
{
}

} // verus!
