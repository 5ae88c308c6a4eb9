//! The list of devices without rules: when it is open, what its messages mean,
//! and how it is drawn.

use crate::menu_model::{Dip, MenuModel, PAD, TOP_PAD};
use crate::win32::host::HostUi;
use crate::win32::layout::{in_row, other_row_at, other_row_top, other_row_y};
use crate::win32::menu::{Back, Ink};
use vstd::prelude::*;

verus! {

/// What is to be done about the list's window.
#[derive(Debug, Clone, Copy, PartialEq, Eq, Structural)]
pub enum OtherWork {
    Nothing,
    Open,
    /// Close it, and the submenu where that is open.
    Close { sub_too: bool },
    Redraw,
}

/// One stroke of drawing the list.
#[derive(Debug, Clone, Copy, PartialEq, Eq, Structural)]
pub enum OtherOp {
    /// The line that stands for no device.
    Empty { x: Dip, cy: Dip },
    RowBack { top: Dip, back: Back },
    /// The text of the device at this place.
    Text { dev: usize, x: Dip, cy: Dip, ink: Ink },
}

/// The row of the list at height `y`.
pub open spec fn is_other_row(y: Dip, n: int, r: Option<usize>) -> bool {
    match r {
        Some(i) => i < n && in_row(y as int, other_row_y(i as int)),
        None => !(other_row_y(0) <= y < other_row_y(n)),
    }
}

impl HostUi {
    /// The state once the list's window is gone.
    pub open spec fn without_other(&self) -> HostUi {
        if self.other_open {
            (HostUi {
                other_open: false,
                other_sub_hover: None,
                other_sub_pressed: None,
                other_dev_hover: None,
                other_pointer_inside: false,
                ..*self
            }).without_sub()
        } else {
            *self
        }
    }

    /// Closes the list, and the submenu with it; returns whether each has a
    /// window to close.
    pub fn close_other(&mut self) -> (r: (bool, bool))
        ensures
            r.0 == old(self).other_open,
            r.1 == (old(self).other_open && old(self).sub_open),
            *final(self) == old(self).without_other(),
    {
        if !self.other_open {
            return (false, false);
        }
        self.other_open = false;
        self.other_sub_hover = None;
        self.other_sub_pressed = None;
        self.other_dev_hover = None;
        self.other_pointer_inside = false;
        let sub = self.close_sub();
        (true, sub)
    }

    /// What is to be done about the list: it is open while its entry is pointed
    /// at, and stays open while the pointer is inside it.
    pub open spec fn other_work(&self) -> OtherWork {
        if self.other_entry_hovered && !self.other_open {
            OtherWork::Open
        } else if !self.other_entry_hovered && self.other_open && !self.other_pointer_inside {
            OtherWork::Close { sub_too: self.sub_open }
        } else if self.other_open {
            OtherWork::Redraw
        } else {
            OtherWork::Nothing
        }
    }

    /// Brings the list in line with what is wanted; a window that is to be
    /// closed is closed already in the state.
    pub fn sync_other(&mut self) -> (r: OtherWork)
        ensures
            r == old(self).other_work(),
            *final(self) == (if r is Close {
                old(self).without_other()
            } else {
                *old(self)
            }),
    {
        if self.other_entry_hovered && !self.other_open {
            return OtherWork::Open;
        }
        if !self.other_entry_hovered && self.other_open && !self.other_pointer_inside {
            let (_, sub_too) = self.close_other();
            return OtherWork::Close { sub_too };
        }
        if self.other_open {
            OtherWork::Redraw
        } else {
            OtherWork::Nothing
        }
    }

    /// The pointer leaving the list asks for closing it.
    pub open spec fn other_unwanted(&self, inside: bool, inside_sub: bool) -> bool {
        !inside && !(inside_sub && self.sub_open) && !self.other_entry_hovered
    }

    /// The list was opened.
    pub fn other_opened(&mut self)
        ensures
            *final(self) == (HostUi {
                other_open: true,
                other_sub_hover: None,
                other_sub_pressed: None,
                ..*old(self)
            }),
    {
        self.other_open = true;
        self.other_sub_hover = None;
        self.other_sub_pressed = None;
    }

    /// The pointer moved in the list; returns whether to draw it anew. The
    /// submenu of the device under it is wanted; without one, the submenu is
    /// wanted as long as the pointer is inside it.
    pub fn on_other_move(&mut self, y: Dip) -> (redraw: bool)
        ensures
            forall|r: Option<usize>| #[trigger]
                is_other_row(y, old(self).other@.len() as int, r) ==> {
                    &&& redraw == (r != old(self).other_sub_hover)
                    &&& *final(self) == (HostUi {
                        model: MenuModel {
                            sub_hover: match r {
                                Some(i) => Some(
                                    (old(self).other@[i as int], other_row_y(i as int) as Dip),
                                ),
                                None => if old(self).model.sub_pointer_inside {
                                    old(self).model.sub_hover
                                } else {
                                    None
                                },
                            },
                            ..old(self).model
                        },
                        other_pointer_inside: true,
                        other_sub_hover: r,
                        other_dev_hover: r,
                        ..*old(self)
                    })
                },
    {
        let row = other_row_at(y, self.other.len());
        let redraw = match (row, self.other_sub_hover) {
            (Some(a), Some(b)) => a != b,
            (None, None) => false,
            _ => true,
        };
        self.other_pointer_inside = true;
        self.other_sub_hover = row;
        self.other_dev_hover = row;
        self.model.sub_hover = match row {
            Some(i) => Some((self.other[i], other_row_top(i))),
            None => if self.model.sub_pointer_inside {
                self.model.sub_hover
            } else {
                None
            },
        };
        proof {
            if let Some(i) = row {
                assert(other_row_y(i as int) as Dip == other_row_y(i as int));
            }
            assert forall|r: Option<usize>| #[trigger]
                is_other_row(y, old(self).other@.len() as int, r) implies r == row by {}
        }
        redraw
    }

    /// The pointer left the list; `inside` and `inside_sub` are whether it is
    /// still inside it or in the submenu. Returns whether to draw the list anew,
    /// and whether to ask for closing it.
    pub fn on_other_leave(&mut self, inside: bool, inside_sub: bool) -> (r: (bool, bool))
        ensures
            r.0 == !inside,
            r.1 == old(self).other_unwanted(inside, inside_sub),
            *final(self) == (if inside {
                HostUi { other_sub_pressed: None, ..*old(self) }
            } else if r.1 {
                HostUi {
                    model: MenuModel { sub_hover: None, ..old(self).model },
                    other_sub_pressed: None,
                    other_pointer_inside: false,
                    other_sub_hover: None,
                    other_dev_hover: None,
                    ..*old(self)
                }
            } else {
                HostUi {
                    other_sub_pressed: None,
                    other_pointer_inside: false,
                    other_sub_hover: None,
                    ..*old(self)
                }
            }),
    {
        self.other_sub_pressed = None;
        if inside {
            return (false, false);
        }
        self.other_pointer_inside = false;
        self.other_sub_hover = None;
        let close = !(inside_sub && self.sub_open) && !self.other_entry_hovered;
        if close {
            self.other_dev_hover = None;
            self.model.sub_hover = None;
        }
        (true, close)
    }

    /// The button went down in the list; returns whether to draw it anew.
    pub fn on_other_down(&mut self, y: Dip) -> (redraw: bool)
        ensures
            forall|r: Option<usize>| #[trigger]
                is_other_row(y, old(self).other@.len() as int, r) ==> redraw == r is Some
                    && *final(self) == (HostUi { other_sub_pressed: r, ..*old(self) }),
    {
        let row = other_row_at(y, self.other.len());
        self.other_sub_pressed = row;
        proof {
            assert forall|r: Option<usize>| #[trigger]
                is_other_row(y, old(self).other@.len() as int, r) implies r == row by {}
        }
        row.is_some()
    }

    /// The button came up in the list: clicking a row does no more than
    /// pointing at it.
    pub fn on_other_up(&mut self)
        ensures
            *final(self) == (HostUi { other_sub_pressed: None, ..*old(self) }),
    {
        self.other_sub_pressed = None;
    }
}

/// How a row of the list is drawn.
pub open spec fn other_row_ops(ui: HostUi, i: int) -> Seq<OtherOp> {
    let top = other_row_y(i);
    let hovered = ui.other_sub_hover == Some(i as usize);
    let pressed = ui.other_sub_pressed == Some(i as usize);
    (if pressed {
        seq![OtherOp::RowBack { top: top as Dip, back: Back::Pressed }]
    } else if hovered {
        seq![OtherOp::RowBack { top: top as Dip, back: Back::Hovered }]
    } else {
        seq![]
    }) + seq![
        OtherOp::Text {
            dev: ui.other@[i],
            x: PAD,
            cy: (top + 13) as Dip,
            ink: if hovered || pressed {
                Ink::HlText
            } else {
                Ink::Text
            },
        },
    ]
}

/// How the first `k` rows of the list are drawn.
pub open spec fn other_rows_ops(ui: HostUi, k: int) -> Seq<OtherOp>
    decreases k,
{
    if k <= 0 {
        seq![]
    } else {
        other_rows_ops(ui, k - 1) + other_row_ops(ui, k - 1)
    }
}

impl HostUi {
    /// How the list is drawn; a line of text stands for no device.
    pub fn draw_other(&self) -> (r: Vec<OtherOp>)
        ensures
            r@ == (if self.other@.len() == 0 {
                seq![OtherOp::Empty { x: PAD, cy: (TOP_PAD + 11) as Dip }]
            } else {
                other_rows_ops(*self, self.other@.len() as int)
            }),
    {
        let mut ops: Vec<OtherOp> = Vec::new();
        if self.other.len() == 0 {
            ops.push(OtherOp::Empty { x: PAD, cy: TOP_PAD + 11 });
            return ops;
        }
        for i in 0..self.other.len()
            invariant
                ops@ == other_rows_ops(*self, i as int),
        {
            let ghost before = ops@;
            let top: Dip = other_row_top(i);
            let hovered = match self.other_sub_hover {
                Some(j) => i == j,
                None => false,
            };
            let pressed = match self.other_sub_pressed {
                Some(j) => i == j,
                None => false,
            };
            if pressed {
                ops.push(OtherOp::RowBack { top, back: Back::Pressed });
            } else if hovered {
                ops.push(OtherOp::RowBack { top, back: Back::Hovered });
            }
            ops.push(
                OtherOp::Text {
                    dev: self.other[i],
                    x: PAD,
                    cy: top + 13,
                    ink: if hovered || pressed {
                        Ink::HlText
                    } else {
                        Ink::Text
                    },
                },
            );
            assert(ops@ =~= before + other_row_ops(*self, i as int));
        }
        ops
    }
}

/// The list opens when its entry is pointed at, and closes when neither the entry
/// nor the list is, with the submenu where that is open; closing it leaves nothing
/// to do.
pub proof fn law_list_is_open_while_wanted(ui: HostUi)
    ensures
        ui.other_entry_hovered && !ui.other_open ==> ui.other_work() == OtherWork::Open,
        ui.other_open && !ui.other_entry_hovered && !ui.other_pointer_inside ==> ui.other_work()
            == (OtherWork::Close { sub_too: ui.sub_open }),
        ui.other_open && (ui.other_entry_hovered || ui.other_pointer_inside) ==> ui.other_work()
            == OtherWork::Redraw,
        !ui.other_open && !ui.other_entry_hovered ==> ui.other_work() == OtherWork::Nothing,
        ui.other_work() is Close ==> ui.without_other().other_work() == OtherWork::Nothing,
{
}

/// Closing the list closes the submenu with it and leaves nothing of either; the
/// menu stays. A list that is not open closes nothing.
pub proof fn law_closed_list_is_gone(ui: HostUi)
    ensures
        ({
            let c = ui.without_other();
            &&& !c.other_open
            &&& ui.other_open ==> !c.sub_open && c.other_sub_hover is None
                && c.other_sub_pressed is None && c.other_dev_hover is None
                && !c.other_pointer_inside && (ui.sub_open ==> c.sub_dev is None)
            &&& !ui.other_open ==> c == ui
            &&& c.menu_open == ui.menu_open && c.hover == ui.hover && c.other_entry_hovered
                == ui.other_entry_hovered
            &&& c.other == ui.other && c.ruled == ui.ruled && c.model.devs == ui.model.devs
        }),
{
}

/// Leaving the list asks for closing it unless the pointer is still in it, in its
/// open submenu, or on its entry.
pub proof fn law_leaving_the_list(ui: HostUi, inside_sub: bool)
    ensures
        !ui.other_unwanted(true, inside_sub),
        ui.sub_open ==> !ui.other_unwanted(false, true),
        ui.other_entry_hovered ==> !ui.other_unwanted(false, inside_sub),
        !ui.other_entry_hovered ==> ui.other_unwanted(false, false),
        !ui.other_entry_hovered && !ui.sub_open ==> ui.other_unwanted(false, inside_sub),
{
}

/// A height is in one row of the list at most, the row that begins at it or above
/// it and ends below it.
pub proof fn law_one_row_of_the_list(y: Dip, n: int, a: Option<usize>, b: Option<usize>)
    requires
        n >= 0,
        is_other_row(y, n, a),
        is_other_row(y, n, b),
    ensures
        a == b,
        a matches Some(i) ==> i < n && other_row_y(i as int) <= y < other_row_y(i + 1),
        a is None ==> y < other_row_y(0) || y >= other_row_y(n),
{
}

/// A row of the list shows its device. It stands out while it is pointed at or
/// pressed, pressed before pointed at, and has no back else.
pub proof fn law_list_rows_are_drawn_as_they_are(ui: HostUi, i: int)
    requires
        0 <= i < ui.other@.len(),
    ensures
        ({
            let ops = other_row_ops(ui, i);
            let hovered = ui.other_sub_hover == Some(i as usize);
            let pressed = ui.other_sub_pressed == Some(i as usize);
            &&& ops.last() is Text && ops.last()->dev == ui.other@[i]
            &&& ops.last()->ink == (if hovered || pressed {
                Ink::HlText
            } else {
                Ink::Text
            })
            &&& ops.len() == (if hovered || pressed {
                2int
            } else {
                1
            })
            &&& pressed ==> ops[0] is RowBack && ops[0]->back == Back::Pressed
            &&& hovered && !pressed ==> ops[0] is RowBack && ops[0]->back == Back::Hovered
        }),
{
}

/// Every row of the list is drawn, in order.
pub proof fn law_all_list_rows_are_drawn(ui: HostUi, k: int, i: int)
    requires
        0 <= i < k <= ui.other@.len(),
    ensures
        ({
            let ops = other_rows_ops(ui, k);
            let at = other_rows_ops(ui, i).len();
            let mine = other_row_ops(ui, i);
            at + mine.len() <= ops.len() && ops.subrange(at as int, (at + mine.len()) as int)
                == mine
        }),
    decreases k,
{
    let ops = other_rows_ops(ui, k);
    let before = other_rows_ops(ui, k - 1);
    let at = other_rows_ops(ui, i).len() as int;
    let mine = other_row_ops(ui, i);
    if i < k - 1 {
        law_all_list_rows_are_drawn(ui, k - 1, i);
        assert(ops.subrange(at, at + mine.len()) =~= before.subrange(at, at + mine.len()));
    } else {
        assert(ops.subrange(at, at + mine.len()) =~= mine);
    }
}

} // verus!
