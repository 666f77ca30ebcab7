//! The debugger's buttons: where each one lies and what it asks for.

use vstd::prelude::*;

verus! {

/// A command of the user interface.
#[derive(Copy, Clone, PartialEq, Eq, Debug, Structural)]
pub enum ButtonAction {
    Step,
    Run,
    RunFast,
    Pause,
    Reset,
    Load,
    DebugToggle,
}

/// A rectangle on the debugger window and the command behind it.
#[derive(Copy, Clone, Debug)]
pub struct Button {
    pub x: i32,
    pub y: i32,
    pub w: i32,
    pub h: i32,
    pub action: ButtonAction,
}

impl Button {
    /// Whether the point lies in the rectangle: its left and top edges
    /// belong to it, its right and bottom edges do not.
    pub open spec fn covers(&self, mx: int, my: int) -> bool {
        self.x <= mx < self.x + self.w && self.y <= my < self.y + self.h
    }

    pub fn contains(&self, mx: i32, my: i32) -> (inside: bool)
        ensures
            inside == self.covers(mx as int, my as int),
    {
        mx >= self.x && (mx as i64) < self.x as i64 + self.w as i64 && my >= self.y && (my as i64)
            < self.y as i64 + self.h as i64
    }
}

/// The layout of the debugger's buttons.
pub open spec fn button_layout() -> Seq<Button> {
    seq![
        Button { x: 10, y: 10, w: 80, h: 30, action: ButtonAction::Step },
        Button { x: 100, y: 10, w: 80, h: 30, action: ButtonAction::Run },
        Button { x: 190, y: 10, w: 100, h: 30, action: ButtonAction::RunFast },
        Button { x: 310, y: 10, w: 80, h: 30, action: ButtonAction::Pause },
        Button { x: 400, y: 10, w: 80, h: 30, action: ButtonAction::Reset },
        Button { x: 10, y: 50, w: 120, h: 30, action: ButtonAction::Load },
        Button { x: 140, y: 50, w: 120, h: 30, action: ButtonAction::DebugToggle },
    ]
}

pub fn default_buttons() -> (buttons: Vec<Button>)
    ensures
        buttons@ == button_layout(),
{
    let mut buttons: Vec<Button> = Vec::new();
    buttons.push(Button { x: 10, y: 10, w: 80, h: 30, action: ButtonAction::Step });
    buttons.push(Button { x: 100, y: 10, w: 80, h: 30, action: ButtonAction::Run });
    buttons.push(Button { x: 190, y: 10, w: 100, h: 30, action: ButtonAction::RunFast });
    buttons.push(Button { x: 310, y: 10, w: 80, h: 30, action: ButtonAction::Pause });
    buttons.push(Button { x: 400, y: 10, w: 80, h: 30, action: ButtonAction::Reset });
    buttons.push(Button { x: 10, y: 50, w: 120, h: 30, action: ButtonAction::Load });
    buttons.push(Button { x: 140, y: 50, w: 120, h: 30, action: ButtonAction::DebugToggle });
    assert(buttons@ =~= button_layout());
    buttons
}

/// No two buttons of the layout overlap: a point asks for at most one
/// command.
pub proof fn lemma_buttons_disjoint(i: int, j: int, mx: int, my: int)
    requires
        0 <= i < button_layout().len(),
        0 <= j < button_layout().len(),
        button_layout()[i].covers(mx, my),
        button_layout()[j].covers(mx, my),
    ensures
        i == j,
{
}

} // verus!
