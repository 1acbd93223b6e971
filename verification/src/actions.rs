//! The actions a shortcut asks the action worker to carry out.
use vstd::prelude::*;
use crate::desktop::{
    previous_target_spec, resolve_adjacent_desktop_target, resolve_previous_desktop_target,
    shortcut_target_spec, target_desktop_for_shortcut,
};
use crate::snap::SnapDirection;

verus! {

#[derive(Clone, Copy, Debug, PartialEq, Eq, Structural)]
pub enum Action {
    /// Switch to the desktop with this zero-based index, taking the active
    /// window along when `move_window` is set.
    SwitchDesktop { desktop: u32, move_window: bool },
    /// Switch back to the desktop that was active before the current one.
    TogglePreviousDesktop { move_window: bool },
    /// Move the active window to the desktop `delta` places away.
    MoveWindowToAdjacentDesktop { delta: i32 },
    /// Snap the active window in a direction.
    SnapWindow { direction: SnapDirection },
    /// Open a terminal on the local domain or on the default remote one.
    LaunchWezterm { local: bool },
    Quit,
}

/// What the action worker does for one action.
#[derive(Clone, Copy, Debug, PartialEq, Eq, Structural)]
pub enum WorkerStep {
    /// Switch to a desktop, taking the active window along when asked.
    Switch { desktop: u32, move_window: bool },
    Snap { direction: SnapDirection },
    /// Start a terminal on the domain `wezterm_domain(local)`.
    Launch { local: bool },
    Quit,
    /// Nothing to do: there is no such desktop or it is unknown.
    Nothing,
}

/// The worker's plan for `action`, given the current desktop (when it could
/// be read) and the previous one. A number shortcut goes to its desktop, or
/// back to the previous one when it names the current desktop; the toggle
/// goes to a distinct previous desktop; moving a window to an adjacent desktop
/// switches there with the window.
pub open spec fn plan_spec(action: Action, current_desktop: Option<u32>, previous_desktop: Option<u32>) -> WorkerStep {
    match action {
        Action::SwitchDesktop { desktop, move_window } => WorkerStep::Switch {
            desktop: shortcut_target_spec(desktop, current_desktop, previous_desktop),
            move_window,
        },
        Action::TogglePreviousDesktop { move_window } => match current_desktop {
            Some(current) => match previous_target_spec(current, previous_desktop) {
                Some(target) => WorkerStep::Switch { desktop: target, move_window },
                None => WorkerStep::Nothing,
            },
            None => WorkerStep::Nothing,
        },
        Action::MoveWindowToAdjacentDesktop { delta } => match current_desktop {
            Some(current) => if 0 <= current + delta <= u32::MAX {
                WorkerStep::Switch { desktop: (current + delta) as u32, move_window: true }
            } else {
                WorkerStep::Nothing
            },
            None => WorkerStep::Nothing,
        },
        Action::SnapWindow { direction } => WorkerStep::Snap { direction },
        Action::LaunchWezterm { local } => WorkerStep::Launch { local },
        Action::Quit => WorkerStep::Quit,
    }
}

pub fn plan_action(action: Action, current_desktop: Option<u32>, previous_desktop: Option<u32>) -> (r: WorkerStep)
    ensures
        r == plan_spec(action, current_desktop, previous_desktop),
{
    match action {
        Action::SwitchDesktop { desktop, move_window } => WorkerStep::Switch {
            desktop: target_desktop_for_shortcut(desktop, current_desktop, previous_desktop),
            move_window,
        },
        Action::TogglePreviousDesktop { move_window } => {
            let current = match current_desktop {
                Some(current) => current,
                None => return WorkerStep::Nothing,
            };
            match resolve_previous_desktop_target(current, previous_desktop) {
                Some(target) => WorkerStep::Switch { desktop: target, move_window },
                None => WorkerStep::Nothing,
            }
        },
        Action::MoveWindowToAdjacentDesktop { delta } => {
            let current = match current_desktop {
                Some(current) => current,
                None => return WorkerStep::Nothing,
            };
            match resolve_adjacent_desktop_target(current, delta) {
                Some(target) => WorkerStep::Switch { desktop: target, move_window: true },
                None => WorkerStep::Nothing,
            }
        },
        Action::SnapWindow { direction } => WorkerStep::Snap { direction },
        Action::LaunchWezterm { local } => WorkerStep::Launch { local },
        Action::Quit => WorkerStep::Quit,
    }
}

/// The terminal domain to open: `local`, or the default `arch`.
pub fn wezterm_domain(local: bool) -> (r: &'static str)
    ensures
        local ==> r@ == seq!['l', 'o', 'c', 'a', 'l'],
        !local ==> r@ == seq!['a', 'r', 'c', 'h'],
{
    proof {
        reveal_strlit("local");
        reveal_strlit("arch");
    }
    if local {
        "local"
    } else {
        "arch"
    }
}

/// The worker carries the window along exactly as the shortcut asked:
/// switching to a numbered desktop and toggling back to the previous one keep
/// the shortcut's `move_window` flag, and moving to an adjacent desktop always
/// takes the window. Toggling with a known current desktop and a distinct
/// previous one goes to that previous desktop.
pub proof fn lemma_worker_keeps_move_window(action: Action, current_desktop: Option<u32>, previous_desktop: Option<u32>)
    ensures
        ({
            let step = plan_spec(action, current_desktop, previous_desktop);
            &&& action matches Action::SwitchDesktop { move_window, .. } ==> (step matches WorkerStep::Switch {
                move_window: m,
                ..
            } && m == move_window)
            &&& action matches Action::TogglePreviousDesktop { move_window } ==> {
                &&& step matches WorkerStep::Switch { move_window: m, .. } ==> m == move_window
                &&& (current_desktop matches Some(c) && previous_desktop matches Some(p) && p != c)
                    ==> step == WorkerStep::Switch { desktop: previous_desktop.unwrap(), move_window }
            }
            &&& action matches Action::MoveWindowToAdjacentDesktop { .. } ==> (step matches WorkerStep::Switch {
                move_window: m,
                ..
            } ==> m)
        }),
{
}

} // verus!
