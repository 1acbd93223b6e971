//! Virtual desktop bookkeeping: which desktop a shortcut targets, the
//! previously active desktop, the desktop protected from pruning right after
//! a switch, and which trailing empty desktops to remove.
use vstd::prelude::*;

verus! {

/// How long, in milliseconds, a desktop just switched to is kept even when
/// no window is on it.
pub const PRUNE_GRACE_MS: u64 = 5000;

/// How many times a switch is retried after creating a missing desktop.
pub const MAX_SWITCH_RETRIES: u8 = 10;

/// The previous desktop, when it is not the current one.
pub open spec fn previous_target_spec(current_desktop: u32, previous_desktop: Option<u32>) -> Option<u32> {
    match previous_desktop {
        Some(previous) => if previous != current_desktop { Some(previous) } else { None },
        None => None,
    }
}

pub fn resolve_previous_desktop_target(current_desktop: u32, previous_desktop: Option<u32>) -> (r: Option<u32>)
    ensures
        r == previous_target_spec(current_desktop, previous_desktop),
{
    match previous_desktop {
        Some(previous) if previous != current_desktop => Some(previous),
        _ => None,
    }
}

/// The desktop `delta` places from the current one, when that index is a
/// `u32`.
pub fn resolve_adjacent_desktop_target(current_desktop: u32, delta: i32) -> (r: Option<u32>)
    ensures
        0 <= current_desktop + delta <= u32::MAX ==> r == Some((current_desktop + delta) as u32),
        !(0 <= current_desktop + delta <= u32::MAX) ==> r is None,
{
    let target = current_desktop as i64 + delta as i64;
    if target < 0 {
        return None;
    }
    if target > 4294967295i64 {
        return None;
    }
    Some(target as u32)
}

/// The desktop a number shortcut switches to: the one it names, except that
/// naming the current desktop goes back to the previous one when there is a
/// distinct previous one. When the current desktop is unknown, the named one.
pub open spec fn shortcut_target_spec(shortcut_desktop: u32, current_desktop: Option<u32>, previous_desktop: Option<u32>) -> u32 {
    match current_desktop {
        Some(current) => if current != shortcut_desktop {
            shortcut_desktop
        } else {
            match previous_target_spec(current, previous_desktop) {
                Some(previous) => previous,
                None => shortcut_desktop,
            }
        },
        None => shortcut_desktop,
    }
}

pub fn target_desktop_for_shortcut(
    shortcut_desktop: u32,
    current_desktop: Option<u32>,
    previous_desktop: Option<u32>,
) -> (r: u32)
    ensures
        r == shortcut_target_spec(shortcut_desktop, current_desktop, previous_desktop),
{
    let current_index = match current_desktop {
        Some(index) => index,
        None => return shortcut_desktop,
    };
    if current_index != shortcut_desktop {
        return shortcut_desktop;
    }
    match previous_desktop {
        Some(previous) if previous != current_index => previous,
        _ => shortcut_desktop,
    }
}

/// A desktop protected from pruning since a moment, in milliseconds.
#[derive(Clone, Copy, Debug, PartialEq, Eq, Structural)]
pub struct Grace {
    pub desktop: u32,
    pub at_ms: u64,
}

/// What the desktop switcher remembers between switches.
#[derive(Clone, Copy, Debug, PartialEq, Eq, Structural)]
pub struct DesktopHistory {
    /// The desktop active before the last switch that changed desktops.
    pub previous: Option<u32>,
    /// The desktop last switched to and when.
    pub grace: Option<Grace>,
}

/// Milliseconds since `at_ms`, zero for a time in the future.
pub open spec fn since(now_ms: u64, at_ms: u64) -> int {
    if now_ms >= at_ms { now_ms - at_ms } else { 0 }
}

impl DesktopHistory {
    /// The history after a successful switch from `source` (if known) to
    /// `desktop` at `now_ms`: the source becomes the previous desktop when it
    /// differs, and the target is protected from pruning for a while.
    pub open spec fn recorded(self, source: Option<u32>, desktop: u32, now_ms: u64) -> DesktopHistory {
        DesktopHistory {
            previous: match source {
                Some(s) => if s != desktop { Some(s) } else { self.previous },
                None => self.previous,
            },
            grace: Some(Grace { desktop, at_ms: now_ms }),
        }
    }

    pub fn new() -> (r: DesktopHistory)
        ensures
            r.previous is None && r.grace is None,
    {
        DesktopHistory { previous: None, grace: None }
    }

    /// Records a successful switch.
    pub fn record_switch(&mut self, source: Option<u32>, desktop: u32, now_ms: u64)
        ensures
            *final(self) == old(self).recorded(source, desktop, now_ms),
    {
        if let Some(s) = source {
            if s != desktop {
                self.previous = Some(s);
            }
        }
        self.grace = Some(Grace { desktop, at_ms: now_ms });
    }

    /// The desktop still protected from pruning at `now_ms`: the one last
    /// switched to, during `PRUNE_GRACE_MS` after the switch. An expired
    /// protection is forgotten.
    pub fn protected_desktop_index(&mut self, now_ms: u64) -> (r: Option<u32>)
        ensures
            final(self).previous == old(self).previous,
            match old(self).grace {
                Some(g) => if since(now_ms, g.at_ms) < PRUNE_GRACE_MS {
                    r == Some(g.desktop) && final(self).grace == old(self).grace
                } else {
                    r is None && final(self).grace is None
                },
                None => r is None && final(self).grace is None,
            },
    {
        match self.grace {
            Some(g) => {
                if now_ms.saturating_sub(g.at_ms) < PRUNE_GRACE_MS {
                    Some(g.desktop)
                } else {
                    self.grace = None;
                    None
                }
            },
            None => None,
        }
    }
}

/// Folds the desktop of one more window into the highest occupied index.
pub fn record_occupied(highest: Option<u32>, index: u32) -> (r: Option<u32>)
    ensures
        r == Some(
            match highest {
                Some(h) => if h >= index { h } else { index },
                None => index,
            },
        ),
{
    Some(
        match highest {
            Some(previous) => if previous >= index {
                previous
            } else {
                index
            },
            None => index,
        },
    )
}

/// The highest desktop index to keep: every occupied desktop and the
/// protected one, and desktop 0 in any case.
pub fn retain_until(highest_occupied: Option<u32>, protected_desktop: Option<u32>) -> (r: u32)
    ensures
        highest_occupied matches Some(h) ==> h <= r,
        protected_desktop matches Some(p) ==> p <= r,
        r == 0 || highest_occupied == Some(r) || protected_desktop == Some(r),
{
    let h = match highest_occupied {
        Some(h) => h,
        None => 0,
    };
    let p = match protected_desktop {
        Some(p) => p,
        None => 0,
    };
    if h >= p {
        h
    } else {
        p
    }
}

/// No desktop after `retain_until` exists.
pub open spec fn nothing_to_prune(desktop_count: u32, retain_until: u32) -> bool {
    desktop_count <= 1 || desktop_count - 1 <= retain_until
}

pub fn keeps_all_desktops(desktop_count: u32, retain_until: u32) -> (r: bool)
    ensures
        r == nothing_to_prune(desktop_count, retain_until),
{
    desktop_count <= 1 || desktop_count - 1 <= retain_until
}

/// One step of removing trailing desktops.
#[derive(Clone, Copy, Debug, PartialEq, Eq, Structural)]
pub enum PruneStep {
    /// Leave a desktop that is about to be removed by switching here first.
    SwitchTo(u32),
    /// Remove the last desktop, sending its windows to `fallback`.
    RemoveTail { tail: u32, fallback: u32 },
}

/// When there is a desktop after `retain_until`: if the current desktop lies
/// beyond the ones kept, switch to the last kept desktop; otherwise remove the
/// last desktop, falling back to the one before it. The removed desktop is
/// never the current one nor one that is kept.
pub fn prune_step(desktop_count: u32, current_index: u32, retain_until: u32) -> (r: PruneStep)
    requires
        !nothing_to_prune(desktop_count, retain_until),
    ensures
        current_index > retain_until ==> r == PruneStep::SwitchTo(retain_until),
        current_index <= retain_until ==> r == (PruneStep::RemoveTail {
            tail: (desktop_count - 1) as u32,
            fallback: (desktop_count - 2) as u32,
        }),
        r matches PruneStep::RemoveTail { tail, fallback } ==> {
            &&& retain_until < tail && current_index < tail
            &&& fallback + 1 == tail
        },
{
    let tail_index = desktop_count - 1;
    let fallback_index = tail_index - 1;
    if current_index > retain_until {
        return PruneStep::SwitchTo(retain_until);
    }
    PruneStep::RemoveTail { tail: tail_index, fallback: fallback_index }
}

/// A switch is attempted at most `MAX_SWITCH_RETRIES` times after the first.
pub fn switch_attempt_allowed(tries: u8) -> (r: bool)
    ensures
        r == (tries <= MAX_SWITCH_RETRIES),
{
    tries <= MAX_SWITCH_RETRIES
}

/// Toggling back works: after a switch from one desktop to another, the
/// previous-desktop target from the new desktop is the one just left, and
/// pressing the number shortcut of the new desktop again goes back there.
/// A switch that stays on the same desktop keeps the previous desktop.
pub proof fn lemma_toggle_returns_to_source(h: DesktopHistory, source: u32, desktop: u32, now_ms: u64)
    ensures
        source != desktop ==> {
            let h1 = h.recorded(Some(source), desktop, now_ms);
            &&& previous_target_spec(desktop, h1.previous) == Some(source)
            &&& shortcut_target_spec(desktop, Some(desktop), h1.previous) == source
        },
        h.recorded(Some(desktop), desktop, now_ms).previous == h.previous,
        h.recorded(None, desktop, now_ms).previous == h.previous,
{
}

/// Right after a switch the target desktop is protected from pruning, for
/// `PRUNE_GRACE_MS` milliseconds of the same clock.
pub proof fn lemma_switch_protects_target(h: DesktopHistory, source: Option<u32>, desktop: u32, now_ms: u64, later_ms: u64)
    requires
        now_ms <= later_ms < now_ms + PRUNE_GRACE_MS,
    ensures
        ({
            let g = h.recorded(source, desktop, now_ms).grace;
            g matches Some(g) && g.desktop == desktop && since(later_ms, g.at_ms) < PRUNE_GRACE_MS
        }),
{
}

} // verus!
