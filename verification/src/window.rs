//! The visibility of the overlay window: one flag, and what is to be done
//! with the window whenever the flag changes.

use vstd::prelude::*;

verus! {

/// What is to be done with the window.
#[derive(Debug, Clone, Copy, PartialEq, Eq)]
pub enum WindowAction {
    /// Hide the window.
    Hide,
    /// Move the window to its anchor on the screen, show it, give it the
    /// focus, and tell the front end to refresh what it displays.
    Present,
    /// Show the window where it is, and give it the focus.
    Reveal,
}

/// The name of the event that tells the front end to refresh.
pub const WINDOW_SHOWN_EVENT: &'static str = "window-shown";

/// Whether the window is visible after `action` was done.
pub open spec fn visible_after(action: WindowAction) -> bool {
    !(action is Hide)
}

/// Whether the overlay window is visible. Every change of the window
/// goes through this one flag.
#[derive(Debug)]
pub struct VisibilityState {
    visible: bool,
}

impl View for VisibilityState {
    type V = bool;

    closed spec fn view(&self) -> bool {
        self.visible
    }
}

impl VisibilityState {
    /// The state of a window that is hidden.
    pub fn new() -> (r: VisibilityState)
        ensures
            !r@,
    {
        VisibilityState { visible: false }
    }

    /// Whether the window is visible.
    pub fn is_visible(&self) -> (r: bool)
        ensures
            r == self@,
    {
        self.visible
    }

    /// Flips the flag and returns its new value.
    pub fn toggle(&mut self) -> (r: bool)
        ensures
            final(self)@ == !old(self)@,
            r == final(self)@,
    {
        self.visible = !self.visible;
        self.visible
    }

    /// Marks the window as visible.
    pub fn show(&mut self)
        ensures
            final(self)@,
    {
        self.visible = true;
    }

    /// Marks the window as hidden.
    pub fn conceal(&mut self)
        ensures
            !final(self)@,
    {
        self.visible = false;
    }

    /// Shows the window at its anchor.
    pub fn show_window(&mut self) -> (r: WindowAction)
        ensures
            r == WindowAction::Present,
            final(self)@,
    {
        self.show();
        WindowAction::Present
    }

    /// Toggles the window on a signal from another launch: a visible
    /// window is hidden, a hidden one is shown at its anchor. What comes
    /// of the action does not matter to the flag.
    pub fn toggle_window_visibility(&mut self) -> (r: WindowAction)
        ensures
            final(self)@ == !old(self)@,
            r == (if old(self)@ {
                WindowAction::Hide
            } else {
                WindowAction::Present
            }),
    {
        if self.toggle() {
            WindowAction::Present
        } else {
            WindowAction::Hide
        }
    }

    /// Toggles the window for the front end.
    ///
    /// Called with no outcome, it says what is to be done with the
    /// window and leaves the flag as it is. Called with the outcome of
    /// that action, it flips the flag where the action succeeded and
    /// returns the new visibility, and hands on the error where it did
    /// not.
    pub fn toggle_window(&mut self, outcome: Option<Result<(), String>>) -> (r: WindowStep<bool>)
        ensures
            match outcome {
                None => final(self)@ == old(self)@ && r == WindowStep::<bool>::Perform(
                    if old(self)@ {
                        WindowAction::Hide
                    } else {
                        WindowAction::Reveal
                    },
                ),
                Some(Ok(_)) => final(self)@ == !old(self)@ && r == WindowStep::Done(
                    Ok::<bool, String>(!old(self)@),
                ),
                Some(Err(e)) => final(self)@ == old(self)@ && r == WindowStep::Done(
                    Err::<bool, String>(e),
                ),
            },
    {
        match outcome {
            None => WindowStep::Perform(
                if self.visible {
                    WindowAction::Hide
                } else {
                    WindowAction::Reveal
                },
            ),
            Some(Ok(_)) => WindowStep::Done(Ok(self.toggle())),
            Some(Err(e)) => WindowStep::Done(Err(e)),
        }
    }

    /// Hides the window on the front end's request to close it.
    ///
    /// Called with no outcome, it asks for the window to be hidden.
    /// Called with the outcome, it marks the window as hidden where
    /// hiding succeeded, and hands on the error where it did not.
    pub fn close_window(&mut self, outcome: Option<Result<(), String>>) -> (r: WindowStep<()>)
        ensures
            match outcome {
                None => final(self)@ == old(self)@ && r == WindowStep::<()>::Perform(
                    WindowAction::Hide,
                ),
                Some(Ok(_)) => !final(self)@ && r == WindowStep::Done(Ok::<(), String>(())),
                Some(Err(e)) => final(self)@ == old(self)@ && r == WindowStep::Done(
                    Err::<(), String>(e),
                ),
            },
    {
        match outcome {
            None => WindowStep::Perform(WindowAction::Hide),
            Some(Ok(_)) => {
                self.conceal();
                WindowStep::Done(Ok(()))
            },
            Some(Err(e)) => WindowStep::Done(Err(e)),
        }
    }
}

/// What a window operation of the front end answers.
#[derive(Debug, PartialEq, Eq)]
pub enum WindowStep<T> {
    /// Do this with the window, and call again with the outcome.
    Perform(WindowAction),
    /// The operation has ended with this result.
    Done(Result<T, String>),
}

/// A toggle flips the flag, and a second toggle flips it back: starting
/// hidden, toggles give visible, hidden, visible, and so on. No toggle
/// flips twice.
pub proof fn law_toggle_alternates(start: bool, toggles: nat)
    ensures
        after_toggles(start, toggles + 1) == !after_toggles(start, toggles),
        after_toggles(start, toggles + 2) == after_toggles(start, toggles),
        after_toggles(false, toggles) == (toggles % 2 == 1),
    decreases toggles,
{
    if toggles > 0 {
        law_toggle_alternates(start, (toggles - 1) as nat);
        law_toggle_alternates(false, (toggles - 1) as nat);
    }
}

/// The flag after a number of toggles.
pub open spec fn after_toggles(start: bool, toggles: nat) -> bool
    decreases toggles,
{
    if toggles == 0 {
        start
    } else {
        !after_toggles(start, (toggles - 1) as nat)
    }
}

} // verus!
