//! The interaction-mode controller: whether the main panel takes mouse input
//! or lets it through to what lies beneath, with a timed override.
//!
//! The controller only decides. Each call returns what the host must do to
//! the window: the properties to write, the observers to notify, the revert
//! to schedule. The host runs the timer and hands its expiry back.
use vstd::prelude::*;

verus! {

/// Whether the main panel consumes mouse input.
#[derive(Clone, Copy, Debug, PartialEq, Eq, Structural)]
pub enum InteractionMode {
    Interactive,
    ClickThrough,
}

/// Window level of an interactive panel (floating).
pub const FLOATING_WINDOW_LEVEL: i32 = 5;

/// Window level of a click-through panel (status, less intrusive).
pub const STATUS_WINDOW_LEVEL: i32 = 3;

/// Delay after which a temporary interactive override ends.
pub const TEMPORARY_ACCESS_MS: u64 = 3000;

/// The window properties a mode stands for, written in this order.
#[derive(Clone, Copy, Debug, PartialEq, Eq, Structural)]
pub struct SurfaceSettings {
    pub ignores_mouse_events: bool,
    pub movable_by_background: bool,
    pub accepts_mouse_moved: bool,
    pub level: i32,
}

/// The opposite mode.
pub open spec fn flipped(mode: InteractionMode) -> InteractionMode {
    match mode {
        InteractionMode::Interactive => InteractionMode::ClickThrough,
        InteractionMode::ClickThrough => InteractionMode::Interactive,
    }
}

/// The window properties of a mode: a click-through panel ignores the
/// mouse, cannot be dragged by its background, does not track the mouse and
/// sits at the status level; an interactive one does the opposite at the
/// floating level.
pub open spec fn settings_for(mode: InteractionMode) -> SurfaceSettings {
    match mode {
        InteractionMode::ClickThrough => SurfaceSettings {
            ignores_mouse_events: true,
            movable_by_background: false,
            accepts_mouse_moved: false,
            level: STATUS_WINDOW_LEVEL,
        },
        InteractionMode::Interactive => SurfaceSettings {
            ignores_mouse_events: false,
            movable_by_background: true,
            accepts_mouse_moved: true,
            level: FLOATING_WINDOW_LEVEL,
        },
    }
}

/// Returns the window properties of a mode.
pub fn surface_settings(mode: InteractionMode) -> (r: SurfaceSettings)
    ensures
        r == settings_for(mode),
{
    match mode {
        InteractionMode::ClickThrough => SurfaceSettings {
            ignores_mouse_events: true,
            movable_by_background: false,
            accepts_mouse_moved: false,
            level: STATUS_WINDOW_LEVEL,
        },
        InteractionMode::Interactive => SurfaceSettings {
            ignores_mouse_events: false,
            movable_by_background: true,
            accepts_mouse_moved: true,
            level: FLOATING_WINDOW_LEVEL,
        },
    }
}

/// What the host does after a mode change: write `settings` to the window,
/// then tell observers that the mode is now `notify`.
#[derive(Clone, Copy, Debug, PartialEq, Eq, Structural)]
pub struct Transition {
    pub settings: SurfaceSettings,
    pub notify: InteractionMode,
}

/// The transition that lands in `mode`.
pub open spec fn transition_to(mode: InteractionMode) -> Transition {
    Transition { settings: settings_for(mode), notify: mode }
}

/// What the host does when a temporary override starts: let the window take
/// mouse input now, and after `delay_ms` hand `token` back to
/// `on_revert_timer`.
#[derive(Clone, Copy, Debug, PartialEq, Eq, Structural)]
pub struct TemporaryAccess {
    pub token: u64,
    pub delay_ms: u64,
}

/// The interaction state of the main panel.
///
/// `override_active` holds while a temporary override lets a click-through
/// panel take input; `generation` numbers the overrides, so that only the
/// timer of the latest one can end it.
#[derive(Clone, Copy, Debug, PartialEq, Eq, Structural)]
pub struct InteractionController {
    pub mode: InteractionMode,
    pub override_active: bool,
    pub generation: u64,
}

/// The generation after `g`, wrapping at the top of the range.
pub open spec fn next_generation(g: u64) -> u64 {
    if g == u64::MAX {
        0
    } else {
        (g + 1) as u64
    }
}

impl InteractionController {
    /// An override runs only over a click-through panel.
    pub open spec fn wf(self) -> bool {
        self.override_active ==> self.mode == InteractionMode::ClickThrough
    }

    /// Whether the window takes mouse input in this state.
    pub open spec fn takes_input(self) -> bool {
        self.mode == InteractionMode::Interactive || self.override_active
    }

    /// The state after forcing `mode`: any override is cancelled.
    pub open spec fn with_mode(self, mode: InteractionMode) -> Self {
        InteractionController { mode, override_active: false, generation: self.generation }
    }

    /// The state after a temporary-interactive request. Over a
    /// click-through panel a new override starts and replaces any earlier
    /// one; over an interactive panel nothing changes.
    pub open spec fn requested(self) -> Self {
        if self.mode == InteractionMode::ClickThrough {
            InteractionController { override_active: true, generation: next_generation(self.generation), ..self }
        } else {
            self
        }
    }

    /// Whether the timer carrying `token` ends the running override.
    pub open spec fn revert_due(self, token: u64) -> bool {
        self.override_active && token == self.generation
    }

    /// The state after the timer carrying `token` fires.
    pub open spec fn expired(self, token: u64) -> Self {
        if self.revert_due(token) {
            InteractionController { override_active: false, ..self }
        } else {
            self
        }
    }

    /// A controller in `initial` mode with no override.
    pub fn new(initial: InteractionMode) -> (r: Self)
        ensures
            r.mode == initial,
            !r.override_active,
            r.generation == 0,
            r.wf(),
    {
        InteractionController { mode: initial, override_active: false, generation: 0 }
    }

    /// Whether the window takes mouse input now.
    pub fn accepts_input(&self) -> (r: bool)
        ensures
            r == self.takes_input(),
    {
        match self.mode {
            InteractionMode::Interactive => true,
            InteractionMode::ClickThrough => self.override_active,
        }
    }

    /// Flips the mode and cancels any override.
    pub fn toggle(&mut self) -> (r: Transition)
        requires
            old(self).wf(),
        ensures
            *final(self) == old(self).with_mode(flipped(old(self).mode)),
            final(self).wf(),
            r == transition_to(final(self).mode),
    {
        let mode = match self.mode {
            InteractionMode::Interactive => InteractionMode::ClickThrough,
            InteractionMode::ClickThrough => InteractionMode::Interactive,
        };
        self.set(mode)
    }

    /// Forces `mode`, whatever the current one, and cancels any override.
    /// Observers are notified even when the mode does not change.
    pub fn set(&mut self, mode: InteractionMode) -> (r: Transition)
        ensures
            *final(self) == old(self).with_mode(mode),
            final(self).wf(),
            r == transition_to(mode),
    {
        self.mode = mode;
        self.override_active = false;
        Transition { settings: surface_settings(mode), notify: mode }
    }

    /// Lets a click-through panel take input for a fixed delay. Returns
    /// `None` and changes nothing when the panel is interactive.
    pub fn request_temporary_interactive(&mut self) -> (r: Option<TemporaryAccess>)
        requires
            old(self).wf(),
        ensures
            *final(self) == old(self).requested(),
            final(self).wf(),
            old(self).mode == InteractionMode::Interactive ==> r is None,
            old(self).mode == InteractionMode::ClickThrough ==> r == Some(
                TemporaryAccess { token: final(self).generation, delay_ms: TEMPORARY_ACCESS_MS },
            ),
    {
        match self.mode {
            InteractionMode::Interactive => None,
            InteractionMode::ClickThrough => {
                self.generation = if self.generation == u64::MAX {
                    0
                } else {
                    self.generation + 1
                };
                self.override_active = true;
                Some(TemporaryAccess { token: self.generation, delay_ms: TEMPORARY_ACCESS_MS })
            },
        }
    }

    /// Handles the expiry of the timer that carried `token`. Returns whether
    /// the host must make the window ignore the mouse again; a timer of an
    /// override that was replaced or cancelled does nothing.
    pub fn on_revert_timer(&mut self, token: u64) -> (r: bool)
        requires
            old(self).wf(),
        ensures
            *final(self) == old(self).expired(token),
            final(self).wf(),
            r == old(self).revert_due(token),
    {
        if self.override_active && token == self.generation {
            self.override_active = false;
            true
        } else {
            false
        }
    }
}

/// Toggling twice restores the mode, and the two transitions announce the
/// opposite mode and then the starting one.
pub proof fn toggle_twice_restores(s: InteractionController)
    requires
        s.wf(),
    ensures
        ({
            let once = s.with_mode(flipped(s.mode));
            let twice = once.with_mode(flipped(once.mode));
            &&& twice.mode == s.mode
            &&& transition_to(once.mode).notify == flipped(s.mode)
            &&& transition_to(twice.mode).notify == s.mode
            &&& transition_to(twice.mode).settings == settings_for(s.mode)
        }),
{
}

/// A temporary-interactive request over an interactive panel changes
/// nothing.
pub proof fn request_over_interactive_is_noop(s: InteractionController)
    requires
        s.wf(),
        s.mode == InteractionMode::Interactive,
    ensures
        s.requested() == s,
{
}

/// After a temporary-interactive request over a click-through panel, the
/// panel takes input; when the timer of that request fires, it is
/// click-through again and ignores the mouse, with no other call between.
pub proof fn temporary_access_reverts(s: InteractionController)
    requires
        s.wf(),
        s.mode == InteractionMode::ClickThrough,
    ensures
        s.requested().takes_input(),
        s.requested().revert_due(s.requested().generation),
        s.requested().expired(s.requested().generation).mode == InteractionMode::ClickThrough,
        !s.requested().expired(s.requested().generation).takes_input(),
{
}

/// A mode forced while an override runs is never undone by that override's
/// timer.
pub proof fn forced_mode_survives_timer(s: InteractionController, mode: InteractionMode, token: u64)
    requires
        s.wf(),
    ensures
        !s.with_mode(mode).revert_due(token),
        s.with_mode(mode).expired(token) == s.with_mode(mode),
{
}

/// A newer request disarms the timer of the request it replaces.
pub proof fn newer_request_disarms_older_timer(s: InteractionController)
    requires
        s.wf(),
        s.mode == InteractionMode::ClickThrough,
    ensures
        !s.requested().requested().revert_due(s.requested().generation),
{
}

} // verus!
