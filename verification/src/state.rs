//! The presentation-facing state machine of the harness: uninitialized at
//! startup, then initialized with a tick counter, two popup toggles and the
//! size of the diff view.

use vstd::prelude::*;

verus! {

/// The lifecycle state of the harness front end.
#[derive(Clone, Copy, Debug, PartialEq, Eq, Structural)]
pub enum AppState {
    Init,
    Initialized {
        /// The tick period the front end was set up with, in milliseconds.
        duration_millis: u64,
        /// How many ticks have elapsed; wraps around at the type's limit.
        counter_tick: u64,
        /// Whether the checkstyle popup is open.
        checkstyle: bool,
        /// Whether the collaborator-output popup is open.
        vmcheck_output: bool,
        /// How many lines the diff view currently shows.
        diff_size: usize,
    },
}

impl AppState {
    /// The state right after initialization.
    pub fn initialized() -> (r: AppState)
        ensures
            r == (AppState::Initialized {
                duration_millis: 1000,
                counter_tick: 0,
                checkstyle: false,
                vmcheck_output: false,
                diff_size: 0,
            }),
    {
        AppState::Initialized {
            duration_millis: 1000,
            counter_tick: 0,
            checkstyle: false,
            vmcheck_output: false,
            diff_size: 0,
        }
    }

    /// Whether initialization has happened.
    pub fn is_initialized(&self) -> (r: bool)
        ensures
            r == (*self is Initialized),
    {
        matches!(self, AppState::Initialized { .. })
    }

    /// Advances the tick counter by one, wrapping at the limit; does nothing
    /// before initialization.
    pub fn incr_tick(&mut self)
        ensures
            match *old(self) {
                AppState::Init => *final(self) == *old(self),
                AppState::Initialized {
                    duration_millis,
                    counter_tick,
                    checkstyle,
                    vmcheck_output,
                    diff_size,
                } => *final(self) == (AppState::Initialized {
                    duration_millis,
                    counter_tick: if counter_tick == u64::MAX {
                        0
                    } else {
                        (counter_tick + 1) as u64
                    },
                    checkstyle,
                    vmcheck_output,
                    diff_size,
                }),
            },
    {
        if let AppState::Initialized { counter_tick, .. } = self {
            if *counter_tick == u64::MAX {
                *counter_tick = 0;
            } else {
                *counter_tick = *counter_tick + 1;
            }
        }
    }

    /// The tick counter, once initialized.
    pub fn count_tick(&self) -> (r: Option<u64>)
        ensures
            match *self {
                AppState::Init => r is None,
                AppState::Initialized { counter_tick, .. } => r == Some(counter_tick),
            },
    {
        if let AppState::Initialized { counter_tick, .. } = self {
            Some(*counter_tick)
        } else {
            None
        }
    }

    /// Toggles the checkstyle popup; does nothing before initialization.
    pub fn update_checkstyle(&mut self)
        ensures
            match *old(self) {
                AppState::Init => *final(self) == *old(self),
                AppState::Initialized {
                    duration_millis,
                    counter_tick,
                    checkstyle,
                    vmcheck_output,
                    diff_size,
                } => *final(self) == (AppState::Initialized {
                    duration_millis,
                    counter_tick,
                    checkstyle: !checkstyle,
                    vmcheck_output,
                    diff_size,
                }),
            },
    {
        if let AppState::Initialized { checkstyle, .. } = self {
            *checkstyle = !*checkstyle;
        }
    }

    /// Toggles the collaborator-output popup; does nothing before
    /// initialization.
    pub fn update_vmcheck(&mut self)
        ensures
            match *old(self) {
                AppState::Init => *final(self) == *old(self),
                AppState::Initialized {
                    duration_millis,
                    counter_tick,
                    checkstyle,
                    vmcheck_output,
                    diff_size,
                } => *final(self) == (AppState::Initialized {
                    duration_millis,
                    counter_tick,
                    checkstyle,
                    vmcheck_output: !vmcheck_output,
                    diff_size,
                }),
            },
    {
        if let AppState::Initialized { vmcheck_output, .. } = self {
            *vmcheck_output = !*vmcheck_output;
        }
    }

    /// Whether the checkstyle popup is open, once initialized.
    pub fn get_checkstyle(&self) -> (r: Option<bool>)
        ensures
            match *self {
                AppState::Init => r is None,
                AppState::Initialized { checkstyle, .. } => r == Some(checkstyle),
            },
    {
        if let AppState::Initialized { checkstyle, .. } = self {
            Some(*checkstyle)
        } else {
            None
        }
    }

    /// Whether the collaborator-output popup is open, once initialized.
    pub fn get_vmcheck(&self) -> (r: Option<bool>)
        ensures
            match *self {
                AppState::Init => r is None,
                AppState::Initialized { vmcheck_output, .. } => r == Some(vmcheck_output),
            },
    {
        if let AppState::Initialized { vmcheck_output, .. } = self {
            Some(*vmcheck_output)
        } else {
            None
        }
    }

    /// Records how many lines the diff view shows; does nothing before
    /// initialization.
    pub fn set_diffsize(&mut self, size: usize)
        ensures
            match *old(self) {
                AppState::Init => *final(self) == *old(self),
                AppState::Initialized {
                    duration_millis,
                    counter_tick,
                    checkstyle,
                    vmcheck_output,
                    diff_size,
                } => *final(self) == (AppState::Initialized {
                    duration_millis,
                    counter_tick,
                    checkstyle,
                    vmcheck_output,
                    diff_size: size,
                }),
            },
    {
        if let AppState::Initialized { diff_size, .. } = self {
            *diff_size = size;
        }
    }

    /// How many lines the diff view shows, once initialized.
    pub fn get_diffsize(&self) -> (r: Option<usize>)
        ensures
            match *self {
                AppState::Init => r is None,
                AppState::Initialized { diff_size, .. } => r == Some(diff_size),
            },
    {
        if let AppState::Initialized { diff_size, .. } = self {
            Some(*diff_size)
        } else {
            None
        }
    }
}

impl Default for AppState {
    /// The state before initialization.
    fn default() -> (r: AppState)
        ensures
            r == AppState::Init,
    {
        AppState::Init
    }
}

} // verus!
