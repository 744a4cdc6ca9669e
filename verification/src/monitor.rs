//! Choosing the display.
//!
//! Three sources can name the display that hosts the application. They are
//! asked in a fixed order, and the first one that names a display decides:
//! the application's window, then the stored override, then the hint in the
//! application's configuration file. Where none does, the display is 0.

use crate::config_store::{
    law_stored_index_is_read, screen_field, setting_in, ConfigPolicy, ConfigReadError,
    OverrideSetting,
};
use crate::text::{append_decimal, decimal_digits};
use vstd::prelude::*;
use vstd::string::StringExecFns;

verus! {

/// The display that is chosen where no source names one.
pub const FALLBACK_MONITOR: usize = 0;

/// The source that decided.
#[derive(Clone, Copy, Debug, PartialEq, Eq, Structural)]
pub enum Source {
    /// The application's window was found on this display.
    Window,
    /// The user chose this display.
    Override,
    /// The application's configuration file hints at this display.
    TargetConfig,
    /// No source named a display.
    Fallback,
}

/// A display index that is not among the displays at hand.
#[derive(Clone, Copy, Debug, PartialEq, Eq, Structural)]
pub enum Error {
    /// The display `id` was asked for where there are only `total` displays.
    InvalidScreenId { id: usize, total: usize },
}

impl Error {
    /// The words that tell the user about the error: the display asked for
    /// and the number of displays, and, where there is a display at all, the
    /// last index that can be used.
    pub open spec fn message_text(self) -> Seq<char> {
        match self {
            Error::InvalidScreenId { id, total } => {
                let counts = "Error: Cannot use screen "@ + decimal_digits(id as nat)
                    + ", you only have "@ + decimal_digits(total as nat) + " screen(s)"@;
                if total > 0 {
                    counts + " (IDs go from 0 to "@ + decimal_digits((total - 1) as nat) + ")"@
                } else {
                    counts
                }
            },
        }
    }

    /// Tells the user about the error.
    pub fn message(&self) -> (r: String)
        ensures
            r@ == self.message_text(),
    {
        match self {
            Error::InvalidScreenId { id, total } => {
                let mut text = String::from_str("Error: Cannot use screen ");
                append_decimal(&mut text, *id);
                text.append(", you only have ");
                append_decimal(&mut text, *total);
                text.append(" screen(s)");
                if *total > 0 {
                    text.append(" (IDs go from 0 to ");
                    append_decimal(&mut text, *total - 1);
                    text.append(")");
                }
                text
            },
        }
    }
}

/// The display chosen without regard to windows: the override where the
/// user made one, else the hint, else the fallback.
pub open spec fn common_monitor(setting: OverrideSetting, hint: Option<usize>) -> usize {
    match setting {
        OverrideSetting::Monitor(id) => id,
        OverrideSetting::Auto => match hint {
            Some(id) => id,
            None => FALLBACK_MONITOR,
        },
    }
}

/// The display chosen: the one the window is on where the window was found,
/// else what `common_monitor` gives.
pub open spec fn resolved_monitor(
    window: Option<usize>,
    setting: OverrideSetting,
    hint: Option<usize>,
) -> usize {
    match window {
        Some(id) => id,
        None => common_monitor(setting, hint),
    }
}

/// The source that decides on `resolved_monitor`.
pub open spec fn resolved_source(
    window: Option<usize>,
    setting: OverrideSetting,
    hint: Option<usize>,
) -> Source {
    if window is Some {
        Source::Window
    } else if setting is Monitor {
        Source::Override
    } else if hint is Some {
        Source::TargetConfig
    } else {
        Source::Fallback
    }
}

/// Chooses the display from the override and the hint.
pub fn get_poe_monitor_id_common(local: OverrideSetting, poe: Option<usize>) -> (id: usize)
    ensures
        id == common_monitor(local, poe),
{
    match local {
        OverrideSetting::Monitor(id) => id,
        OverrideSetting::Auto => match poe {
            Some(id) => id,
            None => FALLBACK_MONITOR,
        },
    }
}

/// Chooses the display from what the three sources gave. `native` is `None`
/// also where windows cannot be enumerated on the platform.
pub fn get_poe_monitor_id(native: Option<usize>, local: OverrideSetting, poe: Option<usize>) -> (id:
    usize)
    ensures
        id == resolved_monitor(native, local, poe),
{
    match native {
        Some(id) => id,
        None => get_poe_monitor_id_common(local, poe),
    }
}

/// Checks a chosen display against the number of displays at hand.
pub fn poe_screen(id: usize, total: usize) -> (r: Result<usize, Error>)
    ensures
        r == if id < total {
            Ok::<usize, Error>(id)
        } else {
            Err::<usize, Error>(Error::InvalidScreenId { id, total })
        },
{
    if id >= total {
        Err(Error::InvalidScreenId { id, total })
    } else {
        Ok(id)
    }
}

/// What a source gave when it was asked.
#[derive(Clone, Copy, Debug, PartialEq, Eq, Structural)]
pub enum Event {
    /// The windows were enumerated: the display of the application's
    /// window, if the window was found.
    Window(Option<usize>),
    /// The override file was read.
    Override(OverrideSetting),
    /// The application's configuration file was read: the display it hints
    /// at, if any.
    TargetConfig(Option<usize>),
}

/// A resolution in progress. Each state but the last names the source that
/// is to be asked next; the caller asks it and hands in what it gave.
#[derive(Clone, Copy, Debug, PartialEq, Eq, Structural)]
pub enum Resolver {
    /// The windows are to be enumerated.
    LocateWindow,
    /// The override file is to be read.
    ReadOverride,
    /// The application's configuration file is to be read.
    ReadTargetConfig,
    /// The display is chosen.
    Done { id: usize, source: Source },
}

impl Resolver {
    /// The state a resolution starts in. Where the platform cannot
    /// enumerate windows, the first source is skipped.
    pub open spec fn initial(native_available: bool) -> Resolver {
        if native_available {
            Resolver::LocateWindow
        } else {
            Resolver::ReadOverride
        }
    }

    /// The state that follows on `event`. An event from a source that was
    /// not asked changes nothing.
    pub open spec fn after(self, event: Event) -> Resolver {
        match (self, event) {
            (Resolver::LocateWindow, Event::Window(Some(id))) => Resolver::Done {
                id,
                source: Source::Window,
            },
            (Resolver::LocateWindow, Event::Window(None)) => Resolver::ReadOverride,
            (Resolver::ReadOverride, Event::Override(OverrideSetting::Monitor(id))) => Resolver::Done {
                id,
                source: Source::Override,
            },
            (Resolver::ReadOverride, Event::Override(OverrideSetting::Auto)) => Resolver::ReadTargetConfig,
            (Resolver::ReadTargetConfig, Event::TargetConfig(Some(id))) => Resolver::Done {
                id,
                source: Source::TargetConfig,
            },
            (Resolver::ReadTargetConfig, Event::TargetConfig(None)) => Resolver::Done {
                id: FALLBACK_MONITOR,
                source: Source::Fallback,
            },
            _ => self,
        }
    }

    /// The state after each source was asked in turn, as far as the
    /// resolution got to it.
    pub open spec fn run(
        native_available: bool,
        window: Option<usize>,
        setting: OverrideSetting,
        hint: Option<usize>,
    ) -> Resolver {
        Resolver::initial(native_available).after(Event::Window(window)).after(
            Event::Override(setting),
        ).after(Event::TargetConfig(hint))
    }

    /// The chosen display, once there is one.
    pub open spec fn outcome(self) -> Option<usize> {
        match self {
            Resolver::Done { id, .. } => Some(id),
            _ => None,
        }
    }

    /// Starts a resolution.
    pub fn start(native_available: bool) -> (r: Resolver)
        ensures
            r == Resolver::initial(native_available),
    {
        if native_available {
            Resolver::LocateWindow
        } else {
            Resolver::ReadOverride
        }
    }

    /// Takes in what the source that was asked gave.
    pub fn step(self, event: Event) -> (r: Resolver)
        ensures
            r == self.after(event),
    {
        match (self, event) {
            (Resolver::LocateWindow, Event::Window(Some(id))) => Resolver::Done {
                id,
                source: Source::Window,
            },
            (Resolver::LocateWindow, Event::Window(None)) => Resolver::ReadOverride,
            (Resolver::ReadOverride, Event::Override(OverrideSetting::Monitor(id))) => Resolver::Done {
                id,
                source: Source::Override,
            },
            (Resolver::ReadOverride, Event::Override(OverrideSetting::Auto)) => Resolver::ReadTargetConfig,
            (Resolver::ReadTargetConfig, Event::TargetConfig(Some(id))) => Resolver::Done {
                id,
                source: Source::TargetConfig,
            },
            (Resolver::ReadTargetConfig, Event::TargetConfig(None)) => Resolver::Done {
                id: FALLBACK_MONITOR,
                source: Source::Fallback,
            },
            (state, _) => state,
        }
    }

    /// The chosen display, once there is one.
    pub fn result(&self) -> (r: Option<usize>)
        ensures
            r == self.outcome(),
    {
        match self {
            Resolver::Done { id, .. } => Some(*id),
            _ => None,
        }
    }
}

/// Asking the sources one by one comes to the display that
/// `resolved_monitor` gives for their answers, and to the source that
/// `resolved_source` gives. On a platform that cannot enumerate windows the
/// window counts as not found.
pub proof fn law_run_resolves(
    native_available: bool,
    window: Option<usize>,
    setting: OverrideSetting,
    hint: Option<usize>,
)
    ensures
        ({
            let seen = if native_available {
                window
            } else {
                None
            };
            Resolver::run(native_available, window, setting, hint) == (Resolver::Done {
                id: resolved_monitor(seen, setting, hint),
                source: resolved_source(seen, setting, hint),
            })
        }),
{
}

/// Once the display is chosen, nothing that a source gives changes it:
/// exactly one source decides.
pub proof fn law_done_is_final(id: usize, source: Source, event: Event)
    ensures
        (Resolver::Done { id, source }).after(event) == (Resolver::Done { id, source }),
{
}

/// A window that was found decides, whatever the override and the hint are.
pub proof fn law_window_wins(id: usize, setting: OverrideSetting, hint: Option<usize>)
    ensures
        resolved_monitor(Some(id), setting, hint) == id,
        Resolver::run(true, Some(id), setting, hint).outcome() == Some(id),
{
}

/// Without a window, an override that names a display decides, whatever
/// the hint is, and whether windows can be enumerated or not.
pub proof fn law_override_wins(
    native_available: bool,
    window: Option<usize>,
    id: usize,
    hint: Option<usize>,
)
    requires
        native_available ==> window is None,
    ensures
        resolved_monitor(None, OverrideSetting::Monitor(id), hint) == id,
        Resolver::run(native_available, window, OverrideSetting::Monitor(id), hint).outcome()
            == Some(id),
{
}

/// An override that is stored in the file decides where no window was
/// found: where the file holds the numeral of a display index that 32 signed
/// bits hold, reading it gives that index under either policy, and the index
/// is the display chosen, whatever else the file holds and whatever the
/// application's configuration file hints at.
pub proof fn law_stored_override_wins(
    values: Map<(Seq<char>, Seq<char>), Seq<char>>,
    id: usize,
    policy: ConfigPolicy,
    hint: Option<usize>,
)
    requires
        id <= i32::MAX,
        screen_field(values) == Some(decimal_digits(id as nat)),
    ensures
        policy.settled(setting_in(Some(values))) == Ok::<OverrideSetting, ConfigReadError>(
            OverrideSetting::Monitor(id),
        ),
        resolved_monitor(None, OverrideSetting::Monitor(id), hint) == id,
{
    law_stored_index_is_read(id);
}

/// A platform that cannot enumerate windows is never asked for them, and
/// comes to the same display as one that can and does not find the window.
pub proof fn law_unavailable_is_not_found(
    window: Option<usize>,
    setting: OverrideSetting,
    hint: Option<usize>,
)
    ensures
        Resolver::initial(false) != Resolver::LocateWindow,
        Resolver::initial(false) == Resolver::initial(true).after(Event::Window(None)),
        Resolver::run(false, window, setting, hint) == Resolver::run(true, None, setting, hint),
{
}

/// Where no source names a display, the fallback is chosen.
pub proof fn law_fallback(native_available: bool)
    ensures
        resolved_monitor(None, OverrideSetting::Auto, None) == FALLBACK_MONITOR,
        Resolver::run(native_available, None, OverrideSetting::Auto, None).outcome() == Some(
            FALLBACK_MONITOR,
        ),
{
}

} // verus!
