//! Core logic of a coffee-roasting monitor.
//!
//! The library models the parts of the application with real algorithmic
//! content: the per-channel connection state machine ([`roasting`]), the
//! bridge that orders hardware callback events ([`sensor`]), the supervisor
//! decisions that retry failed connections ([`roasting`]), the
//! curve-windowing and coordinate-fitting algorithm ([`curve`]), and the
//! roast session that aggregates readings per channel ([`roast`]).
//!
//! Hardware I/O, rendering and preference persistence are external
//! collaborators: a host program performs them and feeds the library plain
//! values. Temperatures are carried as millidegrees Celsius and instants as
//! milliseconds, both in `i64`, so that every computation is exact.
use vstd::prelude::*;

pub mod curve;
pub mod roast;
pub mod roasting;
pub mod sensor;
pub mod sidebar;

verus! {

/// The screen the application is currently showing.
#[derive(Clone, Copy, Debug, PartialEq, Eq, Structural)]
pub enum Screen {
    Recipe,
    Settings,
}

impl Screen {
    /// The position of this screen in the sidebar's tab order.
    pub fn index(&self) -> (r: usize)
        ensures
            r == match *self {
                Screen::Recipe => 0usize,
                Screen::Settings => 1usize,
            },
    {
        match *self {
            Screen::Recipe => 0,
            Screen::Settings => 1,
        }
    }

    /// The screen at a sidebar tab position, if any.
    pub fn from_index(v: usize) -> (r: Option<Screen>)
        ensures
            r == match v {
                0usize => Some(Screen::Recipe),
                1usize => Some(Screen::Settings),
                _ => None::<Screen>,
            },
    {
        match v {
            0 => Some(Screen::Recipe),
            1 => Some(Screen::Settings),
            _ => None,
        }
    }
}

impl Default for Screen {
    fn default() -> (r: Self)
        ensures
            r == Screen::Recipe,
    {
        Screen::Recipe
    }
}

} // verus!
