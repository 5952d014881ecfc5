//! The menu of the dashboard: one entry per panel, exactly one active at
//! a time. Every entry is reachable from every other by a single key
//! press; the error panel is declared for failure display but no key
//! leads to it.

use vstd::prelude::*;

verus! {

#[derive(Copy, Clone, PartialEq, Eq, Structural, Debug)]
pub enum MenuItem {
    Home,
    Monitor,
    Comments,
    Projects,
    License,
    Error,
}

/// Position of each menu entry in the tab bar, in display order.
pub open spec fn menu_position(m: MenuItem) -> int {
    match m {
        MenuItem::Home => 0,
        MenuItem::Monitor => 1,
        MenuItem::Comments => 2,
        MenuItem::Projects => 3,
        MenuItem::License => 4,
        MenuItem::Error => 5,
    }
}

/// The menu entry a navigation key selects, or `None` for a key that is
/// not a navigation key.
pub open spec fn menu_target(c: char) -> Option<MenuItem> {
    if c == 'i' {
        Some(MenuItem::Home)
    } else if c == 't' {
        Some(MenuItem::Monitor)
    } else if c == 'c' {
        Some(MenuItem::Comments)
    } else if c == 'p' {
        Some(MenuItem::Projects)
    } else if c == 'l' {
        Some(MenuItem::License)
    } else {
        None
    }
}

impl From<MenuItem> for usize {
    fn from(input: MenuItem) -> (r: usize)
        ensures
            r == menu_position(input),
    {
        match input {
            MenuItem::Home => 0,
            MenuItem::Monitor => 1,
            MenuItem::Comments => 2,
            MenuItem::Projects => 3,
            MenuItem::License => 4,
            MenuItem::Error => 5,
        }
    }
}

impl vstd::std_specs::convert::FromSpecImpl<MenuItem> for usize {
    open spec fn obeys_from_spec() -> bool {
        true
    }

    open spec fn from_spec(t: MenuItem) -> usize {
        menu_position(t) as usize
    }
}

} // verus!
