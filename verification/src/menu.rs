//! The entries of the dashboard's menu.

use vstd::prelude::*;
use vstd::std_specs::convert::FromSpecImpl;

verus! {

/// An entry of the menu.
#[derive(Debug, Copy, Clone)]
pub enum MenuItem {
    Home,
    Pods,
}

/// The place of `item` in the menu, counted from zero.
pub open spec fn menu_index(item: MenuItem) -> usize {
    match item {
        MenuItem::Home => 0,
        MenuItem::Pods => 1,
    }
}

impl From<&MenuItem> for usize {
    fn from(input: &MenuItem) -> (index: Self) {
        match input {
            MenuItem::Home => 0,
            MenuItem::Pods => 1,
        }
    }
}

impl FromSpecImpl<&MenuItem> for usize {
    open spec fn obeys_from_spec() -> bool {
        true
    }

    open spec fn from_spec(input: &MenuItem) -> Self {
        menu_index(*input)
    }
}

} // verus!
