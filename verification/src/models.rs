//! The cached cluster state that the rules read, and the table that holds the
//! rows a view lists.

use vstd::prelude::*;

use crate::resources::KubePod;

verus! {

/// The cached cluster state that the troubleshooting rules inspect.
pub struct App {
    pub pods: Vec<KubePod>,
}

impl App {
    pub fn new(pods: Vec<KubePod>) -> (r: App)
        ensures
            r.pods == pods,
    {
        App { pods }
    }
}

/// The rows that a table view lists.
pub struct StatefulTable<T> {
    pub items: Vec<T>,
}

impl<T> StatefulTable<T> {
    pub fn new() -> (r: StatefulTable<T>)
        ensures
            r.items@.len() == 0,
    {
        StatefulTable { items: Vec::new() }
    }

    /// Replaces the rows with `items`.
    pub fn set_items(&mut self, items: Vec<T>)
        ensures
            final(self).items == items,
    {
        self.items = items;
    }
}

} // verus!
