//! Daemon settings.
use vstd::prelude::*;

verus! {

#[derive(Debug)]
pub struct Config {
    /// How many clipboard items the history keeps.
    pub max_history_items: usize,
}

impl Default for Config {
    fn default() -> (r: Self)
        ensures
            r.max_history_items == 100,
    {
        Config { max_history_items: 100 }
    }
}

} // verus!
