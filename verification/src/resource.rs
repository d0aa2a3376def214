//! Handles to the pins of the board.

use crate::signal::{Signal, SignalModel};
use vstd::prelude::*;
use vstd::string::StringExecFns;

verus! {

/// A named pin, with the one-bit signal that drives it.
pub struct Resource {
    pub name: String,
    pub o: Signal,
}

impl Resource {
    /// The output signal has one bit and is called after the pin, with `.o`
    /// behind the pin's name.
    pub open spec fn wf(&self) -> bool {
        self.o@ == (SignalModel { name: self.name@ + ".o"@, size: 1 })
    }

    /// The pin called `name`. Every name is found.
    pub fn find(name: &str) -> (r: Resource)
        ensures
            r.name@ == name@,
            r.wf(),
    {
        let mut full = String::from_str(name);
        full.append(".o");
        Resource { name: String::from_str(name), o: Signal::with_name(full, 1) }
    }
}

} // verus!
