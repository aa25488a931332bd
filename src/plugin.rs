use crate::port_list::PortList;
use vstd::prelude::*;

verus! {

/// The plugin that offers `port list` to the shell.
pub struct PortListPlugin;

impl PortListPlugin {
    pub fn new() -> PortListPlugin {
        PortListPlugin {  }
    }

    /// The commands that the plugin registers: `port list` alone.
    pub fn commands(&self) -> (r: Vec<PortList>)
        ensures
            r@.len() == 1,
    {
        let mut v: Vec<PortList> = Vec::new();
        v.push(PortList::new());
        v
    }
}

} // verus!
