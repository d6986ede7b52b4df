//! What a node is told at its start.

use vstd::prelude::*;
use crate::decimal::{decimal, decimal_string};

verus! {

/// The options of a node.
#[derive(Debug)]
pub struct Config {
    /// The TCP port that the listener binds on this machine.
    pub port: u64,
    /// Whether the node is a boot node, which starts without contacts.
    pub boot_node: bool,
}

impl Config {
    /// The address that the listener binds: the loopback address and the
    /// port.
    pub fn listen_address(&self) -> (address: String)
        ensures
            address@ == "127.0.0.1:"@ + decimal(self.port as nat),
    {
        "127.0.0.1:".to_owned().concat(decimal_string(self.port).as_str())
    }
}

} // verus!
