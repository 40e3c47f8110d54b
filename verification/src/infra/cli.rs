//! Options given on the command line.

use vstd::prelude::*;

verus! {

/// What the operator passed on the command line.
pub struct CLIOpts {
    /// Turn verbose output on.
    pub verbose: bool,
    /// Path of the configuration file to read.
    pub config_file: String,
    /// Port of the LDAP listener, if overridden.
    pub ldap_port: Option<u16>,
    /// Port of the LDAPS listener, if overridden.
    pub ldaps_port: Option<u16>,
}

} // verus!
