//! The settings of the server.
//!
//! Settings are merged from several sources, each overriding the one before
//! it. The command line comes last; this module holds the defaults and that
//! last step.

use crate::infra::cli::CLIOpts;
use vstd::prelude::*;

verus! {

/// One record of settings.
#[derive(Clone, Debug)]
pub struct Configuration {
    pub ldap_port: u16,
    pub ldaps_port: u16,
    pub http_port: u16,
    pub secret_pepper: String,
    pub admin_dn: String,
    pub admin_password: String,
    pub verbose: bool,
}

impl Default for Configuration {
    /// The settings used where no source says otherwise.
    fn default() -> (config: Configuration)
        ensures
            config.ldap_port == 3890,
            config.ldaps_port == 6360,
            config.http_port == 17170,
            config.secret_pepper@ == "secretsecretpepper"@,
            config.admin_dn@ == Seq::<char>::empty(),
            config.admin_password@ == Seq::<char>::empty(),
            !config.verbose,
    {
        Configuration {
            ldap_port: 3890,
            ldaps_port: 6360,
            http_port: 17170,
            secret_pepper: String::from_str("secretsecretpepper"),
            admin_dn: String::new(),
            admin_password: String::new(),
            verbose: false,
        }
    }
}

impl Configuration {
    /// Overrides the settings with what the command line gives: verbose
    /// output is on if either side asks for it, and each port that the
    /// command line names replaces the configured one. Everything else is
    /// kept.
    pub fn merge_with_cli(self, cli_opts: CLIOpts) -> (merged: Configuration)
        ensures
            merged.verbose == (self.verbose || cli_opts.verbose),
            merged.ldap_port == match cli_opts.ldap_port {
                Some(port) => port,
                None => self.ldap_port,
            },
            merged.ldaps_port == match cli_opts.ldaps_port {
                Some(port) => port,
                None => self.ldaps_port,
            },
            merged.http_port == self.http_port,
            merged.secret_pepper@ == self.secret_pepper@,
            merged.admin_dn@ == self.admin_dn@,
            merged.admin_password@ == self.admin_password@,
    {
        let mut merged = self;
        if cli_opts.verbose {
            merged.verbose = true;
        }
        if let Some(port) = cli_opts.ldap_port {
            merged.ldap_port = port;
        }
        if let Some(port) = cli_opts.ldaps_port {
            merged.ldaps_port = port;
        }
        merged
    }
}

} // verus!
