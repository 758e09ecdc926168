//! The network configuration.

use vstd::prelude::*;
use vstd::string::StringSliceAdditionalSpecFns;

verus! {

/// Most bytes that an SSID may take.
pub const MAX_SSID_BYTES: usize = 32;

/// Most bytes that a pre-shared key may take.
pub const MAX_PSK_BYTES: usize = 64;

/// Most bytes that a DHCP hostname may take.
pub const MAX_HOSTNAME_BYTES: usize = 30;

/// What a bring-up needs to know about the network. The values are supplied
/// once and never change; each defaults to the empty string.
#[derive(Clone, Copy, Debug)]
pub struct Config {
    pub wifi_ssid: &'static str,
    pub wifi_psk: &'static str,
    pub wifi_dhcp_hostname: &'static str,
}

/// How much is asked of a configuration before any hardware is touched.
#[derive(Clone, Copy, Debug, PartialEq, Eq, Structural)]
pub enum Validation {
    /// Empty credentials are passed on to the driver as they are.
    Lenient,
    /// SSID and key must both be present.
    Strict,
}

impl Default for Config {
    /// The configuration in which every value is empty.
    fn default() -> (c: Config)
        ensures
            c.wifi_ssid@.len() == 0,
            c.wifi_psk@.len() == 0,
            c.wifi_dhcp_hostname@.len() == 0,
    {
        Config::empty()
    }
}

impl Config {
    /// Neither SSID nor key is empty.
    pub open spec fn has_credentials(&self) -> bool {
        self.wifi_ssid@.len() > 0 && self.wifi_psk@.len() > 0
    }

    /// The hostname, encoded as UTF-8, fits the interface's hostname field.
    pub open spec fn hostname_fits(&self) -> bool {
        self.wifi_dhcp_hostname.spec_bytes().len() <= MAX_HOSTNAME_BYTES
    }

    /// SSID and key, encoded as UTF-8, fit the driver's fields.
    pub open spec fn credentials_fit(&self) -> bool {
        self.wifi_ssid.spec_bytes().len() <= MAX_SSID_BYTES && self.wifi_psk.spec_bytes().len()
            <= MAX_PSK_BYTES
    }

    /// The configuration passes the check made before the first step.
    pub open spec fn admitted(&self, validation: Validation) -> bool {
        validation == Validation::Strict ==> self.has_credentials()
    }

    /// A bring-up with this configuration cannot fail on the configuration
    /// itself.
    pub open spec fn valid(&self, validation: Validation) -> bool {
        self.admitted(validation) && self.hostname_fits() && self.credentials_fit()
    }

    /// The configuration with the given values.
    pub fn new(ssid: &'static str, psk: &'static str, hostname: &'static str) -> (c: Config)
        ensures
            c.wifi_ssid == ssid,
            c.wifi_psk == psk,
            c.wifi_dhcp_hostname == hostname,
    {
        Config { wifi_ssid: ssid, wifi_psk: psk, wifi_dhcp_hostname: hostname }
    }

    /// The configuration in which every value is empty.
    pub fn empty() -> (c: Config)
        ensures
            c.wifi_ssid@.len() == 0,
            c.wifi_psk@.len() == 0,
            c.wifi_dhcp_hostname@.len() == 0,
    {
        proof {
            reveal_strlit("");
        }
        Config { wifi_ssid: "", wifi_psk: "", wifi_dhcp_hostname: "" }
    }

    /// Whether neither SSID nor key is empty.
    pub fn check_credentials_present(&self) -> (r: bool)
        ensures
            r == self.has_credentials(),
    {
        !self.wifi_ssid.is_empty() && !self.wifi_psk.is_empty()
    }

    /// Whether the hostname fits the interface's hostname field.
    pub fn check_hostname_fits(&self) -> (r: bool)
        ensures
            r == self.hostname_fits(),
    {
        self.wifi_dhcp_hostname.as_bytes().len() <= MAX_HOSTNAME_BYTES
    }

    /// Whether SSID and key fit the driver's fields.
    pub fn check_credentials_fit(&self) -> (r: bool)
        ensures
            r == self.credentials_fit(),
    {
        self.wifi_ssid.as_bytes().len() <= MAX_SSID_BYTES && self.wifi_psk.as_bytes().len()
            <= MAX_PSK_BYTES
    }

    /// Whether the configuration passes the check made before the first step.
    pub fn check_admitted(&self, validation: Validation) -> (r: bool)
        ensures
            r == self.admitted(validation),
    {
        match validation {
            Validation::Lenient => true,
            Validation::Strict => self.check_credentials_present(),
        }
    }
}

} // verus!
