//! The host names under which a port is reached.

use crate::operator::config::{Config, ConfigView};
use vstd::prelude::*;
use vstd::string::StringExecFns;

verus! {

/// The host name shared by every port: `<subdomain>.<zone>`.
pub open spec fn hostname_of(config: ConfigView) -> Seq<char> {
    config.extension_subdomain + "."@ + config.dns_zone
}

/// The host name of the port with the given key: `<key>.<subdomain>.<zone>`.
pub open spec fn hostname_key_of(config: ConfigView, key: Seq<char>) -> Seq<char> {
    key + "."@ + config.extension_subdomain + "."@ + config.dns_zone
}

/// Builds the two host names of a port: the shared one, and the one that
/// carries the port's key.
pub fn build_hostname(config: &Config, key: &str) -> (names: (String, String))
    ensures
        names.0@ == hostname_of(config@),
        names.1@ == hostname_key_of(config@, key@),
{
    let mut hostname = config.extension_subdomain.clone();
    hostname.append(".");
    hostname.append(config.dns_zone.as_str());
    let mut hostname_key = String::from_str(key);
    hostname_key.append(".");
    hostname_key.append(config.extension_subdomain.as_str());
    hostname_key.append(".");
    hostname_key.append(config.dns_zone.as_str());
    (hostname, hostname_key)
}

} // verus!
