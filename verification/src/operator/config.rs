//! The settings of the operator.

use crate::text::{find_value, pair_views, parse_u64, unsigned_decimal, value_of};
use vstd::prelude::*;
use vstd::string::StringExecFns;

verus! {

/// The DNS zone of the endpoints where none is set.
pub const DEFAULT_DNS_ZONE: &'static str = "demeter.run";

/// The subdomain of the endpoints where none is set.
pub const DEFAULT_EXTENSION_SUBDOMAIN: &'static str = "trp-m1";

/// The settings the operator is started with, each read from the variable
/// of the environment that [`Setting::name`] gives.
#[derive(Debug, Clone, Copy, PartialEq, Eq, Structural)]
pub enum Setting {
    DnsZone,
    ExtensionSubdomain,
    MetricsDelay,
    PrometheusUrl,
}

/// Why the settings were refused.
#[derive(Debug, Clone, Copy, PartialEq, Eq, Structural)]
pub enum ConfigError {
    /// A required variable is not set.
    Missing(Setting),
    /// A variable is set to something that is not a number in range.
    Invalid(Setting),
}

impl Setting {
    /// The name of the variable that holds the setting.
    pub open spec fn spec_name(self) -> Seq<char> {
        match self {
            Setting::DnsZone => "DNS_ZONE"@,
            Setting::ExtensionSubdomain => "EXTENSION_SUBDOMAIN"@,
            Setting::MetricsDelay => "METRICS_DELAY"@,
            Setting::PrometheusUrl => "PROMETHEUS_URL"@,
        }
    }

    /// The name of the variable that holds the setting.
    pub fn name(self) -> (name: &'static str)
        ensures
            name@ == self.spec_name(),
    {
        match self {
            Setting::DnsZone => "DNS_ZONE",
            Setting::ExtensionSubdomain => "EXTENSION_SUBDOMAIN",
            Setting::MetricsDelay => "METRICS_DELAY",
            Setting::PrometheusUrl => "PROMETHEUS_URL",
        }
    }
}

impl ConfigError {
    /// The setting that the error is about.
    pub fn setting(self) -> (setting: Setting)
        ensures
            setting == match self {
                ConfigError::Missing(s) => s,
                ConfigError::Invalid(s) => s,
            },
    {
        match self {
            ConfigError::Missing(s) => s,
            ConfigError::Invalid(s) => s,
        }
    }

    /// The words that report the error: the variable's name, and what is
    /// wrong with it.
    pub open spec fn spec_message(self) -> Seq<char> {
        match self {
            ConfigError::Missing(s) => s.spec_name() + " must be set"@,
            ConfigError::Invalid(s) => s.spec_name() + " must be a number"@,
        }
    }

    /// The words that report the error.
    pub fn message(self) -> (message: String)
        ensures
            message@ == self.spec_message(),
    {
        let mut message = String::from_str(self.setting().name());
        match self {
            ConfigError::Missing(_) => message.append(" must be set"),
            ConfigError::Invalid(_) => message.append(" must be a number"),
        }
        message
    }
}

/// The settings of the operator.
#[derive(Debug, PartialEq, Eq)]
pub struct Config {
    pub dns_zone: String,
    pub extension_subdomain: String,
    /// Seconds between two collections of usage.
    pub metrics_delay: u64,
    pub prometheus_url: String,
}

/// The mathematical value of a [`Config`].
pub struct ConfigView {
    pub dns_zone: Seq<char>,
    pub extension_subdomain: Seq<char>,
    pub metrics_delay: u64,
    pub prometheus_url: Seq<char>,
}

impl View for Config {
    type V = ConfigView;

    open spec fn view(&self) -> ConfigView {
        ConfigView {
            dns_zone: self.dns_zone@,
            extension_subdomain: self.extension_subdomain@,
            metrics_delay: self.metrics_delay,
            prometheus_url: self.prometheus_url@,
        }
    }
}

impl Clone for Config {
    fn clone(&self) -> (copy: Self)
        ensures
            copy@ == self@,
    {
        Config {
            dns_zone: self.dns_zone.clone(),
            extension_subdomain: self.extension_subdomain.clone(),
            metrics_delay: self.metrics_delay,
            prometheus_url: self.prometheus_url.clone(),
        }
    }
}

/// The value of a variable, or `default` where it is not set.
pub open spec fn value_or(
    env: Seq<(Seq<char>, Seq<char>)>,
    setting: Setting,
    default: Seq<char>,
) -> Seq<char> {
    match value_of(env, setting.spec_name()) {
        Some(value) => value,
        None => default,
    }
}

/// The number of 64 bits that a text writes, if it writes one.
pub open spec fn delay_of(text: Seq<char>) -> Option<u64> {
    match unsigned_decimal(text) {
        Some(n) => if n <= u64::MAX {
            Some(n as u64)
        } else {
            None
        },
        None => None,
    }
}

/// The settings that an environment gives, or the first fault found when
/// reading them: the delay first, then the metrics address. Zone and
/// subdomain have defaults.
pub open spec fn config_of(env: Seq<(Seq<char>, Seq<char>)>) -> Result<ConfigView, ConfigError> {
    match value_of(env, Setting::MetricsDelay.spec_name()) {
        None => Err(ConfigError::Missing(Setting::MetricsDelay)),
        Some(delay) => match delay_of(delay) {
            None => Err(ConfigError::Invalid(Setting::MetricsDelay)),
            Some(metrics_delay) => match value_of(env, Setting::PrometheusUrl.spec_name()) {
                None => Err(ConfigError::Missing(Setting::PrometheusUrl)),
                Some(prometheus_url) => Ok(
                    ConfigView {
                        dns_zone: value_or(env, Setting::DnsZone, DEFAULT_DNS_ZONE@),
                        extension_subdomain: value_or(
                            env,
                            Setting::ExtensionSubdomain,
                            DEFAULT_EXTENSION_SUBDOMAIN@,
                        ),
                        metrics_delay,
                        prometheus_url,
                    },
                ),
            },
        },
    }
}

fn value_or_default(env: &Vec<(String, String)>, setting: Setting, default: &str) -> (value: String)
    ensures
        value@ == value_or(pair_views(env@), setting, default@),
{
    match find_value(env, setting.name()) {
        Some(value) => value.clone(),
        None => String::from_str(default),
    }
}

impl Config {
    /// Says what is wrong with an environment, given as pairs of name and
    /// value: the first fault found when its settings are read, or `None`
    /// where the settings can be had from it.
    pub fn fault(env: &Vec<(String, String)>) -> (fault: Option<ConfigError>)
        ensures
            fault.is_some() == config_of(pair_views(env@)).is_err(),
            fault matches Some(e) ==> config_of(pair_views(env@)) == Err::<
                ConfigView,
                ConfigError,
            >(e),
    {
        match Config::read(env) {
            Ok(_) => None,
            Err(e) => Some(e),
        }
    }

    /// Reads the settings from the variables of the environment, given as
    /// pairs of name and value. The environment has to be without fault:
    /// the delay set to a number of 64 bits and the metrics address set.
    /// [`Config::fault`] tests that.
    pub fn from_env(env: &Vec<(String, String)>) -> (config: Config)
        requires
            config_of(pair_views(env@)).is_ok(),
        ensures
            config@ == config_of(pair_views(env@)).unwrap(),
    {
        Config::read(env).unwrap()
    }

    fn read(env: &Vec<(String, String)>) -> (config: Result<Config, ConfigError>)
        ensures
            config.is_ok() == config_of(pair_views(env@)).is_ok(),
            config matches Ok(c) ==> config_of(pair_views(env@)) == Ok::<ConfigView, ConfigError>(
                c@,
            ),
            config matches Err(e) ==> config_of(pair_views(env@)) == Err::<
                ConfigView,
                ConfigError,
            >(e),
    {
        let dns_zone = value_or_default(env, Setting::DnsZone, DEFAULT_DNS_ZONE);
        let extension_subdomain = value_or_default(
            env,
            Setting::ExtensionSubdomain,
            DEFAULT_EXTENSION_SUBDOMAIN,
        );
        let metrics_delay = match find_value(env, Setting::MetricsDelay.name()) {
            None => { return Err(ConfigError::Missing(Setting::MetricsDelay)); },
            Some(text) => match parse_u64(text.as_str()) {
                Some(n) => n,
                None => { return Err(ConfigError::Invalid(Setting::MetricsDelay)); },
            },
        };
        let prometheus_url = match find_value(env, Setting::PrometheusUrl.name()) {
            Some(value) => value.clone(),
            None => { return Err(ConfigError::Missing(Setting::PrometheusUrl)); },
        };
        Ok(Config { dns_zone, extension_subdomain, metrics_delay, prometheus_url })
    }
}

} // verus!
