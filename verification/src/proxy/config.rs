//! The settings of one proxy deployment.

use crate::text::{
    decimal, find_value, pair_views, parse_u64, push_decimal, unsigned_decimal, value_of,
};
use vstd::prelude::*;
use vstd::string::StringExecFns;

verus! {

/// The path that answers health probes.
pub const HEALTH_ENDPOINT: &'static str = "/dmtr_health";

/// The seconds between two looks at the tier file where none are set.
pub const DEFAULT_POLL_INTERVAL: u64 = 2;

/// The settings a deployment is started with, each read from the variable
/// of the environment that [`Setting::name`] gives.
#[derive(Debug, Clone, Copy, PartialEq, Eq, Structural)]
pub enum Setting {
    Network,
    ProxyAddr,
    ProxyNamespace,
    ProxyTiersPath,
    ProxyTiersPollInterval,
    PrometheusAddr,
    SslCrtPath,
    SslKeyPath,
    TrpPort,
    TrpDns,
}

/// Why the settings were refused.
#[derive(Debug, Clone, Copy, PartialEq, Eq, Structural)]
pub enum ConfigError {
    /// A required variable is not set.
    Missing(Setting),
    /// A variable is set to something that is not a number in range.
    Invalid(Setting),
}

impl Setting {
    /// The name of the variable that holds the setting.
    pub open spec fn spec_name(self) -> Seq<char> {
        match self {
            Setting::Network => "NETWORK"@,
            Setting::ProxyAddr => "PROXY_ADDR"@,
            Setting::ProxyNamespace => "PROXY_NAMESPACE"@,
            Setting::ProxyTiersPath => "PROXY_TIERS_PATH"@,
            Setting::ProxyTiersPollInterval => "PROXY_TIERS_POLL_INTERVAL"@,
            Setting::PrometheusAddr => "PROMETHEUS_ADDR"@,
            Setting::SslCrtPath => "SSL_CRT_PATH"@,
            Setting::SslKeyPath => "SSL_KEY_PATH"@,
            Setting::TrpPort => "TRP_PORT"@,
            Setting::TrpDns => "TRP_DNS"@,
        }
    }

    /// The name of the variable that holds the setting.
    pub fn name(self) -> (name: &'static str)
        ensures
            name@ == self.spec_name(),
    {
        match self {
            Setting::Network => "NETWORK",
            Setting::ProxyAddr => "PROXY_ADDR",
            Setting::ProxyNamespace => "PROXY_NAMESPACE",
            Setting::ProxyTiersPath => "PROXY_TIERS_PATH",
            Setting::ProxyTiersPollInterval => "PROXY_TIERS_POLL_INTERVAL",
            Setting::PrometheusAddr => "PROMETHEUS_ADDR",
            Setting::SslCrtPath => "SSL_CRT_PATH",
            Setting::SslKeyPath => "SSL_KEY_PATH",
            Setting::TrpPort => "TRP_PORT",
            Setting::TrpDns => "TRP_DNS",
        }
    }
}

impl ConfigError {
    /// The setting that the error is about.
    pub fn setting(self) -> (setting: Setting)
        ensures
            setting == match self {
                ConfigError::Missing(s) => s,
                ConfigError::Invalid(s) => s,
            },
    {
        match self {
            ConfigError::Missing(s) => s,
            ConfigError::Invalid(s) => s,
        }
    }

    /// The words that report the error: the variable's name, and what is
    /// wrong with it.
    pub open spec fn spec_message(self) -> Seq<char> {
        match self {
            ConfigError::Missing(s) => s.spec_name() + " must be set"@,
            ConfigError::Invalid(s) => s.spec_name() + " must be a number"@,
        }
    }

    /// The words that report the error.
    pub fn message(self) -> (message: String)
        ensures
            message@ == self.spec_message(),
    {
        let mut message = String::from_str(self.setting().name());
        match self {
            ConfigError::Missing(_) => message.append(" must be set"),
            ConfigError::Invalid(_) => message.append(" must be a number"),
        }
        message
    }
}

/// The settings of one deployment.
#[derive(Debug, PartialEq, Eq)]
pub struct Config {
    pub proxy_addr: String,
    pub proxy_namespace: String,
    pub proxy_tiers_path: String,
    /// Seconds between two looks at the tier file.
    pub proxy_tiers_poll_interval: u64,
    pub prometheus_addr: String,
    pub ssl_crt_path: String,
    pub ssl_key_path: String,
    pub trp_port: u16,
    pub trp_dns: String,
    pub health_endpoint: String,
    pub network: String,
}

/// The mathematical value of a [`Config`].
pub struct ConfigView {
    pub proxy_addr: Seq<char>,
    pub proxy_namespace: Seq<char>,
    pub proxy_tiers_path: Seq<char>,
    pub proxy_tiers_poll_interval: u64,
    pub prometheus_addr: Seq<char>,
    pub ssl_crt_path: Seq<char>,
    pub ssl_key_path: Seq<char>,
    pub trp_port: u16,
    pub trp_dns: Seq<char>,
    pub health_endpoint: Seq<char>,
    pub network: Seq<char>,
}

impl View for Config {
    type V = ConfigView;

    open spec fn view(&self) -> ConfigView {
        ConfigView {
            proxy_addr: self.proxy_addr@,
            proxy_namespace: self.proxy_namespace@,
            proxy_tiers_path: self.proxy_tiers_path@,
            proxy_tiers_poll_interval: self.proxy_tiers_poll_interval,
            prometheus_addr: self.prometheus_addr@,
            ssl_crt_path: self.ssl_crt_path@,
            ssl_key_path: self.ssl_key_path@,
            trp_port: self.trp_port,
            trp_dns: self.trp_dns@,
            health_endpoint: self.health_endpoint@,
            network: self.network@,
        }
    }
}

impl ConfigView {
    /// The address of the one backend that the deployment serves:
    /// `trp-<network>.<dns>:<port>`.
    pub open spec fn instance(self) -> Seq<char> {
        "trp-"@ + self.network + "."@ + self.trp_dns + ":"@ + decimal(self.trp_port as nat)
    }
}

/// The seconds between two looks at the tier file that the environment
/// asks for: the default where the variable is not set, `None` where it is
/// set to something that is not a number of 64 bits.
pub open spec fn poll_interval_of(env: Seq<(Seq<char>, Seq<char>)>) -> Option<u64> {
    match value_of(env, Setting::ProxyTiersPollInterval.spec_name()) {
        None => Some(DEFAULT_POLL_INTERVAL),
        Some(text) => match unsigned_decimal(text) {
            Some(n) => if n <= u64::MAX {
                Some(n as u64)
            } else {
                None
            },
            None => None,
        },
    }
}

/// The port that a text writes, if it writes a number of 16 bits.
pub open spec fn port_of(text: Seq<char>) -> Option<u16> {
    match unsigned_decimal(text) {
        Some(n) => if n <= u16::MAX {
            Some(n as u16)
        } else {
            None
        },
        None => None,
    }
}

/// The first setting that is required and not set, in the order in which
/// the settings are read.
pub open spec fn first_missing(env: Seq<(Seq<char>, Seq<char>)>, settings: Seq<Setting>) -> Option<
    Setting,
>
    decreases settings.len(),
{
    if settings.len() == 0 {
        None
    } else if value_of(env, settings[0].spec_name()).is_none() {
        Some(settings[0])
    } else {
        first_missing(env, settings.subrange(1, settings.len() as int))
    }
}

/// The settings that an environment gives, or the first fault found when
/// reading them in this order: network, proxy address, namespace, tier
/// path, poll interval, metrics address, certificate, key, port, DNS name.
pub open spec fn config_of(env: Seq<(Seq<char>, Seq<char>)>) -> Result<ConfigView, ConfigError> {
    let get = |s: Setting| value_of(env, s.spec_name());
    if let Some(s) = first_missing(
        env,
        seq![
            Setting::Network,
            Setting::ProxyAddr,
            Setting::ProxyNamespace,
            Setting::ProxyTiersPath,
        ],
    ) {
        Err(ConfigError::Missing(s))
    } else if poll_interval_of(env).is_none() {
        Err(ConfigError::Invalid(Setting::ProxyTiersPollInterval))
    } else if let Some(s) = first_missing(
        env,
        seq![Setting::PrometheusAddr, Setting::SslCrtPath, Setting::SslKeyPath, Setting::TrpPort],
    ) {
        Err(ConfigError::Missing(s))
    } else if port_of(get(Setting::TrpPort).unwrap()).is_none() {
        Err(ConfigError::Invalid(Setting::TrpPort))
    } else if get(Setting::TrpDns).is_none() {
        Err(ConfigError::Missing(Setting::TrpDns))
    } else {
        Ok(
            ConfigView {
                proxy_addr: get(Setting::ProxyAddr).unwrap(),
                proxy_namespace: get(Setting::ProxyNamespace).unwrap(),
                proxy_tiers_path: get(Setting::ProxyTiersPath).unwrap(),
                proxy_tiers_poll_interval: poll_interval_of(env).unwrap(),
                prometheus_addr: get(Setting::PrometheusAddr).unwrap(),
                ssl_crt_path: get(Setting::SslCrtPath).unwrap(),
                ssl_key_path: get(Setting::SslKeyPath).unwrap(),
                trp_port: port_of(get(Setting::TrpPort).unwrap()).unwrap(),
                trp_dns: get(Setting::TrpDns).unwrap(),
                health_endpoint: HEALTH_ENDPOINT@,
                network: get(Setting::Network).unwrap(),
            },
        )
    }
}

fn required(env: &Vec<(String, String)>, setting: Setting) -> (value: Result<String, ConfigError>)
    ensures
        value.is_ok() == value_of(pair_views(env@), setting.spec_name()).is_some(),
        value matches Ok(v) ==> value_of(pair_views(env@), setting.spec_name()) == Some(v@),
        value matches Err(e) ==> e == ConfigError::Missing(setting),
{
    match find_value(env, setting.name()) {
        Some(value) => Ok(value.clone()),
        None => Err(ConfigError::Missing(setting)),
    }
}

impl Config {
    /// Says what is wrong with an environment, given as pairs of name and
    /// value: the first fault found when its settings are read, or `None`
    /// where the settings can be had from it.
    pub fn fault(env: &Vec<(String, String)>) -> (fault: Option<ConfigError>)
        ensures
            fault.is_some() == config_of(pair_views(env@)).is_err(),
            fault matches Some(e) ==> config_of(pair_views(env@)) == Err::<
                ConfigView,
                ConfigError,
            >(e),
    {
        match Config::read(env) {
            Ok(_) => None,
            Err(e) => Some(e),
        }
    }

    /// Reads the settings from the variables of the environment, given as
    /// pairs of name and value. The environment has to be without fault:
    /// every required variable set, the port a number of 16 bits, and the
    /// poll interval, where it is set, a number of 64 bits.
    /// [`Config::fault`] tests that.
    pub fn new(env: &Vec<(String, String)>) -> (config: Config)
        requires
            config_of(pair_views(env@)).is_ok(),
        ensures
            config@ == config_of(pair_views(env@)).unwrap(),
    {
        Config::read(env).unwrap()
    }

    fn read(env: &Vec<(String, String)>) -> (config: Result<Config, ConfigError>)
        ensures
            config.is_ok() == config_of(pair_views(env@)).is_ok(),
            config matches Ok(c) ==> config_of(pair_views(env@)) == Ok::<ConfigView, ConfigError>(
                c@,
            ),
            config matches Err(e) ==> config_of(pair_views(env@)) == Err::<
                ConfigView,
                ConfigError,
            >(e),
    {
        let ghost e = pair_views(env@);
        proof {
            reveal_with_fuel(first_missing, 5);
            let a = seq![
                Setting::Network,
                Setting::ProxyAddr,
                Setting::ProxyNamespace,
                Setting::ProxyTiersPath,
            ];
            assert(a.subrange(1, 4) =~= seq![
                Setting::ProxyAddr,
                Setting::ProxyNamespace,
                Setting::ProxyTiersPath,
            ]);
            assert(a.subrange(1, 4).subrange(1, 3) =~= seq![
                Setting::ProxyNamespace,
                Setting::ProxyTiersPath,
            ]);
            assert(a.subrange(1, 4).subrange(1, 3).subrange(1, 2) =~= seq![
                Setting::ProxyTiersPath,
            ]);
            let b = seq![
                Setting::PrometheusAddr,
                Setting::SslCrtPath,
                Setting::SslKeyPath,
                Setting::TrpPort,
            ];
            assert(b.subrange(1, 4) =~= seq![
                Setting::SslCrtPath,
                Setting::SslKeyPath,
                Setting::TrpPort,
            ]);
            assert(b.subrange(1, 4).subrange(1, 3) =~= seq![Setting::SslKeyPath, Setting::TrpPort]);
            assert(b.subrange(1, 4).subrange(1, 3).subrange(1, 2) =~= seq![Setting::TrpPort]);
        }
        let network = match required(env, Setting::Network) {
            Ok(v) => v,
            Err(e) => { return Err(e); },
        };
        let proxy_addr = match required(env, Setting::ProxyAddr) {
            Ok(v) => v,
            Err(e) => { return Err(e); },
        };
        let proxy_namespace = match required(env, Setting::ProxyNamespace) {
            Ok(v) => v,
            Err(e) => { return Err(e); },
        };
        let proxy_tiers_path = match required(env, Setting::ProxyTiersPath) {
            Ok(v) => v,
            Err(e) => { return Err(e); },
        };
        let proxy_tiers_poll_interval = match find_value(
            env,
            Setting::ProxyTiersPollInterval.name(),
        ) {
            None => DEFAULT_POLL_INTERVAL,
            Some(text) => match parse_u64(text.as_str()) {
                Some(n) => n,
                None => {
                    return Err(ConfigError::Invalid(Setting::ProxyTiersPollInterval));
                },
            },
        };
        let prometheus_addr = match required(env, Setting::PrometheusAddr) {
            Ok(v) => v,
            Err(e) => { return Err(e); },
        };
        let ssl_crt_path = match required(env, Setting::SslCrtPath) {
            Ok(v) => v,
            Err(e) => { return Err(e); },
        };
        let ssl_key_path = match required(env, Setting::SslKeyPath) {
            Ok(v) => v,
            Err(e) => { return Err(e); },
        };
        let port_text = match required(env, Setting::TrpPort) {
            Ok(v) => v,
            Err(e) => { return Err(e); },
        };
        let trp_port: u16 = match parse_u64(port_text.as_str()) {
            Some(n) => if n <= 65535 {
                n as u16
            } else {
                return Err(ConfigError::Invalid(Setting::TrpPort));
            },
            None => {
                return Err(ConfigError::Invalid(Setting::TrpPort));
            },
        };
        let trp_dns = match required(env, Setting::TrpDns) {
            Ok(v) => v,
            Err(e) => { return Err(e); },
        };
        Ok(
            Config {
                proxy_addr,
                proxy_namespace,
                proxy_tiers_path,
                proxy_tiers_poll_interval,
                prometheus_addr,
                ssl_crt_path,
                ssl_key_path,
                trp_port,
                trp_dns,
                health_endpoint: String::from_str(HEALTH_ENDPOINT),
                network,
            },
        )
    }

    /// The address of the one backend that the deployment serves.
    pub fn instance(&self) -> (address: String)
        ensures
            address@ == self@.instance(),
    {
        let mut address = String::from_str("trp-");
        address.append(self.network.as_str());
        address.append(".");
        address.append(self.trp_dns.as_str());
        address.append(":");
        push_decimal(&mut address, self.trp_port as u64);
        address
    }
}

} // verus!
