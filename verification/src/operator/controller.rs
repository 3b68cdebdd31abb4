//! The port resource: what a tenant asks for, and what has been provisioned
//! for it.

use crate::operator::config::{Config, ConfigView};
use crate::operator::utils::{build_hostname, hostname_key_of, hostname_of};
use vstd::prelude::*;
use vstd::string::StringExecFns;

verus! {

/// The finalizer that the operator puts on its ports.
pub const TRP_PORT_FINALIZER: &'static str = "trpports.demeter.run";

/// What a tenant asks for.
#[derive(Debug, PartialEq, Eq)]
pub struct TrpPortSpec {
    pub network: String,
    pub throughput_tier: String,
    pub auth_token: String,
}

/// What has been provisioned for a port. Its presence on a port says that
/// the port can be used.
#[derive(Debug, PartialEq, Eq)]
pub struct TrpPortStatus {
    pub endpoint_url: String,
    pub authenticated_endpoint_url: Option<String>,
    pub auth_token: String,
}

/// One port resource as the watch stream delivers it.
#[derive(Debug, PartialEq, Eq)]
pub struct TrpPort {
    pub name: String,
    pub namespace: String,
    pub spec: TrpPortSpec,
    pub status: Option<TrpPortStatus>,
}

/// The mathematical value of a [`TrpPortSpec`].
pub struct TrpPortSpecView {
    pub network: Seq<char>,
    pub throughput_tier: Seq<char>,
    pub auth_token: Seq<char>,
}

/// The mathematical value of a [`TrpPortStatus`].
pub struct TrpPortStatusView {
    pub endpoint_url: Seq<char>,
    pub authenticated_endpoint_url: Option<Seq<char>>,
    pub auth_token: Seq<char>,
}

/// The mathematical value of a [`TrpPort`].
pub struct TrpPortView {
    pub name: Seq<char>,
    pub namespace: Seq<char>,
    pub spec: TrpPortSpecView,
    pub status: Option<TrpPortStatusView>,
}

impl View for TrpPortSpec {
    type V = TrpPortSpecView;

    open spec fn view(&self) -> TrpPortSpecView {
        TrpPortSpecView {
            network: self.network@,
            throughput_tier: self.throughput_tier@,
            auth_token: self.auth_token@,
        }
    }
}

impl View for TrpPortStatus {
    type V = TrpPortStatusView;

    open spec fn view(&self) -> TrpPortStatusView {
        TrpPortStatusView {
            endpoint_url: self.endpoint_url@,
            authenticated_endpoint_url: match self.authenticated_endpoint_url {
                Some(url) => Some(url@),
                None => None,
            },
            auth_token: self.auth_token@,
        }
    }
}

impl View for TrpPort {
    type V = TrpPortView;

    open spec fn view(&self) -> TrpPortView {
        TrpPortView {
            name: self.name@,
            namespace: self.namespace@,
            spec: self.spec@,
            status: match self.status {
                Some(status) => Some(status@),
                None => None,
            },
        }
    }
}

impl Clone for TrpPortSpec {
    fn clone(&self) -> (copy: Self)
        ensures
            copy@ == self@,
    {
        TrpPortSpec {
            network: self.network.clone(),
            throughput_tier: self.throughput_tier.clone(),
            auth_token: self.auth_token.clone(),
        }
    }
}

impl Clone for TrpPortStatus {
    fn clone(&self) -> (copy: Self)
        ensures
            copy@ == self@,
    {
        TrpPortStatus {
            endpoint_url: self.endpoint_url.clone(),
            authenticated_endpoint_url: match &self.authenticated_endpoint_url {
                Some(url) => Some(url.clone()),
                None => None,
            },
            auth_token: self.auth_token.clone(),
        }
    }
}

impl Clone for TrpPort {
    fn clone(&self) -> (copy: Self)
        ensures
            copy@ == self@,
    {
        TrpPort {
            name: self.name.clone(),
            namespace: self.namespace.clone(),
            spec: self.spec.clone(),
            status: match &self.status {
                Some(status) => Some(status.clone()),
                None => None,
            },
        }
    }
}

/// The status that a port is to have: both endpoints under `https`, the
/// second carrying the port's token, and the token mirrored from the spec.
pub open spec fn status_of(config: ConfigView, port: TrpPortView) -> TrpPortStatusView {
    TrpPortStatusView {
        endpoint_url: "https://"@ + hostname_of(config),
        authenticated_endpoint_url: Some(
            "https://"@ + hostname_key_of(config, port.spec.auth_token),
        ),
        auth_token: port.spec.auth_token,
    }
}

/// Works out the status that a port is to have.
pub fn reconcile(config: &Config, port: &TrpPort) -> (status: TrpPortStatus)
    ensures
        status@ == status_of(config@, port@),
{
    let (hostname, hostname_key) = build_hostname(config, port.spec.auth_token.as_str());
    let mut endpoint_url = String::from_str("https://");
    endpoint_url.append(hostname.as_str());
    let mut authenticated = String::from_str("https://");
    authenticated.append(hostname_key.as_str());
    TrpPortStatus {
        endpoint_url,
        authenticated_endpoint_url: Some(authenticated),
        auth_token: port.spec.auth_token.clone(),
    }
}

} // verus!
