//! Consumers: the tenants that may send traffic, each known by its key.

use crate::operator::controller::{TrpPort, TrpPortView};
use vstd::prelude::*;
use vstd::string::StringExecFns;

verus! {

/// A tenant entitled to send traffic, identified by an opaque key.
#[derive(Debug, PartialEq, Eq)]
pub struct Consumer {
    pub namespace: String,
    pub port_name: String,
    pub tier: String,
    pub key: String,
    pub network: String,
}

/// The mathematical value of a [`Consumer`].
pub struct ConsumerView {
    pub namespace: Seq<char>,
    pub port_name: Seq<char>,
    pub tier: Seq<char>,
    pub key: Seq<char>,
    pub network: Seq<char>,
}

impl View for Consumer {
    type V = ConsumerView;

    open spec fn view(&self) -> ConsumerView {
        ConsumerView {
            namespace: self.namespace@,
            port_name: self.port_name@,
            tier: self.tier@,
            key: self.key@,
            network: self.network@,
        }
    }
}

impl ConsumerView {
    /// The consumer with every field empty.
    pub open spec fn empty() -> ConsumerView {
        ConsumerView {
            namespace: Seq::empty(),
            port_name: Seq::empty(),
            tier: Seq::empty(),
            key: Seq::empty(),
            network: Seq::empty(),
        }
    }

    /// The name a consumer is reported under: namespace, a dot, port name.
    pub open spec fn label(self) -> Seq<char> {
        self.namespace + seq!['.'] + self.port_name
    }
}

/// The consumer that a port stands for. A port without a status is not
/// provisioned yet and stands for none; the key is the token mirrored in
/// the status.
pub open spec fn consumer_of(port: TrpPortView) -> Option<ConsumerView> {
    match port.status {
        Some(status) => Some(
            ConsumerView {
                namespace: port.namespace,
                port_name: port.name,
                tier: port.spec.throughput_tier,
                key: status.auth_token,
                network: port.spec.network,
            },
        ),
        None => None,
    }
}

impl Clone for Consumer {
    fn clone(&self) -> (copy: Self)
        ensures
            copy@ == self@,
    {
        Consumer {
            namespace: self.namespace.clone(),
            port_name: self.port_name.clone(),
            tier: self.tier.clone(),
            key: self.key.clone(),
            network: self.network.clone(),
        }
    }
}

impl Default for Consumer {
    fn default() -> (consumer: Self)
        ensures
            consumer@ == ConsumerView::empty(),
    {
        Consumer {
            namespace: String::new(),
            port_name: String::new(),
            tier: String::new(),
            key: String::new(),
            network: String::new(),
        }
    }
}

impl Consumer {
    /// Builds the consumer that a provisioned port stands for.
    pub fn from_port(port: &TrpPort) -> (consumer: Option<Consumer>)
        ensures
            consumer.is_some() == consumer_of(port@).is_some(),
            consumer matches Some(c) ==> Some(c@) == consumer_of(port@),
    {
        match &port.status {
            Some(status) => Some(
                Consumer {
                    namespace: port.namespace.clone(),
                    port_name: port.name.clone(),
                    tier: port.spec.throughput_tier.clone(),
                    key: status.auth_token.clone(),
                    network: port.spec.network.clone(),
                },
            ),
            None => None,
        }
    }

    /// The name the consumer is reported under.
    pub fn to_string(&self) -> (label: String)
        ensures
            label@ == self@.label(),
    {
        proof {
            reveal_strlit(".");
        }
        let mut label = self.namespace.clone();
        label.append(".");
        label.append(self.port_name.as_str());
        assert("."@ =~= seq!['.']);
        label
    }
}

} // verus!
