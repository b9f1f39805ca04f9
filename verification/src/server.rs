//! The gateway around the dispatcher: its configuration, its state, and
//! what it answers before a transport is involved.

use vstd::prelude::*;
use vstd::string::*;
use crate::agent_card::{agent_card_view, build_agent_card, AgentCard};
use crate::handler::{new_task_store, TaskStore};
use crate::text::{decimal_string, decimal_text};
use crate::types::TaskView;

verus! {

pub const ADDRESS_PORT: &'static str = ":";

/// The state of the gateway: the task registry and where the gateway
/// listens.
pub struct A2aState {
    pub task_store: TaskStore,
    pub host: String,
    pub port: u16,
}

/// The configuration of the gateway.
#[derive(Debug)]
pub struct GatewayParams {
    pub bind: String,
    pub port: u16,
    pub enabled: bool,
}

/// The address `<bind>:<port>` as text.
pub open spec fn address_text(bind: Seq<char>, port: u16) -> Seq<char> {
    bind + ADDRESS_PORT@ + decimal_text(port as nat)
}

impl GatewayParams {
    /// The address that the gateway binds to, to be parsed as a socket
    /// address.
    pub fn address(&self) -> (a: String)
        ensures
            a@ == address_text(self.bind@, self.port),
    {
        let mut a = self.bind.clone();
        a.append(ADDRESS_PORT);
        a.append(decimal_string(self.port as u64).as_str());
        a
    }

    /// The state that a gateway with this configuration starts with, or
    /// nothing if the gateway is disabled.
    pub fn initial_state(&self) -> (state: Option<A2aState>)
        ensures
            state is Some <==> self.enabled,
            state matches Some(s) ==> {
                &&& s.task_store@ == Map::<Seq<char>, TaskView>::empty()
                &&& s.task_store.well_formed()
                &&& s.host@ == self.bind@
                &&& s.port == self.port
            },
    {
        if !self.enabled {
            None
        } else {
            Some(A2aState { task_store: new_task_store(), host: self.bind.clone(), port: self.port })
        }
    }
}

impl A2aState {
    /// The agent card that the gateway serves for discovery.
    pub fn agent_card(&self) -> (card: AgentCard)
        ensures
            card@ == agent_card_view(self.host@, self.port),
    {
        build_agent_card(self.host.as_str(), self.port)
    }
}

} // verus!
