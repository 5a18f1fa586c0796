//! What the plugin exchanges with the gateway: the call it is asked about, its
//! decision, its manifest and its payment capabilities.

use vstd::prelude::*;

use crate::json::Json;

verus! {

/// What the plugin reads of the call in hand.
pub struct PluginContext {
    /// The surface that the call came in on; tool calls come in on `tool`.
    pub surface: String,
    /// The tool that is called.
    pub tool_name: String,
}

/// What the plugin decides on a call.
#[derive(Debug)]
pub enum GateDecision {
    /// The call goes ahead; metadata travels with it.
    Allow { metadata: Option<serde_json::Value> },
    /// The call is refused.
    Deny {
        http_status: u16,
        code: i32,
        message: String,
        error_data: Option<serde_json::Value>,
    },
    /// The caller is asked to pay first.
    Challenge {
        http_status: u16,
        code: i32,
        message: String,
        challenge_data: serde_json::Value,
    },
    /// The call waits for an approval.
    PendingApproval,
}

/// A [`GateDecision`] as mathematics.
pub enum Verdict {
    Allow { metadata: Option<Json> },
    Deny { http_status: u16, code: i32, message: Seq<char>, error_data: Option<Json> },
    Challenge { http_status: u16, code: i32, message: Seq<char>, challenge_data: Json },
    PendingApproval,
}

impl View for GateDecision {
    type V = Verdict;

    open spec fn view(&self) -> Verdict {
        match *self {
            GateDecision::Allow { metadata } => Verdict::Allow {
                metadata: crate::json::json_option(metadata),
            },
            GateDecision::Deny { http_status, code, message, error_data } => Verdict::Deny {
                http_status,
                code,
                message: message@,
                error_data: crate::json::json_option(error_data),
            },
            GateDecision::Challenge { http_status, code, message, challenge_data } =>
                Verdict::Challenge {
                    http_status,
                    code,
                    message: message@,
                    challenge_data: crate::json::json(challenge_data),
                },
            GateDecision::PendingApproval => Verdict::PendingApproval,
        }
    }
}

impl GateDecision {
    /// Lets the call go ahead.
    pub fn allow() -> (decision: Self)
        ensures
            decision@ == (Verdict::Allow { metadata: None }),
    {
        GateDecision::Allow { metadata: None }
    }

    /// Lets the call go ahead with metadata.
    pub fn allow_with_metadata(metadata: serde_json::Value) -> (decision: Self)
        ensures
            decision@ == (Verdict::Allow { metadata: Some(crate::json::json(metadata)) }),
    {
        GateDecision::Allow { metadata: Some(metadata) }
    }

    /// Whether the call goes ahead.
    pub fn is_allow(&self) -> (allowed: bool)
        ensures
            allowed == (self@ is Allow),
    {
        match self {
            GateDecision::Allow { .. } => true,
            _ => false,
        }
    }

    /// The label of the decision in the count of evaluations.
    pub fn outcome(&self) -> (label: &'static str)
        ensures
            label@ == (match self@ {
                Verdict::Allow { .. } => "allow"@,
                Verdict::Deny { .. } => "deny"@,
                Verdict::Challenge { .. } => "challenge"@,
                Verdict::PendingApproval => "pending_approval"@,
            }),
    {
        match self {
            GateDecision::Allow { .. } => "allow",
            GateDecision::Deny { .. } => "deny",
            GateDecision::Challenge { .. } => "challenge",
            GateDecision::PendingApproval => "pending_approval",
        }
    }
}

/// The class of a plugin.
#[derive(Debug, Clone, Copy, PartialEq, Eq, Structural)]
pub enum PluginClass {
    /// Decides on tool calls before they are dispatched.
    ToolGate,
}

/// How a plugin presents itself to the gateway.
#[derive(Debug)]
pub struct PluginManifest {
    pub id: String,
    pub version: String,
    pub name: String,
    pub plugin_class: PluginClass,
    pub protocol_version: String,
    pub license: Option<String>,
    pub required_capabilities: Vec<String>,
    pub tags: Vec<String>,
    pub provides: Vec<String>,
    pub provides_schemes: Vec<String>,
    pub module_path_prefix: String,
    pub backend_profile: Option<String>,
}

/// A payment protocol that the gateway knows.
#[derive(Debug, Clone, Copy, PartialEq, Eq, Structural)]
pub enum PaymentProtocol {
    X402,
}

/// Where in a call's life a payment plugin acts.
#[derive(Debug, Clone, Copy, PartialEq, Eq, Structural)]
pub enum PaymentCategory {
    ToolGate,
}

/// What a payment plugin can do.
#[derive(Debug)]
pub struct PaymentCapability {
    pub protocol: PaymentProtocol,
    pub methods: Vec<String>,
    pub supports_sessions: bool,
    pub supports_commerce: bool,
    pub meta_prefix: String,
}

} // verus!
