//! The payment plugin: prices tool calls and has their payments verified.
//!
//! 1. A per-tool configuration maps tool names to payment requirements.
//! 2. A call of a priced tool without a credential in `_meta["x402/payment"]` is
//!    answered with a 402 challenge.
//! 3. A credential leads to a call of the facilitator's `/verify` endpoint, whose
//!    reply lets the call go ahead or denies it.
//! 4. The receipt of a verified payment travels under `x402/receipt`.

use vstd::prelude::*;

use serde_json::Value;

use crate::asset::token_address_for_currency;
use crate::config::{ConfigError, ToolConfigs, WireConfig, X402ProtocolConfig, X402ToolConfig};
use crate::config::config_is_absent;
use crate::gate::{Enquiry, Finding, Gate, Reply, Step};
use crate::gate::{X402_PAYMENT_REQUIRED_CODE, X402_VERIFICATION_FAILED_CODE};
use crate::json::{add_member, add_text, array_value, number_value, object_value, parse_json};
use crate::json::{value_as_bool, value_as_str, value_clone, value_get};
use crate::protocol::{GateDecision, PaymentCapability, PaymentCategory, PaymentProtocol};
use crate::protocol::{PluginClass, PluginContext, PluginManifest};
use crate::text::{cut_trailing_slashes, same_text};

verus! {

/// The plugin's identifier.
pub const PLUGIN_ID: &'static str = "dev.mcpg.payment.x402";

/// The plugin's version.
pub const PLUGIN_VERSION: &'static str = "0.1.0";

/// x402 payment plugin.
///
/// Implements simple per-tool-call crypto micropayments using the x402 protocol.
/// The gateway acts as the resource server; a facilitator verifies payments.
pub struct X402PaymentPlugin {
    manifest: PluginManifest,
    enabled: bool,
    tool_configs: ToolConfigs,
    facilitator_url: String,
    default_recipient: String,
    http_timeout_ms: Option<u64>,
}

impl View for X402PaymentPlugin {
    type V = Gate;

    closed spec fn view(&self) -> Gate {
        Gate {
            enabled: self.enabled,
            tools: self.tool_configs@,
            facilitator_url: self.facilitator_url@,
            default_recipient: self.default_recipient@,
            http_timeout_ms: self.http_timeout_ms,
        }
    }
}

/// The manifest that the plugin presents.
pub open spec fn is_plugin_manifest(manifest: PluginManifest) -> bool {
    &&& manifest.id@ == PLUGIN_ID@
    &&& manifest.version@ == PLUGIN_VERSION@
    &&& manifest.name@ == "x402 Crypto Micropayments"@
    &&& manifest.plugin_class == PluginClass::ToolGate
    &&& manifest.protocol_version@ == "1.0"@
    &&& manifest.license is None
    &&& manifest.required_capabilities@.len() == 0
    &&& manifest.tags@.len() == 0
    &&& manifest.provides@.len() == 0
    &&& manifest.provides_schemes@.len() == 0
    &&& manifest.module_path_prefix@ == "mcpg_plugin_payment_x402"@
    &&& manifest.backend_profile is None
}

/// A facilitator call to make: POST `request` to `url`.
pub struct VerifyCall {
    pub url: String,
    pub request: Value,
    /// The configuration of the tool that is paid for.
    pub tool_config: X402ToolConfig,
}

impl View for VerifyCall {
    type V = Enquiry;

    open spec fn view(&self) -> Enquiry {
        Enquiry {
            url: self.url@,
            request: crate::json::json(self.request),
            terms: self.tool_config@,
        }
    }
}

/// What becomes of a call before its dispatch.
pub enum PreStep {
    /// The decision, made without the facilitator.
    Decided(GateDecision),
    /// The facilitator has to be called; its reply goes to
    /// [`X402PaymentPlugin::finish_pre`].
    Verify(VerifyCall),
}

impl View for PreStep {
    type V = Step;

    open spec fn view(&self) -> Step {
        match *self {
            PreStep::Decided(decision) => Step::Decided(decision@),
            PreStep::Verify(call) => Step::Verify(call@),
        }
    }
}

/// How the facilitator replied to a call.
pub enum FacilitatorReply {
    /// No response came.
    Unreachable { error: String },
    /// The response came from an address that the guard against DNS rebinding
    /// refuses.
    Blocked { error: String },
    /// A response came, with its body or the error in reading it.
    Received { status: u16, body: Result<Vec<u8>, String> },
}

impl View for FacilitatorReply {
    type V = Reply;

    open spec fn view(&self) -> Reply {
        match *self {
            FacilitatorReply::Unreachable { error } => Reply::Unreachable { error: error@ },
            FacilitatorReply::Blocked { error } => Reply::Blocked { error: error@ },
            FacilitatorReply::Received { status, body } => Reply::Received {
                status,
                body: match body {
                    Ok(text) => Ok(text@),
                    Err(error) => Err(error@),
                },
            },
        }
    }
}

/// What a reply says of a payment: a receipt, or why it failed.
pub enum VerifyResult {
    Verified(Value),
    Failed(String),
}

impl View for VerifyResult {
    type V = Finding;

    open spec fn view(&self) -> Finding {
        match *self {
            VerifyResult::Verified(receipt) => Finding::Verified(crate::json::json(receipt)),
            VerifyResult::Failed(reason) => Finding::Failed(reason@),
        }
    }
}

/// What there is to report of a plugin that was loaded.
#[derive(Debug)]
pub enum LoadNote {
    /// The configuration was taken as it stands.
    Loaded,
    /// The configuration cannot be used: the plugin is disabled.
    ConfigRejected(ConfigError),
    /// There is no top-level `config` block: the plugin is disabled.
    ConfigMissing,
}

/// A configuration is present and malformed: no plugin may be loaded for it.
#[derive(Debug)]
pub struct ConfigRefused;

/// What is loaded for an operator's configuration, given the text and what it
/// reads as (`None` where it is malformed).
pub open spec fn loads(
    text: Seq<char>,
    parsed: Option<WireConfig>,
    loaded: Result<(X402PaymentPlugin, LoadNote), ConfigRefused>,
) -> bool {
    if crate::config::is_absent_config(text) {
        is_missing(loaded)
    } else {
        match parsed {
            None => loaded is Err,
            Some(wire) => match wire.config {
                None => is_missing(loaded),
                Some(config) => match loaded {
                    Ok((plugin, LoadNote::Loaded)) => crate::gate::compiles_to(
                        config.facilitator_url@,
                        config.recipient_address@,
                        config.http_timeout_ms,
                        wire.tools@,
                        Ok(plugin@),
                    ),
                    Ok((plugin, LoadNote::ConfigRejected(error))) => crate::gate::compiles_to(
                        config.facilitator_url@,
                        config.recipient_address@,
                        config.http_timeout_ms,
                        wire.tools@,
                        Err(error),
                    ) && plugin@ == crate::gate::disabled_gate(),
                    _ => false,
                },
            },
        }
    }
}

/// A disabled plugin is loaded, and that nothing was configured is reported.
pub open spec fn is_missing(loaded: Result<(X402PaymentPlugin, LoadNote), ConfigRefused>) -> bool {
    match loaded {
        Ok((plugin, LoadNote::ConfigMissing)) => plugin@ == crate::gate::disabled_gate(),
        _ => false,
    }
}

/// `start` followed by `end`.
fn joined(start: &str, end: &str) -> (whole: String)
    ensures
        whole@ == start@ + end@,
{
    let mut whole: String = start.to_owned();
    whole.append(end);
    whole
}

impl X402PaymentPlugin {
    #[verifier::type_invariant]
    closed spec fn valid(self) -> bool {
        &&& self@.well_formed()
        &&& is_plugin_manifest(self.manifest)
    }

    fn make_manifest() -> (manifest: PluginManifest)
        ensures
            is_plugin_manifest(manifest),
    {
        PluginManifest {
            id: PLUGIN_ID.to_owned(),
            version: PLUGIN_VERSION.to_owned(),
            name: "x402 Crypto Micropayments".to_owned(),
            plugin_class: PluginClass::ToolGate,
            protocol_version: "1.0".to_owned(),
            license: None,
            // The host derives them from the capabilities that the plugin declares.
            required_capabilities: Vec::new(),
            tags: Vec::new(),
            provides: Vec::new(),
            provides_schemes: Vec::new(),
            module_path_prefix: "mcpg_plugin_payment_x402".to_owned(),
            backend_profile: None,
        }
    }

    /// Creates a disabled plugin, which lets every call go ahead.
    pub fn disabled() -> (plugin: Self)
        ensures
            plugin@ == crate::gate::disabled_gate(),
    {
        X402PaymentPlugin {
            manifest: Self::make_manifest(),
            enabled: false,
            tool_configs: ToolConfigs::new(),
            facilitator_url: String::new(),
            default_recipient: String::new(),
            http_timeout_ms: None,
        }
    }

    /// Creates a plugin from the protocol settings and the priced tools.
    pub fn from_config(config: &X402ProtocolConfig, tool_configs: ToolConfigs) -> (plugin: Result<
        Self,
        ConfigError,
    >)
        ensures
            crate::gate::compiles_to(
                config.facilitator_url@,
                config.recipient_address@,
                config.http_timeout_ms,
                tool_configs@,
                match plugin {
                    Ok(plugin) => Ok(plugin@),
                    Err(error) => Err(error),
                },
            ),
    {
        if tool_configs.is_empty() {
            return Ok(Self::disabled());
        }
        if config.facilitator_url.as_str().is_empty() {
            return Err(ConfigError::FacilitatorUrlRequired);
        }
        if config.recipient_address.as_str().is_empty() {
            return Err(ConfigError::RecipientAddressRequired);
        }
        match tool_configs.first_invalid_charge() {
            Some(error) => {
                return Err(error);
            },
            None => {},
        }
        Ok(
            X402PaymentPlugin {
                manifest: Self::make_manifest(),
                enabled: true,
                tool_configs,
                facilitator_url: config.facilitator_url.clone(),
                default_recipient: config.recipient_address.clone(),
                http_timeout_ms: Some(config.http_timeout_ms),
            },
        )
    }

    /// Loads the plugin for an operator's configuration, given the text and what
    /// it reads as (`None` where it is malformed).
    ///
    /// A configuration that is present and malformed fails closed: nothing is
    /// loaded, rather than a gate that stands open. An empty or absent one, one
    /// without a top-level `config` block and one that cannot be used load the
    /// plugin disabled.
    pub fn from_config_json(config_json: &str, parsed: Option<WireConfig>) -> (loaded: Result<
        (Self, LoadNote),
        ConfigRefused,
    >)
        ensures
            loads(config_json@, parsed, loaded),
    {
        if config_is_absent(config_json) {
            return Ok((Self::disabled(), LoadNote::ConfigMissing));
        }
        match parsed {
            None => Err(ConfigRefused),
            Some(wire) => match wire.config {
                None => Ok((Self::disabled(), LoadNote::ConfigMissing)),
                Some(config) => match Self::from_config(&config, wire.tools) {
                    Ok(plugin) => Ok((plugin, LoadNote::Loaded)),
                    Err(error) => Ok((Self::disabled(), LoadNote::ConfigRejected(error))),
                },
            },
        }
    }

    /// Who is paid for a call of the tool.
    fn recipient<'a>(&'a self, tool_config: &'a X402ToolConfig) -> (recipient: &'a str)
        ensures
            recipient@ == self@.pay_to(tool_config@),
    {
        match &tool_config.recipient {
            Some(recipient) => recipient.as_str(),
            None => self.default_recipient.as_str(),
        }
    }

    /// Builds the challenge for a tool that requires payment.
    pub fn build_challenge(&self, tool_name: &str, tool_config: &X402ToolConfig) -> (challenge:
        Value)
        ensures
            crate::json::json(challenge) == self@.challenge(tool_name@, tool_config@),
            crate::laws::requirement_of(crate::json::json(challenge)) matches Some(requirement)
                && requirement.member("extra"@) matches Some(extra) && extra.member("currency"@)
                == Some(crate::json::Json::Str(tool_config.currency@)),
    {
        proof {
            crate::laws::challenge_states_the_terms(self@, tool_name@, tool_config@);
        }
        let mut extra: Vec<(String, Value)> = Vec::new();
        add_text(&mut extra, "currency", tool_config.currency.as_str());
        add_text(&mut extra, "name", joined("x402 payment for ", tool_name).as_str());

        let description: String = joined(joined("Payment for tool '", tool_name).as_str(), "'");
        let asset: String = token_address_for_currency(
            tool_config.currency.as_str(),
            tool_config.chain_id.as_str(),
        );
        let mut requirement: Vec<(String, Value)> = Vec::new();
        add_text(&mut requirement, "scheme", "exact");
        add_text(&mut requirement, "network", tool_config.chain_id.as_str());
        add_text(&mut requirement, "maxAmountRequired", tool_config.charge.as_str());
        add_text(&mut requirement, "resource", joined("tool://", tool_name).as_str());
        add_text(&mut requirement, "description", description.as_str());
        add_text(&mut requirement, "mimeType", "application/json");
        add_text(&mut requirement, "payTo", self.recipient(tool_config));
        add_member(&mut requirement, "maxTimeoutSeconds", number_value(300));
        add_text(&mut requirement, "asset", asset.as_str());
        add_member(&mut requirement, "extra", object_value(extra));

        let mut requirements: Vec<Value> = Vec::new();
        requirements.push(object_value(requirement));
        assert(requirements@.map_values(|item: Value| crate::json::json(item)) =~= seq![
            crate::json::json(requirements@[0]),
        ]);

        let mut challenge: Vec<(String, Value)> = Vec::new();
        add_text(&mut challenge, "protocol", "x402");
        add_member(&mut challenge, "httpStatus", number_value(402));
        add_member(&mut challenge, "paymentRequirements", array_value(requirements));
        object_value(challenge)
    }

    /// Prepares the facilitator call about a credential. Without a payload or a
    /// signature there is none to make; the error then says so.
    pub fn start_verification(&self, tool_config: &X402ToolConfig, credential: &Value) -> (call:
        Result<VerifyCall, String>)
        ensures
            (match call {
                Ok(call) => self@.enquiry(tool_config@, crate::json::json(*credential)) == Some(
                    call@,
                ),
                Err(reason) => self@.enquiry(tool_config@, crate::json::json(*credential)) is None
                    && reason@ == crate::gate::incomplete_credential(),
            }),
            call is Ok <==> crate::laws::is_complete(crate::json::json(*credential)),
            call matches Ok(call) ==> {
                let credential = crate::json::json(*credential);
                let request = crate::json::json(call.request);
                &&& request.member("payload"@) == credential.member("payload"@)
                &&& request.member("signature"@) == credential.member("signature"@)
            },
    {
        proof {
            crate::laws::request_holds_the_credential(
                self@,
                tool_config@,
                crate::json::json(*credential),
            );
        }
        let signature: Option<&str> = match value_get(credential, "signature") {
            Some(signature) => value_as_str(signature),
            None => None,
        };
        match (value_get(credential, "payload"), signature) {
            (Some(payload), Some(signature)) => {
                let asset: String = token_address_for_currency(
                    tool_config.currency.as_str(),
                    tool_config.chain_id.as_str(),
                );
                let mut requirements: Vec<(String, Value)> = Vec::new();
                add_text(&mut requirements, "scheme", "exact");
                add_text(&mut requirements, "network", tool_config.chain_id.as_str());
                add_text(&mut requirements, "maxAmountRequired", tool_config.charge.as_str());
                add_text(&mut requirements, "payTo", self.recipient(tool_config));
                add_text(&mut requirements, "asset", asset.as_str());

                let mut request: Vec<(String, Value)> = Vec::new();
                add_member(&mut request, "payload", value_clone(payload));
                add_text(&mut request, "signature", signature);
                add_member(&mut request, "requirements", object_value(requirements));
                Ok(
                    VerifyCall {
                        url: joined(cut_trailing_slashes(self.facilitator_url.as_str()), "/verify"),
                        request: object_value(request),
                        tool_config: tool_config.clone(),
                    },
                )
            },
            _ => Err("x402 credential missing 'payload' or 'signature'".to_owned()),
        }
    }

    /// Judges a payment by the status and the body of the facilitator's response.
    pub fn judge_answer(&self, tool_config: &X402ToolConfig, status: u16, body: &Value) -> (result:
        VerifyResult)
        ensures
            result@ == crate::gate::finding_on_answer(
                tool_config@,
                status,
                crate::json::json(*body),
            ),
            result is Verified <==> status == 200 && crate::json::json(*body).member("valid"@)
                == Some(crate::json::Json::Bool(true)),
    {
        let valid: bool = match value_get(body, "valid") {
            Some(valid) => match value_as_bool(valid) {
                Some(valid) => valid,
                None => false,
            },
            None => false,
        };
        if status == 200 && valid {
            let tx_hash: &str = match text_member(body, "txHash", "transaction_hash") {
                Some(tx_hash) => tx_hash,
                None => "facilitator-verified",
            };
            let mut details: Vec<(String, Value)> = Vec::new();
            add_text(&mut details, "status", "success");
            add_text(&mut details, "protocol", "x402");
            add_text(&mut details, "network", tool_config.chain_id.as_str());
            add_text(&mut details, "txHash", tx_hash);
            add_text(&mut details, "amount", tool_config.charge.as_str());
            add_text(&mut details, "currency", tool_config.currency.as_str());

            let mut receipt: Vec<(String, Value)> = Vec::new();
            add_member(&mut receipt, "x402/receipt", object_value(details));
            VerifyResult::Verified(object_value(receipt))
        } else {
            let reason: &str = match text_member(body, "error", "message") {
                Some(reason) => reason,
                None => "facilitator rejected payment",
            };
            VerifyResult::Failed(reason.to_owned())
        }
    }

    /// Verifies a payment by the facilitator's reply.
    pub fn verify_payment(&self, tool_config: &X402ToolConfig, reply: &FacilitatorReply) -> (result:
        VerifyResult)
        ensures
            result@ == crate::gate::finding(tool_config@, reply@),
            result is Verified <==> crate::laws::confirms(reply@),
    {
        match reply {
            FacilitatorReply::Unreachable { error } => {
                VerifyResult::Failed(joined("facilitator unreachable: ", error.as_str()))
            },
            FacilitatorReply::Blocked { error } => {
                VerifyResult::Failed(joined("x402 facilitator SSRF blocked: ", error.as_str()))
            },
            FacilitatorReply::Received { status, body } => match body {
                Err(error) => {
                    VerifyResult::Failed(joined("facilitator response error: ", error.as_str()))
                },
                Ok(text) => match parse_json(text) {
                    Err(_) => VerifyResult::Failed(
                        joined("facilitator response error: ", "error decoding response body"),
                    ),
                    Ok(value) => self.judge_answer(tool_config, *status, &value),
                },
            },
        }
    }

    /// Decides on a call before its dispatch, as far as the facilitator is not
    /// needed. Neither the arguments nor the configuration of the call matter.
    pub fn evaluate_pre(
        &self,
        ctx: &PluginContext,
        _arguments: &Value,
        meta: Option<&Value>,
        _config: &Value,
    ) -> (step: PreStep)
        ensures
            step@ == self@.step(
                ctx.surface@,
                ctx.tool_name@,
                match meta {
                    Some(meta) => Some(crate::json::json(*meta)),
                    None => None,
                },
            ),
    {
        if !self.enabled {
            return PreStep::Decided(GateDecision::allow());
        }
        // Payment gating applies to tool calls only: no other surface is charged.
        if !same_text(ctx.surface.as_str(), "tool") {
            return PreStep::Decided(GateDecision::allow());
        }
        let tool_config: &X402ToolConfig = match self.tool_configs.get(ctx.tool_name.as_str()) {
            Some(tool_config) => tool_config,
            None => {
                return PreStep::Decided(GateDecision::allow());
            },
        };
        let credential: Option<&Value> = match meta {
            Some(meta) => value_get(meta, "x402/payment"),
            None => None,
        };
        match credential {
            None => {
                let mut message: String = "x402 payment required for tool '".to_owned();
                message.append(ctx.tool_name.as_str());
                message.append("' (");
                message.append(tool_config.charge.as_str());
                message.append(" ");
                message.append(tool_config.currency.as_str());
                message.append(")");
                PreStep::Decided(
                    GateDecision::Challenge {
                        http_status: 402,
                        code: X402_PAYMENT_REQUIRED_CODE,
                        message,
                        challenge_data: self.build_challenge(ctx.tool_name.as_str(), tool_config),
                    },
                )
            },
            Some(credential) => match self.start_verification(tool_config, credential) {
                Ok(call) => PreStep::Verify(call),
                Err(reason) => PreStep::Decided(denied(reason.as_str())),
            },
        }
    }

    /// Decides on a call by the facilitator's reply.
    pub fn finish_pre(&self, call: &VerifyCall, reply: &FacilitatorReply) -> (decision:
        GateDecision)
        ensures
            decision@ == crate::gate::verdict_on(crate::gate::finding(call@.terms, reply@)),
            decision is Allow <==> crate::laws::confirms(reply@),
    {
        match self.verify_payment(&call.tool_config, reply) {
            VerifyResult::Verified(receipt) => GateDecision::allow_with_metadata(receipt),
            VerifyResult::Failed(reason) => denied(reason.as_str()),
        }
    }

    /// Decides on a call after its dispatch: there is nothing left to decide, as
    /// payments are settled before it.
    pub fn evaluate_post(
        &self,
        _ctx: &PluginContext,
        _arguments: &Value,
        _result: &Value,
        _duration_ms: u64,
        _config: &Value,
    ) -> (decision: GateDecision)
        ensures
            decision@ == (crate::protocol::Verdict::Allow { metadata: None }),
    {
        GateDecision::allow()
    }

    /// The plugin's manifest.
    pub fn manifest(&self) -> (manifest: &PluginManifest)
        ensures
            is_plugin_manifest(*manifest),
    {
        proof {
            use_type_invariant(self);
        }
        &self.manifest
    }

    /// Whether the plugin is enabled.
    pub fn is_enabled(&self) -> (enabled: bool)
        ensures
            enabled == self@.enabled,
    {
        self.enabled
    }

    /// The priced tools.
    pub fn tool_configs(&self) -> (tools: &ToolConfigs)
        ensures
            tools@ == self@.tools,
    {
        &self.tool_configs
    }

    /// The timeout of a facilitator call, in milliseconds; the HTTP client's own
    /// where `None`.
    pub fn http_timeout_ms(&self) -> (timeout: Option<u64>)
        ensures
            timeout == self@.http_timeout_ms,
    {
        self.http_timeout_ms
    }

    /// What the plugin can do: x402 payments signed by EIP-712, one per call.
    pub fn payment_capabilities(&self) -> (capabilities: Vec<PaymentCapability>)
        ensures
            capabilities@.len() == 1,
            capabilities@[0].protocol == PaymentProtocol::X402,
            capabilities@[0].methods@.len() == 1,
            capabilities@[0].methods@[0]@ == "eip-712"@,
            !capabilities@[0].supports_sessions,
            !capabilities@[0].supports_commerce,
            capabilities@[0].meta_prefix@ == "x402/"@,
    {
        let mut methods: Vec<String> = Vec::new();
        methods.push("eip-712".to_owned());
        let mut capabilities: Vec<PaymentCapability> = Vec::new();
        capabilities.push(
            PaymentCapability {
                protocol: PaymentProtocol::X402,
                methods,
                supports_sessions: false,
                supports_commerce: false,
                meta_prefix: "x402/".to_owned(),
            },
        );
        capabilities
    }

    /// The metadata keys that credentials are read from.
    pub fn credential_meta_keys(&self) -> (keys: Vec<String>)
        ensures
            keys@.len() == 1,
            keys@[0]@ == "x402/payment"@,
    {
        let mut keys: Vec<String> = Vec::new();
        keys.push("x402/payment".to_owned());
        keys
    }

    /// Where in a call's life the plugin acts.
    pub fn payment_category(&self) -> (category: PaymentCategory)
        ensures
            category == PaymentCategory::ToolGate,
    {
        PaymentCategory::ToolGate
    }

    /// The names of the priced tools, in their order.
    pub fn configured_tools(&self) -> (names: Vec<String>)
        ensures
            crate::config::lists_names(names@, self@.tools),
    {
        self.tool_configs.names()
    }
}

/// The string under the first of two keys that an object has.
fn text_member<'a>(value: &'a Value, first: &str, second: &str) -> (text: Option<&'a str>)
    ensures
        (match text {
            Some(text) => Some(text@),
            None => None,
        }) == crate::gate::text_under(crate::json::json(*value), first@, second@),
{
    let found: Option<&Value> = match value_get(value, first) {
        Some(member) => Some(member),
        None => value_get(value, second),
    };
    match found {
        Some(member) => value_as_str(member),
        None => None,
    }
}

/// The decision on a payment that failed.
fn denied(reason: &str) -> (decision: GateDecision)
    ensures
        decision@ == crate::gate::refusal(reason@),
{
    GateDecision::Deny {
        http_status: 403,
        code: X402_VERIFICATION_FAILED_CODE,
        message: joined("x402 payment failed: ", reason),
        error_data: None,
    }
}

} // verus!
