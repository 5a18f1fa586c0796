use std::collections::BTreeMap;

use mcpg_plugin_payment_x402::config::{ConfigError, ToolConfigs, WireConfig};
use mcpg_plugin_payment_x402::config::{X402ProtocolConfig, X402ToolConfig};
use mcpg_plugin_payment_x402::gate::X402_PAYMENT_REQUIRED_CODE;
use mcpg_plugin_payment_x402::gate::X402_VERIFICATION_FAILED_CODE;
use mcpg_plugin_payment_x402::plugin::{FacilitatorReply, LoadNote, PreStep, VerifyCall};
use mcpg_plugin_payment_x402::plugin::{VerifyResult, X402PaymentPlugin};
use mcpg_plugin_payment_x402::protocol::{GateDecision, PaymentCategory, PaymentProtocol};
use mcpg_plugin_payment_x402::protocol::{PluginClass, PluginContext};
use serde_json::Value;

fn text(s: &str) -> Value {
    Value::String(s.to_owned())
}

fn object(members: Vec<(&str, Value)>) -> Value {
    let mut map = serde_json::Map::new();
    for (key, value) in members {
        map.insert(key.to_owned(), value);
    }
    Value::Object(map)
}

fn empty() -> Value {
    object(vec![])
}

fn tool(charge: &str, currency: &str, recipient: Option<&str>) -> X402ToolConfig {
    X402ToolConfig {
        charge: charge.to_owned(),
        currency: currency.to_owned(),
        chain_id: "eip155:8453".to_owned(),
        recipient: recipient.map(|r| r.to_owned()),
    }
}

fn protocol_config(facilitator_url: &str, recipient_address: &str) -> X402ProtocolConfig {
    X402ProtocolConfig {
        rpc_urls: BTreeMap::new(),
        facilitator_url: facilitator_url.to_owned(),
        recipient_address: recipient_address.to_owned(),
        http_timeout_ms: 10,
    }
}

fn plugin_at(facilitator_url: &str) -> X402PaymentPlugin {
    let mut tools = ToolConfigs::new();
    tools.insert("premium_data".to_owned(), tool("0.10", "USDC", Some("0xCustomRecipient")));
    tools.insert("crypto_api".to_owned(), tool("0.001", "ETH", None));
    let config = protocol_config(facilitator_url, "0xDefaultRecipient");
    match X402PaymentPlugin::from_config(&config, tools) {
        Ok(plugin) => plugin,
        Err(error) => panic!("{}", error.message()),
    }
}

fn test_plugin() -> X402PaymentPlugin {
    plugin_at("https://x402.org/facilitator")
}

fn test_ctx(tool_name: &str) -> PluginContext {
    PluginContext { surface: "tool".to_owned(), tool_name: tool_name.to_owned() }
}

fn decided(step: PreStep) -> GateDecision {
    match step {
        PreStep::Decided(decision) => decision,
        PreStep::Verify(_) => panic!("expected a decision"),
    }
}

fn evaluate(plugin: &X402PaymentPlugin, tool_name: &str, meta: Option<&Value>) -> GateDecision {
    decided(plugin.evaluate_pre(&test_ctx(tool_name), &empty(), meta, &empty()))
}

fn credential() -> Value {
    object(vec![(
        "x402/payment",
        object(vec![
            ("payload", object(vec![("nonce", Value::from(7u64))])),
            ("signature", text("0xabc")),
        ]),
    )])
}

fn verify_call(plugin: &X402PaymentPlugin, tool_name: &str) -> VerifyCall {
    let meta = credential();
    match plugin.evaluate_pre(&test_ctx(tool_name), &empty(), Some(&meta), &empty()) {
        PreStep::Verify(call) => call,
        PreStep::Decided(decision) => panic!("expected Verify, got: {:?}", decision),
    }
}

fn received(status: u16, body: &str) -> FacilitatorReply {
    FacilitatorReply::Received { status, body: Ok(body.as_bytes().to_vec()) }
}

fn finish(reply: FacilitatorReply) -> GateDecision {
    let plugin = test_plugin();
    let call = verify_call(&plugin, "crypto_api");
    plugin.finish_pre(&call, &reply)
}

fn denial_message(decision: GateDecision) -> String {
    match decision {
        GateDecision::Deny { http_status, code, message, error_data } => {
            assert_eq!(http_status, 403);
            assert_eq!(code, -33061);
            assert!(error_data.is_none());
            message
        }
        other => panic!("expected Deny, got: {:?}", other),
    }
}

#[test]
fn disabled_plugin_allows() {
    let plugin = X402PaymentPlugin::disabled();
    let decision = evaluate(&plugin, "any_tool", None);
    assert!(decision.is_allow());
}

#[test]
fn unconfigured_tool_allows() {
    let plugin = test_plugin();
    let decision = evaluate(&plugin, "free_tool", None);
    assert!(decision.is_allow());
}

#[test]
fn configured_tool_without_credential_challenges() {
    let plugin = test_plugin();
    let decision = evaluate(&plugin, "crypto_api", None);
    match decision {
        GateDecision::Challenge { http_status, code, challenge_data, .. } => {
            assert_eq!(http_status, 402);
            assert_eq!(code, X402_PAYMENT_REQUIRED_CODE);
            assert_eq!(challenge_data["protocol"], "x402");
            let reqs = challenge_data["paymentRequirements"].as_array().unwrap();
            assert_eq!(reqs.len(), 1);
            assert_eq!(reqs[0]["network"], "eip155:8453");
            assert_eq!(reqs[0]["maxAmountRequired"], "0.001");
            assert_eq!(reqs[0]["payTo"], "0xDefaultRecipient");
        }
        other => panic!("expected Challenge, got: {:?}", other),
    }
}

#[test]
fn custom_recipient_used_in_challenge() {
    let plugin = test_plugin();
    let decision = evaluate(&plugin, "premium_data", None);
    match decision {
        GateDecision::Challenge { challenge_data, .. } => {
            let reqs = challenge_data["paymentRequirements"].as_array().unwrap();
            assert_eq!(reqs[0]["payTo"], "0xCustomRecipient");
            assert_eq!(reqs[0]["maxAmountRequired"], "0.10");
        }
        other => panic!("expected Challenge, got: {:?}", other),
    }
}

#[test]
fn missing_payload_in_credential_denied() {
    let plugin = test_plugin();
    let meta = object(vec![("x402/payment", object(vec![("signature", text("0xabc"))]))]);
    let decision = evaluate(&plugin, "crypto_api", Some(&meta));
    match decision {
        GateDecision::Deny { code, message, .. } => {
            assert_eq!(code, X402_VERIFICATION_FAILED_CODE);
            assert!(message.contains("missing"), "got: {message}");
        }
        other => panic!("expected Deny, got: {:?}", other),
    }
}

#[test]
fn manifest_is_correct() {
    let plugin = test_plugin();
    let m = plugin.manifest();
    assert_eq!(m.id, "dev.mcpg.payment.x402");
    assert_eq!(m.plugin_class, PluginClass::ToolGate);
    assert_eq!(m.protocol_version, "1.0");
}

#[test]
fn payment_aware_capabilities() {
    let plugin = test_plugin();
    let caps = plugin.payment_capabilities();
    assert_eq!(caps.len(), 1);
    assert_eq!(caps[0].protocol, PaymentProtocol::X402);
    assert!(!caps[0].supports_sessions);
    assert!(!caps[0].supports_commerce);
}

#[test]
fn payment_aware_configured_tools() {
    let plugin = test_plugin();
    let mut tools = plugin.configured_tools();
    tools.sort();
    assert_eq!(tools, vec!["crypto_api", "premium_data"]);
}

#[test]
fn payment_aware_category() {
    let plugin = test_plugin();
    assert_eq!(plugin.payment_category(), PaymentCategory::ToolGate);
}

#[test]
fn disabled_from_empty_tools() {
    let config = protocol_config("https://x402.org/facilitator", "0xRecipient");
    let plugin = X402PaymentPlugin::from_config(&config, ToolConfigs::new()).ok().unwrap();
    assert!(!plugin.is_enabled());
}

#[test]
fn invalid_charge_rejected() {
    let config = protocol_config("https://x402.org/facilitator", "0xRecipient");
    let mut tools = ToolConfigs::new();
    tools.insert("bad".to_owned(), tool("not-a-number", "ETH", None));
    let err = X402PaymentPlugin::from_config(&config, tools).err().unwrap();
    assert!(err.message().contains("invalid charge"), "got: {}", err.message());
}

#[test]
fn x402_codes_outside_mcp_reserved_range() {
    for code in [X402_PAYMENT_REQUIRED_CODE, X402_VERIFICATION_FAILED_CODE] {
        assert!(
            !(-32099..=-32000).contains(&code),
            "x402 error code {code} collides with MCP reserved range [-32099, -32000]"
        );
    }
}

#[test]
fn empty_config_yields_disabled_default() {
    for cfg in ["{}", "", "   ", "null"] {
        // Of these texts only the first reads as a configuration.
        let parsed = if cfg == "{}" {
            Some(WireConfig { config: None, tools: ToolConfigs::new() })
        } else {
            None
        };
        let (plugin, note) = X402PaymentPlugin::from_config_json(cfg, parsed).ok().unwrap();
        assert!(!plugin.is_enabled(), "empty config `{cfg}` should be disabled");
        assert!(matches!(note, LoadNote::ConfigMissing));
        let decision = evaluate(&plugin, "any_tool", None);
        assert!(decision.is_allow());
    }
}

#[test]
fn malformed_config_fails_closed() {
    assert!(X402PaymentPlugin::from_config_json("not json", None).is_err());
    assert!(X402PaymentPlugin::from_config_json("nullx", None).is_err());
    assert!(X402PaymentPlugin::from_config_json(" { ", None).is_err());
}

#[test]
fn usable_config_loads_an_enabled_plugin() {
    let mut tools = ToolConfigs::new();
    tools.insert("paid".to_owned(), tool("1", "USDC", None));
    let wire = WireConfig { config: Some(protocol_config("https://f", "0xR")), tools };
    let (plugin, note) = X402PaymentPlugin::from_config_json("{...}", Some(wire)).ok().unwrap();
    assert!(plugin.is_enabled());
    assert!(matches!(note, LoadNote::Loaded));
    assert_eq!(plugin.http_timeout_ms(), Some(10));
    assert_eq!(plugin.configured_tools(), vec!["paid"]);
}

#[test]
fn unusable_config_loads_a_disabled_plugin() {
    let mut tools = ToolConfigs::new();
    tools.insert("paid".to_owned(), tool("1", "USDC", None));
    let wire = WireConfig { config: Some(protocol_config("", "0xR")), tools };
    let (plugin, note) = X402PaymentPlugin::from_config_json("{...}", Some(wire)).ok().unwrap();
    assert!(!plugin.is_enabled());
    assert!(matches!(note, LoadNote::ConfigRejected(ConfigError::FacilitatorUrlRequired)));
    assert_eq!(plugin.http_timeout_ms(), None);
    assert!(evaluate(&plugin, "paid", None).is_allow());
}

#[test]
fn required_settings_are_asked_for_in_order() {
    let tools = || {
        let mut tools = ToolConfigs::new();
        tools.insert("zeta".to_owned(), tool("0", "USDC", None));
        tools.insert("beta".to_owned(), tool("free", "USDC", None));
        tools.insert("alpha".to_owned(), tool("1", "USDC", None));
        tools
    };
    let no_url = X402PaymentPlugin::from_config(&protocol_config("", ""), tools());
    assert_eq!(
        no_url.err().unwrap().message(),
        "x402: facilitator_url is required when x402 tools are configured"
    );
    let no_recipient = X402PaymentPlugin::from_config(&protocol_config("u", ""), tools());
    assert_eq!(no_recipient.err().unwrap().message(), "x402: recipient_address is required");
    let bad_charge = X402PaymentPlugin::from_config(&protocol_config("u", "r"), tools());
    assert_eq!(
        bad_charge.err().unwrap().message(),
        "x402: invalid charge 'free' for tool 'beta'"
    );
}

#[test]
fn other_surfaces_go_ahead() {
    let plugin = test_plugin();
    for surface in ["resource", "prompt", "Tool", ""] {
        let ctx = PluginContext {
            surface: surface.to_owned(),
            tool_name: "crypto_api".to_owned(),
        };
        let decision = decided(plugin.evaluate_pre(&ctx, &empty(), None, &empty()));
        assert!(decision.is_allow());
    }
}

#[test]
fn challenge_is_exact() {
    let plugin = test_plugin();
    match evaluate(&plugin, "premium_data", Some(&empty())) {
        GateDecision::Challenge { http_status, code, message, challenge_data } => {
            assert_eq!(http_status, 402);
            assert_eq!(code, -33060);
            assert_eq!(message, "x402 payment required for tool 'premium_data' (0.10 USDC)");
            let requirement = object(vec![
                ("scheme", text("exact")),
                ("network", text("eip155:8453")),
                ("maxAmountRequired", text("0.10")),
                ("resource", text("tool://premium_data")),
                ("description", text("Payment for tool 'premium_data'")),
                ("mimeType", text("application/json")),
                ("payTo", text("0xCustomRecipient")),
                ("maxTimeoutSeconds", Value::from(300i32)),
                ("asset", text("0x833589fCD6eDb6E08f4c7C32D4f71b54bdA02913")),
                (
                    "extra",
                    object(vec![
                        ("currency", text("USDC")),
                        ("name", text("x402 payment for premium_data")),
                    ]),
                ),
            ]);
            let expected = object(vec![
                ("protocol", text("x402")),
                ("httpStatus", Value::from(402i32)),
                ("paymentRequirements", Value::Array(vec![requirement])),
            ]);
            assert_eq!(challenge_data, expected);
        }
        other => panic!("expected Challenge, got: {:?}", other),
    }
}

#[test]
fn facilitator_is_asked_for_the_terms_of_the_tool() {
    let plugin = test_plugin();
    let call = verify_call(&plugin, "crypto_api");
    assert_eq!(call.url, "https://x402.org/facilitator/verify");
    let expected = object(vec![
        ("payload", object(vec![("nonce", Value::from(7u64))])),
        ("signature", text("0xabc")),
        (
            "requirements",
            object(vec![
                ("scheme", text("exact")),
                ("network", text("eip155:8453")),
                ("maxAmountRequired", text("0.001")),
                ("payTo", text("0xDefaultRecipient")),
                ("asset", text("0x0000000000000000000000000000000000000000")),
            ]),
        ),
    ]);
    assert_eq!(call.request, expected);
}

#[test]
fn slashes_behind_the_facilitator_url_are_cut() {
    for url in ["https://f.example/x", "https://f.example/x/", "https://f.example/x///"] {
        let plugin = plugin_at(url);
        assert_eq!(verify_call(&plugin, "crypto_api").url, "https://f.example/x/verify");
    }
}

#[test]
fn incomplete_credentials_are_denied_unasked() {
    let plugin = test_plugin();
    let credentials = vec![
        Value::Null,
        text("paid"),
        empty(),
        object(vec![("payload", empty())]),
        object(vec![("payload", empty()), ("signature", Value::from(1u64))]),
        object(vec![("signature", text("0xabc"))]),
    ];
    for credential in credentials {
        let meta = object(vec![("x402/payment", credential)]);
        let message = denial_message(evaluate(&plugin, "crypto_api", Some(&meta)));
        assert_eq!(
            message,
            "x402 payment failed: x402 credential missing 'payload' or 'signature'"
        );
    }
}

#[test]
fn null_payload_counts_as_a_payload() {
    let plugin = test_plugin();
    let meta = object(vec![(
        "x402/payment",
        object(vec![("payload", Value::Null), ("signature", text("s"))]),
    )]);
    match plugin.evaluate_pre(&test_ctx("crypto_api"), &empty(), Some(&meta), &empty()) {
        PreStep::Verify(call) => assert_eq!(call.request["payload"], Value::Null),
        PreStep::Decided(decision) => panic!("expected Verify, got: {:?}", decision),
    }
}

#[test]
fn confirmed_payment_is_granted_with_a_receipt() {
    match finish(received(200, "{\"valid\": true, \"txHash\": \"0xfeed\"}")) {
        GateDecision::Allow { metadata } => {
            let expected = object(vec![(
                "x402/receipt",
                object(vec![
                    ("status", text("success")),
                    ("protocol", text("x402")),
                    ("network", text("eip155:8453")),
                    ("txHash", text("0xfeed")),
                    ("amount", text("0.001")),
                    ("currency", text("ETH")),
                ]),
            )]);
            assert_eq!(metadata, Some(expected));
        }
        other => panic!("expected Allow, got: {:?}", other),
    }
}

#[test]
fn transaction_hash_is_found_under_either_key() {
    let cases = [
        ("{\"valid\":true,\"transaction_hash\":\"0x2\"}", "0x2"),
        ("{\"valid\":true,\"txHash\":\"0x1\",\"transaction_hash\":\"0x2\"}", "0x1"),
        ("{\"valid\":true,\"txHash\":5,\"transaction_hash\":\"0x2\"}", "facilitator-verified"),
        ("{\"valid\":true}", "facilitator-verified"),
    ];
    for (body, hash) in cases {
        match finish(received(200, body)) {
            GateDecision::Allow { metadata: Some(data) } => {
                assert_eq!(data["x402/receipt"]["txHash"], hash);
            }
            other => panic!("expected Allow, got: {:?}", other),
        }
    }
}

#[test]
fn unconfirmed_payments_are_denied() {
    let cases = vec![
        (received(402, "{\"valid\":true}"), "facilitator rejected payment"),
        (received(201, "{\"valid\":true}"), "facilitator rejected payment"),
        (received(200, "{\"valid\":false}"), "facilitator rejected payment"),
        (received(200, "{\"valid\":\"true\"}"), "facilitator rejected payment"),
        (received(200, "{}"), "facilitator rejected payment"),
        (received(200, "[true]"), "facilitator rejected payment"),
        (received(200, "{\"error\":\"spent\",\"message\":\"no\"}"), "spent"),
        (received(400, "{\"message\":\"too little\"}"), "too little"),
        (received(400, "{\"error\":1,\"message\":\"m\"}"), "facilitator rejected payment"),
        (
            received(200, "oops"),
            "facilitator response error: error decoding response body",
        ),
        (
            received(200, ""),
            "facilitator response error: error decoding response body",
        ),
        (
            FacilitatorReply::Received { status: 200, body: Err("cut off".to_owned()) },
            "facilitator response error: cut off",
        ),
        (
            FacilitatorReply::Unreachable { error: "timed out".to_owned() },
            "facilitator unreachable: timed out",
        ),
        (
            FacilitatorReply::Blocked { error: "loopback".to_owned() },
            "x402 facilitator SSRF blocked: loopback",
        ),
    ];
    for (reply, reason) in cases {
        assert_eq!(denial_message(finish(reply)), format!("x402 payment failed: {reason}"));
    }
}

#[test]
fn answer_is_judged_by_status_and_validity() {
    let plugin = test_plugin();
    let terms = tool("0.001", "ETH", None);
    let body = object(vec![("valid", Value::Bool(true))]);
    assert!(matches!(plugin.judge_answer(&terms, 200, &body), VerifyResult::Verified(_)));
    match plugin.judge_answer(&terms, 500, &body) {
        VerifyResult::Failed(reason) => assert_eq!(reason, "facilitator rejected payment"),
        VerifyResult::Verified(receipt) => panic!("unexpected receipt: {:?}", receipt),
    }
}

#[test]
fn nothing_is_decided_after_dispatch() {
    let plugin = test_plugin();
    let decision = plugin.evaluate_post(&test_ctx("crypto_api"), &empty(), &empty(), 3, &empty());
    assert!(matches!(decision, GateDecision::Allow { metadata: None }));
}

#[test]
fn decisions_have_outcome_labels() {
    assert_eq!(GateDecision::allow().outcome(), "allow");
    assert_eq!(evaluate(&test_plugin(), "crypto_api", None).outcome(), "challenge");
    assert_eq!(finish(received(500, "{}")).outcome(), "deny");
    assert_eq!(GateDecision::PendingApproval.outcome(), "pending_approval");
    assert!(!GateDecision::PendingApproval.is_allow());
}

#[test]
fn plugin_describes_itself() {
    let plugin = X402PaymentPlugin::disabled();
    let manifest = plugin.manifest();
    assert_eq!(manifest.name, "x402 Crypto Micropayments");
    assert_eq!(manifest.version, "0.1.0");
    assert_eq!(manifest.module_path_prefix, "mcpg_plugin_payment_x402");
    assert!(manifest.license.is_none() && manifest.backend_profile.is_none());
    assert!(manifest.tags.is_empty() && manifest.required_capabilities.is_empty());
    assert_eq!(plugin.credential_meta_keys(), vec!["x402/payment"]);
    assert_eq!(plugin.payment_capabilities()[0].methods, vec!["eip-712"]);
    assert_eq!(plugin.payment_capabilities()[0].meta_prefix, "x402/");
    assert!(plugin.configured_tools().is_empty());
}
