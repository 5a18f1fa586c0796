//! The rules of the plugin: what each call is answered, what is asked of the
//! facilitator, and what its reply means.

use vstd::prelude::*;

use crate::config::{ConfigError, ToolTerms};
use crate::json::Json;
use crate::protocol::Verdict;

verus! {

// Payment codes live outside the range that MCP reserves in JSON-RPC, -32099 to
// -32000, so that no later assignment collides with them.

/// JSON-RPC error code for x402 payment required.
pub const X402_PAYMENT_REQUIRED_CODE: i32 = -33060;

/// JSON-RPC error code for x402 payment verification failure.
pub const X402_VERIFICATION_FAILED_CODE: i32 = -33061;

/// The part of a payment plugin that its decisions rest on.
pub struct Gate {
    pub enabled: bool,
    /// The priced tools by name.
    pub tools: Map<Seq<char>, ToolTerms>,
    pub facilitator_url: Seq<char>,
    pub default_recipient: Seq<char>,
    /// The timeout of a facilitator call; the HTTP client's own where `None`.
    pub http_timeout_ms: Option<u64>,
}

/// A payment that the facilitator is asked about.
pub struct Enquiry {
    pub url: Seq<char>,
    pub request: Json,
    /// What the tool costs.
    pub terms: ToolTerms,
}

/// What becomes of a call before its dispatch.
pub enum Step {
    /// The plugin decides by itself.
    Decided(Verdict),
    /// The facilitator's reply decides.
    Verify(Enquiry),
}

/// How the facilitator replied.
pub enum Reply {
    /// No response came; the error says why.
    Unreachable { error: Seq<char> },
    /// The response came from an address that the guard against DNS rebinding
    /// refuses; the error says why.
    Blocked { error: Seq<char> },
    /// A response came, with its body or the error in reading it.
    Received { status: u16, body: Result<Seq<u8>, Seq<char>> },
}

/// What a reply says of a payment: a receipt, or why it failed.
pub enum Finding {
    Verified(Json),
    Failed(Seq<char>),
}

/// A plugin that lets every call go ahead.
pub open spec fn disabled_gate() -> Gate {
    Gate {
        enabled: false,
        tools: Map::empty(),
        facilitator_url: Seq::empty(),
        default_recipient: Seq::empty(),
        http_timeout_ms: None,
    }
}

/// What comes of a configuration with the given settings and tools.
///
/// Without tools the plugin is disabled. With tools a facilitator, a recipient and
/// valid charges are required, in this order.
pub open spec fn compiles_to(
    facilitator_url: Seq<char>,
    recipient_address: Seq<char>,
    http_timeout_ms: u64,
    tools: Map<Seq<char>, ToolTerms>,
    outcome: Result<Gate, ConfigError>,
) -> bool {
    if tools == Map::<Seq<char>, ToolTerms>::empty() {
        outcome == Ok::<Gate, ConfigError>(disabled_gate())
    } else if facilitator_url.len() == 0 {
        outcome == Err::<Gate, ConfigError>(ConfigError::FacilitatorUrlRequired)
    } else if recipient_address.len() == 0 {
        outcome == Err::<Gate, ConfigError>(ConfigError::RecipientAddressRequired)
    } else if crate::config::all_charges_valid(tools) {
        outcome == Ok::<Gate, ConfigError>(
            Gate {
                enabled: true,
                tools,
                facilitator_url,
                default_recipient: recipient_address,
                http_timeout_ms: Some(http_timeout_ms),
            },
        )
    } else {
        match outcome {
            Ok(_) => false,
            Err(error) => crate::config::first_invalid(tools, error),
        }
    }
}

impl Gate {
    /// What holds of every gate: one that is enabled has priced tools with valid
    /// charges, a facilitator and a recipient; one that is not has none of them.
    pub open spec fn well_formed(self) -> bool {
        if self.enabled {
            &&& self.tools != Map::<Seq<char>, ToolTerms>::empty()
            &&& crate::config::all_charges_valid(self.tools)
            &&& self.facilitator_url.len() > 0
            &&& self.default_recipient.len() > 0
        } else {
            self == disabled_gate()
        }
    }

    /// Who is paid: the tool's own recipient, else the default one.
    pub open spec fn pay_to(self, terms: ToolTerms) -> Seq<char> {
        match terms.recipient {
            Some(recipient) => recipient,
            None => self.default_recipient,
        }
    }

    /// The challenge that asks for the payment of a tool.
    pub open spec fn challenge(self, tool: Seq<char>, terms: ToolTerms) -> Json {
        let extra = map![
            "currency"@ => Json::Str(terms.currency),
            "name"@ => Json::Str("x402 payment for "@ + tool),
        ];
        let requirement = map![
            "scheme"@ => Json::Str("exact"@),
            "network"@ => Json::Str(terms.chain_id),
            "maxAmountRequired"@ => Json::Str(terms.charge),
            "resource"@ => Json::Str("tool://"@ + tool),
            "description"@ => Json::Str("Payment for tool '"@ + tool + "'"@),
            "mimeType"@ => Json::Str("application/json"@),
            "payTo"@ => Json::Str(self.pay_to(terms)),
            "maxTimeoutSeconds"@ => Json::Int(300),
            "asset"@ => Json::Str(crate::asset::token_address(terms.currency, terms.chain_id)),
            "extra"@ => Json::Obj(extra),
        ];
        Json::Obj(
            map![
                "protocol"@ => Json::Str("x402"@),
                "httpStatus"@ => Json::Int(402),
                "paymentRequirements"@ => Json::Arr(seq![Json::Obj(requirement)]),
            ],
        )
    }

    /// Where payments are verified: `/verify` under the facilitator's URL.
    pub open spec fn verify_url(self) -> Seq<char> {
        crate::text::without_trailing_slashes(self.facilitator_url) + "/verify"@
    }

    /// What the facilitator is asked: whether the signed payload meets the
    /// requirements of the tool.
    pub open spec fn verify_request(
        self,
        terms: ToolTerms,
        payload: Json,
        signature: Seq<char>,
    ) -> Json {
        let requirements = map![
            "scheme"@ => Json::Str("exact"@),
            "network"@ => Json::Str(terms.chain_id),
            "maxAmountRequired"@ => Json::Str(terms.charge),
            "payTo"@ => Json::Str(self.pay_to(terms)),
            "asset"@ => Json::Str(crate::asset::token_address(terms.currency, terms.chain_id)),
        ];
        Json::Obj(
            map![
                "payload"@ => payload,
                "signature"@ => Json::Str(signature),
                "requirements"@ => Json::Obj(requirements),
            ],
        )
    }

    /// The enquiry about a credential; `None` where the credential has no
    /// payload or no signature, and so nobody is asked.
    pub open spec fn enquiry(self, terms: ToolTerms, credential: Json) -> Option<Enquiry> {
        match (credential.member("payload"@), signature_of(credential)) {
            (Some(payload), Some(signature)) => Some(
                Enquiry {
                    url: self.verify_url(),
                    request: self.verify_request(terms, payload, signature),
                    terms,
                },
            ),
            _ => None,
        }
    }

    /// Whether a call has to be paid for: the plugin is enabled, the call came in
    /// as a tool call, and the tool is priced.
    pub open spec fn charges(self, surface: Seq<char>, tool: Seq<char>) -> bool {
        self.enabled && surface == "tool"@ && self.tools.contains_key(tool)
    }

    /// What becomes of a call: one that has to be paid for is challenged where
    /// it carries no credential, refused where the credential is not complete,
    /// and else left to the facilitator. Every other call goes ahead.
    pub open spec fn step(self, surface: Seq<char>, tool: Seq<char>, meta: Option<Json>) -> Step {
        let terms = self.tools[tool];
        if !self.charges(surface, tool) {
            Step::Decided(Verdict::Allow { metadata: None })
        } else {
            match credential_of(meta) {
                None => Step::Decided(
                    Verdict::Challenge {
                        http_status: 402,
                        code: X402_PAYMENT_REQUIRED_CODE,
                        message: payment_required(tool, terms),
                        challenge_data: self.challenge(tool, terms),
                    },
                ),
                Some(credential) => match self.enquiry(terms, credential) {
                    None => Step::Decided(refusal(incomplete_credential())),
                    Some(enquiry) => Step::Verify(enquiry),
                },
            }
        }
    }
}

/// The payment credential in the metadata of a call.
pub open spec fn credential_of(meta: Option<Json>) -> Option<Json> {
    match meta {
        Some(meta) => meta.member("x402/payment"@),
        None => None,
    }
}

/// The signature in a credential, where it is a string.
pub open spec fn signature_of(credential: Json) -> Option<Seq<char>> {
    match credential.member("signature"@) {
        Some(signature) => signature.text(),
        None => None,
    }
}

/// Why a credential without payload or signature fails.
pub open spec fn incomplete_credential() -> Seq<char> {
    "x402 credential missing 'payload' or 'signature'"@
}

/// The words of a challenge.
pub open spec fn payment_required(tool: Seq<char>, terms: ToolTerms) -> Seq<char> {
    "x402 payment required for tool '"@ + tool + "' ("@ + terms.charge + " "@ + terms.currency
        + ")"@
}

/// The verdict on a payment that failed.
pub open spec fn refusal(reason: Seq<char>) -> Verdict {
    Verdict::Deny {
        http_status: 403,
        code: X402_VERIFICATION_FAILED_CODE,
        message: "x402 payment failed: "@ + reason,
        error_data: None,
    }
}

/// The string under the first of two keys that an object has: the second key
/// counts only where the first is absent.
pub open spec fn text_under(value: Json, first: Seq<char>, second: Seq<char>) -> Option<Seq<char>> {
    let found = match value.member(first) {
        Some(member) => Some(member),
        None => value.member(second),
    };
    match found {
        Some(member) => member.text(),
        None => None,
    }
}

/// The facilitator accepts a payment with status 200 and `valid: true`, and with
/// nothing else.
pub open spec fn accepts(status: u16, body: Json) -> bool {
    status == 200 && body.member("valid"@) == Some(Json::Bool(true))
}

/// The receipt of an accepted payment.
pub open spec fn receipt(terms: ToolTerms, body: Json) -> Json {
    let tx_hash = match text_under(body, "txHash"@, "transaction_hash"@) {
        Some(hash) => hash,
        None => "facilitator-verified"@,
    };
    let details = map![
        "status"@ => Json::Str("success"@),
        "protocol"@ => Json::Str("x402"@),
        "network"@ => Json::Str(terms.chain_id),
        "txHash"@ => Json::Str(tx_hash),
        "amount"@ => Json::Str(terms.charge),
        "currency"@ => Json::Str(terms.currency),
    ];
    Json::Obj(map!["x402/receipt"@ => Json::Obj(details)])
}

/// What a response with this status and body says of a payment.
pub open spec fn finding_on_answer(terms: ToolTerms, status: u16, body: Json) -> Finding {
    if accepts(status, body) {
        Finding::Verified(receipt(terms, body))
    } else {
        Finding::Failed(
            match text_under(body, "error"@, "message"@) {
                Some(reason) => reason,
                None => "facilitator rejected payment"@,
            },
        )
    }
}

/// What a reply says of a payment.
pub open spec fn finding(terms: ToolTerms, reply: Reply) -> Finding {
    match reply {
        Reply::Unreachable { error } => Finding::Failed("facilitator unreachable: "@ + error),
        Reply::Blocked { error } => Finding::Failed("x402 facilitator SSRF blocked: "@ + error),
        Reply::Received { status, body } => match body {
            Err(error) => Finding::Failed("facilitator response error: "@ + error),
            Ok(text) => match crate::json::parsed_json(text) {
                None => Finding::Failed(
                    "facilitator response error: "@ + "error decoding response body"@,
                ),
                Some(value) => finding_on_answer(terms, status, value),
            },
        },
    }
}

/// The verdict on a call whose payment was verified with this finding.
pub open spec fn verdict_on(finding: Finding) -> Verdict {
    match finding {
        Finding::Verified(receipt) => Verdict::Allow { metadata: Some(receipt) },
        Finding::Failed(reason) => refusal(reason),
    }
}

} // verus!
