//! What holds of the plugin as a whole.

use vstd::prelude::*;

use crate::config::{ConfigError, ToolTerms, WireConfig, X402ToolConfig};
use crate::gate::{Gate, Reply, Step};
use crate::json::Json;
use crate::plugin::{ConfigRefused, FacilitatorReply, LoadNote, PreStep, VerifyCall};
use crate::plugin::{VerifyResult, X402PaymentPlugin};
use crate::protocol::{GateDecision, PluginClass, PluginManifest, Verdict};

verus! {

/// The verdict on a call, where the facilitator replies to an enquiry with
/// `reply`.
pub open spec fn outcome(
    gate: Gate,
    surface: Seq<char>,
    tool: Seq<char>,
    meta: Option<Json>,
    reply: Reply,
) -> Verdict {
    match gate.step(surface, tool, meta) {
        Step::Decided(verdict) => verdict,
        Step::Verify(enquiry) => crate::gate::verdict_on(
            crate::gate::finding(enquiry.terms, reply),
        ),
    }
}

/// The metadata of a call carries this credential.
pub open spec fn carries(meta: Option<Json>, credential: Json) -> bool {
    meta matches Some(meta) && meta.member("x402/payment"@) == Some(credential)
}

/// The metadata of a call carries no credential.
pub open spec fn carries_nothing(meta: Option<Json>) -> bool {
    meta matches Some(meta) ==> meta.member("x402/payment"@) is None
}

/// A credential is complete with a payload and a signature, which is a string.
pub open spec fn is_complete(credential: Json) -> bool {
    &&& credential.member("payload"@) is Some
    &&& credential.member("signature"@) matches Some(Json::Str(_))
}

/// The reply confirms a payment: a response came through the guard with status
/// 200, and its body is JSON that says `valid: true`.
pub open spec fn confirms(reply: Reply) -> bool {
    &&& reply matches Reply::Received { status, body }
    &&& status == 200
    &&& body matches Ok(text)
    &&& crate::json::parsed_json(text) matches Some(value)
    &&& value.member("valid"@) == Some(Json::Bool(true))
}

/// An object whose members are exactly those under the given keys.
pub open spec fn has_exactly(value: Json, keys: Set<Seq<char>>) -> bool {
    &&& value is Obj
    &&& forall|key: Seq<char>| (#[trigger] value.member(key)) is Some <==> keys.contains(key)
}

/// The denial of a payment that failed for `reason`.
pub open spec fn denial(reason: Seq<char>) -> Verdict {
    Verdict::Deny {
        http_status: 403,
        code: (-33061) as i32,
        message: "x402 payment failed: "@ + reason,
        error_data: None,
    }
}

/// The member of a JSON value under a key is the entry that an object has for
/// it; the text of a value is that of a string, and its truth that of a boolean.
pub proof fn json_is_read_as_it_stands(value: Json, key: Seq<char>)
    ensures
        (match value {
            Json::Obj(members) => {
                &&& members.contains_key(key) ==> value.member(key) == Some(members[key])
                &&& !members.contains_key(key) ==> value.member(key) is None
            },
            _ => value.member(key) is None,
        }),
        (match value {
            Json::Str(text) => value.text() == Some(text),
            _ => value.text() is None,
        }),
        (match value {
            Json::Bool(truth) => value.truth() == Some(truth),
            _ => value.truth() is None,
        }),
{
}

/// A disabled plugin lets every call go ahead.
pub proof fn disabled_gate_allows_every_call(
    gate: Gate,
    surface: Seq<char>,
    tool: Seq<char>,
    meta: Option<Json>,
)
    requires
        !gate.enabled,
    ensures
        gate.step(surface, tool, meta) == Step::Decided(Verdict::Allow { metadata: None }),
{
}

/// Only tool calls are ever charged: every other surface goes ahead.
pub proof fn other_surfaces_are_never_charged(
    gate: Gate,
    surface: Seq<char>,
    tool: Seq<char>,
    meta: Option<Json>,
)
    requires
        surface != "tool"@,
    ensures
        gate.step(surface, tool, meta) == Step::Decided(Verdict::Allow { metadata: None }),
{
}

/// A tool that is not priced is never gated.
pub proof fn unpriced_tools_are_never_gated(
    gate: Gate,
    surface: Seq<char>,
    tool: Seq<char>,
    meta: Option<Json>,
)
    requires
        !gate.tools.contains_key(tool),
    ensures
        gate.step(surface, tool, meta) == Step::Decided(Verdict::Allow { metadata: None }),
{
}

/// A call has to be paid for exactly when the plugin is enabled, the call came in
/// as a tool call and the tool is priced.
pub proof fn charged_calls_are_tool_calls_of_priced_tools(
    gate: Gate,
    surface: Seq<char>,
    tool: Seq<char>,
)
    ensures
        gate.charges(surface, tool) <==> gate.enabled && surface == "tool"@
            && gate.tools.contains_key(tool),
        gate.charges(surface, tool) <==> !(gate.step(surface, tool, None) == Step::Decided(
            Verdict::Allow { metadata: None },
        )),
{
}

/// Verification is the only thing that grants a call that has to be paid for: it
/// goes ahead exactly when it carries a credential with a payload and a signature,
/// and the facilitator's response has status 200 and a JSON body whose member
/// `valid` is the boolean `true`. The credential alone never does.
pub proof fn only_verification_grants_a_charged_call(
    gate: Gate,
    surface: Seq<char>,
    tool: Seq<char>,
    meta: Option<Json>,
    reply: Reply,
)
    requires
        gate.enabled,
        surface == "tool"@,
        gate.tools.contains_key(tool),
    ensures
        outcome(gate, surface, tool, meta, reply) is Allow <==> {
            &&& meta matches Some(data)
            &&& data.member("x402/payment"@) matches Some(credential)
            &&& credential.member("payload"@) is Some
            &&& credential.member("signature"@) matches Some(Json::Str(_))
            &&& reply matches Reply::Received { status, body }
            &&& status == 200
            &&& body matches Ok(text)
            &&& crate::json::parsed_json(text) matches Some(value)
            &&& value.member("valid"@) == Some(Json::Bool(true))
        },
{
}

/// A payment is good only where the facilitator answers with status 200 and
/// `valid: true`. Any other status is denied, and so is any other or no `valid`,
/// whatever else the body holds.
pub proof fn answer_is_good_only_with_status_200_and_valid_true(
    terms: ToolTerms,
    status: u16,
    value: Json,
)
    ensures
        crate::gate::finding_on_answer(terms, status, value) is Verified <==> status == 200
            && value.member("valid"@) == Some(Json::Bool(true)),
        value.member("valid"@) != Some(Json::Bool(true)) ==> crate::gate::verdict_on(
            crate::gate::finding_on_answer(terms, status, value),
        ) is Deny,
        status != 200 ==> crate::gate::verdict_on(
            crate::gate::finding_on_answer(terms, status, value),
        ) is Deny,
{
}

/// The response to a call that was let through the guard is judged by its status
/// and by what its body reads as.
pub proof fn response_is_judged_by_status_and_body(
    terms: ToolTerms,
    status: u16,
    text: Seq<u8>,
    value: Json,
)
    requires
        crate::json::parsed_json(text) == Some(value),
    ensures
        crate::gate::finding(terms, Reply::Received { status, body: Ok(text) })
            == crate::gate::finding_on_answer(terms, status, value),
{
}

/// A call that has to be paid for and carries no credential is challenged, with
/// HTTP status 402 and the code -33060, in words that name the tool, the charge
/// and the currency. No other call is.
pub proof fn unpaid_call_is_challenged(
    gate: Gate,
    surface: Seq<char>,
    tool: Seq<char>,
    meta: Option<Json>,
)
    requires
        gate.enabled,
        surface == "tool"@,
        gate.tools.contains_key(tool),
    ensures
        (gate.step(surface, tool, meta) matches Step::Decided(verdict) && verdict is Challenge)
            <==> carries_nothing(meta),
        carries_nothing(meta) ==> gate.step(surface, tool, meta) == Step::Decided(
            Verdict::Challenge {
                http_status: 402,
                code: (-33060) as i32,
                message: "x402 payment required for tool '"@ + tool + "' ("@
                    + gate.tools[tool].charge + " "@ + gate.tools[tool].currency + ")"@,
                challenge_data: gate.challenge(tool, gate.tools[tool]),
            },
        ),
{
}

/// A credential without payload or signature is refused before anyone is asked;
/// with both the facilitator is asked.
pub proof fn nobody_is_asked_about_an_incomplete_credential(
    gate: Gate,
    surface: Seq<char>,
    tool: Seq<char>,
    meta: Option<Json>,
)
    requires
        gate.enabled,
        surface == "tool"@,
        gate.tools.contains_key(tool),
    ensures
        gate.step(surface, tool, meta) is Verify <==> {
            &&& meta matches Some(data)
            &&& data.member("x402/payment"@) matches Some(credential)
            &&& is_complete(credential)
        },
        (meta matches Some(data) && data.member("x402/payment"@) matches Some(credential)
            && !is_complete(credential)) ==> gate.step(surface, tool, meta) == Step::Decided(
            denial("x402 credential missing 'payload' or 'signature'"@),
        ),
{
}

/// The facilitator is asked about the caller's own payload and signature, both as
/// they stand in the credential, and about the terms of the tool that is called:
/// the chain as `network`, the charge as `maxAmountRequired`, the recipient as
/// `payTo` and the token contract as `asset`. It is asked about nothing else.
pub proof fn facilitator_is_asked_about_the_credential(
    gate: Gate,
    tool: Seq<char>,
    meta: Option<Json>,
    credential: Json,
    payload: Json,
    signature: Seq<char>,
)
    requires
        gate.enabled,
        gate.tools.contains_key(tool),
        carries(meta, credential),
        credential.member("payload"@) == Some(payload),
        credential.member("signature"@) == Some(Json::Str(signature)),
    ensures
        ({
            let terms = gate.tools[tool];
            &&& gate.step("tool"@, tool, meta) matches Step::Verify(enquiry)
            &&& enquiry.terms == terms
            &&& has_exactly(
                enquiry.request,
                set!["payload"@, "signature"@, "requirements"@],
            )
            &&& enquiry.request.member("payload"@) == Some(payload)
            &&& enquiry.request.member("signature"@) == Some(Json::Str(signature))
            &&& enquiry.request.member("requirements"@) matches Some(requirements)
            &&& has_exactly(
                requirements,
                set!["scheme"@, "network"@, "maxAmountRequired"@, "payTo"@, "asset"@],
            )
            &&& requirements.member("scheme"@) == Some(Json::Str("exact"@))
            &&& requirements.member("network"@) == Some(Json::Str(terms.chain_id))
            &&& requirements.member("maxAmountRequired"@) == Some(Json::Str(terms.charge))
            &&& requirements.member("payTo"@) == Some(
                Json::Str(
                    match terms.recipient {
                        Some(recipient) => recipient,
                        None => gate.default_recipient,
                    },
                ),
            )
            &&& requirements.member("asset"@) == Some(
                Json::Str(crate::asset::token_address(terms.currency, terms.chain_id)),
            )
        }),
{
    requirement_keys();
}

/// Whatever a complete credential holds, the request carries its payload and its
/// signature unchanged. There is no request about any other credential.
pub proof fn request_holds_the_credential(gate: Gate, terms: ToolTerms, credential: Json)
    ensures
        gate.enquiry(terms, credential) is Some <==> is_complete(credential),
        gate.enquiry(terms, credential) matches Some(enquiry) ==> {
            &&& enquiry.terms == terms
            &&& enquiry.request.member("payload"@) == credential.member("payload"@)
            &&& enquiry.request.member("signature"@) == credential.member("signature"@)
        },
{
    requirement_keys();
}

/// The facilitator is called at `/verify` under its URL, whatever number of
/// slashes the URL ends in.
pub proof fn facilitator_is_called_at_verify(
    gate: Gate,
    terms: ToolTerms,
    credential: Json,
    base: Seq<char>,
    slashes: nat,
)
    requires
        is_complete(credential),
        gate.facilitator_url == base + Seq::new(slashes, |i: int| '/'),
        base.len() > 0 ==> base.last() != '/',
    ensures
        gate.enquiry(terms, credential) matches Some(enquiry) && enquiry.url == base + "/verify"@,
{
    slashes_are_cut(base, slashes);
}

proof fn slashes_are_cut(base: Seq<char>, slashes: nat)
    requires
        base.len() > 0 ==> base.last() != '/',
    ensures
        crate::text::without_trailing_slashes(base + Seq::new(slashes, |i: int| '/')) == base,
    decreases slashes,
{
    let whole = base + Seq::new(slashes, |i: int| '/');
    if slashes == 0 {
        assert(whole =~= base);
    } else {
        assert(whole.drop_last() =~= base + Seq::new((slashes - 1) as nat, |i: int| '/'));
        assert(whole.last() == '/');
        slashes_are_cut(base, (slashes - 1) as nat);
    }
}

/// Every URL is a base that does not end in a slash, and slashes.
pub proof fn urls_are_a_base_and_slashes(url: Seq<char>) -> (parts: (Seq<char>, nat))
    ensures
        url == parts.0 + Seq::new(parts.1, |i: int| '/'),
        parts.0.len() > 0 ==> parts.0.last() != '/',
    decreases url.len(),
{
    if url.len() > 0 && url.last() == '/' {
        let (base, slashes) = urls_are_a_base_and_slashes(url.drop_last());
        assert(url =~= url.drop_last().push('/'));
        assert(url =~= base + Seq::new(slashes + 1, |i: int| '/'));
        (base, slashes + 1)
    } else {
        assert(url =~= url + Seq::new(0, |i: int| '/'));
        (url, 0)
    }
}

/// A call with a credential whose payment is not confirmed is denied, with HTTP
/// status 403 and the code for a failed verification.
pub proof fn unconfirmed_payment_is_denied(
    gate: Gate,
    surface: Seq<char>,
    tool: Seq<char>,
    meta: Option<Json>,
    reply: Reply,
)
    requires
        gate.enabled,
        surface == "tool"@,
        gate.tools.contains_key(tool),
        meta matches Some(data) && data.member("x402/payment"@) matches Some(credential) && !(
        is_complete(credential) && confirms(reply)),
    ensures
        (outcome(gate, surface, tool, meta, reply) matches Verdict::Deny {
            http_status,
            code,
            error_data,
            ..
        } && http_status == 403 && code == -33061 && error_data is None),
{
}

/// Where no response came, where its sender was refused and where its body could
/// not be read, the payment is denied for that reason.
pub proof fn failed_exchange_is_denied_with_its_error(
    terms: ToolTerms,
    error: Seq<char>,
    status: u16,
    text: Seq<u8>,
)
    ensures
        crate::gate::verdict_on(crate::gate::finding(terms, Reply::Unreachable { error }))
            == denial("facilitator unreachable: "@ + error),
        crate::gate::verdict_on(crate::gate::finding(terms, Reply::Blocked { error })) == denial(
            "x402 facilitator SSRF blocked: "@ + error,
        ),
        crate::gate::verdict_on(
            crate::gate::finding(terms, Reply::Received { status, body: Err(error) }),
        ) == denial("facilitator response error: "@ + error),
        crate::json::parsed_json(text) is None ==> crate::gate::verdict_on(
            crate::gate::finding(terms, Reply::Received { status, body: Ok(text) }),
        ) == denial("facilitator response error: "@ + "error decoding response body"@),
{
}

/// A denial quotes the facilitator's reason: the string under `error`, or the one
/// under `message` where there is no `error`. A reason that is no string is not
/// quoted.
pub proof fn denial_quotes_the_facilitator(terms: ToolTerms, status: u16, body: Json)
    requires
        !(status == 200 && body.member("valid"@) == Some(Json::Bool(true))),
    ensures
        ({
            let verdict = crate::gate::verdict_on(
                crate::gate::finding_on_answer(terms, status, body),
            );
            let quoted = if body.member("error"@) is Some {
                body.member("error"@)
            } else {
                body.member("message"@)
            };
            match quoted {
                Some(Json::Str(reason)) => verdict == denial(reason),
                _ => verdict == denial("facilitator rejected payment"@),
            }
        }),
{
}

/// A call that goes ahead paid carries the receipt of its payment and nothing
/// else: network, amount and currency are those of the tool.
pub proof fn granted_call_carries_its_receipt(
    gate: Gate,
    surface: Seq<char>,
    tool: Seq<char>,
    meta: Option<Json>,
    reply: Reply,
)
    requires
        gate.enabled,
        surface == "tool"@,
        gate.tools.contains_key(tool),
        outcome(gate, surface, tool, meta, reply) is Allow,
    ensures
        ({
            let terms = gate.tools[tool];
            let metadata = outcome(gate, surface, tool, meta, reply)->metadata;
            &&& metadata matches Some(data)
            &&& has_exactly(data, set!["x402/receipt"@])
            &&& data.member("x402/receipt"@) matches Some(receipt)
            &&& has_exactly(
                receipt,
                set!["status"@, "protocol"@, "network"@, "txHash"@, "amount"@, "currency"@],
            )
            &&& receipt.member("network"@) == Some(Json::Str(terms.chain_id))
            &&& receipt.member("amount"@) == Some(Json::Str(terms.charge))
            &&& receipt.member("currency"@) == Some(Json::Str(terms.currency))
            &&& receipt.member("status"@) == Some(Json::Str("success"@))
            &&& receipt.member("protocol"@) == Some(Json::Str("x402"@))
            &&& receipt.member("txHash"@) matches Some(Json::Str(_))
        }),
{
    receipt_keys();
}

/// A receipt names the transaction: the string under `txHash` in the
/// facilitator's answer, or the one under `transaction_hash` where there is no
/// `txHash`. Where that is no string it says that the facilitator verified.
pub proof fn receipt_names_the_transaction(terms: ToolTerms, body: Json)
    requires
        body.member("valid"@) == Some(Json::Bool(true)),
    ensures
        ({
            let named = if body.member("txHash"@) is Some {
                body.member("txHash"@)
            } else {
                body.member("transaction_hash"@)
            };
            &&& crate::gate::verdict_on(crate::gate::finding_on_answer(terms, 200, body)) matches
                Verdict::Allow { metadata }
            &&& metadata matches Some(data)
            &&& data.member("x402/receipt"@) matches Some(receipt)
            &&& receipt.member("txHash"@) == Some(
                Json::Str(
                    match named {
                        Some(Json::Str(hash)) => hash,
                        _ => "facilitator-verified"@,
                    },
                ),
            )
        }),
{
    receipt_keys();
}

/// How long the keys of a receipt are, and where those of one length differ.
proof fn receipt_keys()
    ensures
        "status"@.len() == 6,
        "protocol"@.len() == 8,
        "network"@.len() == 7,
        "txHash"@.len() == 6,
        "amount"@.len() == 6,
        "currency"@.len() == 8,
        "status"@[0] == 's',
        "txHash"@[0] == 't',
        "amount"@[0] == 'a',
        "protocol"@[0] == 'p',
        "currency"@[0] == 'c',
{
    reveal_strlit("status");
    reveal_strlit("protocol");
    reveal_strlit("network");
    reveal_strlit("txHash");
    reveal_strlit("amount");
    reveal_strlit("currency");
}

/// How long the keys of challenges and requests are, and where those of one
/// length differ.
proof fn requirement_keys()
    ensures
        "payload"@.len() == 7,
        "signature"@.len() == 9,
        "requirements"@.len() == 12,
        "protocol"@.len() == 8,
        "httpStatus"@.len() == 10,
        "paymentRequirements"@.len() == 19,
        "scheme"@.len() == 6,
        "network"@.len() == 7,
        "maxAmountRequired"@.len() == 17,
        "resource"@.len() == 8,
        "description"@.len() == 11,
        "mimeType"@.len() == 8,
        "payTo"@.len() == 5,
        "maxTimeoutSeconds"@.len() == 17,
        "asset"@.len() == 5,
        "extra"@.len() == 5,
        "payload"@[0] == 'p',
        "network"@[0] == 'n',
        "protocol"@[0] == 'p',
        "resource"@[0] == 'r',
        "mimeType"@[0] == 'm',
        "maxAmountRequired"@[3] == 'A',
        "maxTimeoutSeconds"@[3] == 'T',
        "payTo"@[0] == 'p',
        "asset"@[0] == 'a',
        "extra"@[0] == 'e',
{
    reveal_strlit("payload");
    reveal_strlit("signature");
    reveal_strlit("requirements");
    reveal_strlit("protocol");
    reveal_strlit("httpStatus");
    reveal_strlit("paymentRequirements");
    reveal_strlit("scheme");
    reveal_strlit("network");
    reveal_strlit("maxAmountRequired");
    reveal_strlit("resource");
    reveal_strlit("description");
    reveal_strlit("mimeType");
    reveal_strlit("payTo");
    reveal_strlit("maxTimeoutSeconds");
    reveal_strlit("asset");
    reveal_strlit("extra");
}

/// How long the keys of the extra details are.
proof fn extra_keys()
    ensures
        "currency"@.len() == 8,
        "name"@.len() == 4,
{
    reveal_strlit("currency");
    reveal_strlit("name");
}

/// The one entry of a challenge's payment requirements.
pub open spec fn requirement_of(challenge: Json) -> Option<Json> {
    match challenge.member("paymentRequirements"@) {
        Some(Json::Arr(items)) => if items.len() == 1 {
            Some(items[0])
        } else {
            None
        },
        _ => None,
    }
}

/// A challenge states what to pay: the scheme, the chain as `network`, the
/// charge as `maxAmountRequired`, the tool as `resource`, the recipient as
/// `payTo`, the token contract as `asset`, five minutes to pay in, and the tool's
/// currency. It states nothing else.
pub proof fn challenge_states_the_terms(gate: Gate, tool: Seq<char>, terms: ToolTerms)
    ensures
        has_exactly(
            gate.challenge(tool, terms),
            set!["protocol"@, "httpStatus"@, "paymentRequirements"@],
        ),
        gate.challenge(tool, terms).member("protocol"@) == Some(Json::Str("x402"@)),
        gate.challenge(tool, terms).member("httpStatus"@) == Some(Json::Int(402)),
        ({
            &&& requirement_of(gate.challenge(tool, terms)) matches Some(requirement)
            &&& has_exactly(
                requirement,
                set![
                    "scheme"@,
                    "network"@,
                    "maxAmountRequired"@,
                    "resource"@,
                    "description"@,
                    "mimeType"@,
                    "payTo"@,
                    "maxTimeoutSeconds"@,
                    "asset"@,
                    "extra"@,
                ],
            )
            &&& requirement.member("scheme"@) == Some(Json::Str("exact"@))
            &&& requirement.member("network"@) == Some(Json::Str(terms.chain_id))
            &&& requirement.member("maxAmountRequired"@) == Some(Json::Str(terms.charge))
            &&& requirement.member("resource"@) == Some(Json::Str("tool://"@ + tool))
            &&& requirement.member("description"@) == Some(
                Json::Str("Payment for tool '"@ + tool + "'"@),
            )
            &&& requirement.member("mimeType"@) == Some(Json::Str("application/json"@))
            &&& requirement.member("payTo"@) == Some(
                Json::Str(
                    match terms.recipient {
                        Some(recipient) => recipient,
                        None => gate.default_recipient,
                    },
                ),
            )
            &&& requirement.member("asset"@) == Some(
                Json::Str(crate::asset::token_address(terms.currency, terms.chain_id)),
            )
            &&& requirement.member("maxTimeoutSeconds"@) == Some(Json::Int(300))
            &&& requirement.member("extra"@) matches Some(extra)
            &&& has_exactly(extra, set!["currency"@, "name"@])
            &&& extra.member("currency"@) == Some(Json::Str(terms.currency))
            &&& extra.member("name"@) == Some(Json::Str("x402 payment for "@ + tool))
        }),
{
    requirement_keys();
    extra_keys();
}

/// The facilitator is asked to verify exactly what the challenge required: the
/// scheme, network, amount, recipient and asset of the two agree.
pub proof fn facilitator_is_asked_for_what_the_challenge_required(
    gate: Gate,
    tool: Seq<char>,
    terms: ToolTerms,
    payload: Json,
    signature: Seq<char>,
    key: Seq<char>,
)
    requires
        key == "scheme"@ || key == "network"@ || key == "maxAmountRequired"@ || key == "payTo"@
            || key == "asset"@,
    ensures
        ({
            let request = gate.verify_request(terms, payload, signature);
            &&& requirement_of(gate.challenge(tool, terms)) matches Some(required)
            &&& request.member("requirements"@) matches Some(asked)
            &&& required.member(key) matches Some(value)
            &&& asked.member(key) == Some(value)
        }),
{
    requirement_keys();
}

/// A tool's own recipient is paid in place of the default one.
pub proof fn own_recipient_overrides_the_default(gate: Gate, terms: ToolTerms)
    ensures
        terms.recipient matches Some(recipient) ==> gate.pay_to(terms) == recipient,
        terms.recipient is None ==> gate.pay_to(terms) == gate.default_recipient,
{
}

/// No call is left waiting for an approval.
pub proof fn no_call_is_left_pending(
    gate: Gate,
    surface: Seq<char>,
    tool: Seq<char>,
    meta: Option<Json>,
    reply: Reply,
)
    ensures
        !(outcome(gate, surface, tool, meta, reply) is PendingApproval),
{
}

/// The payment codes stay clear of the range that MCP reserves.
pub proof fn payment_codes_are_not_reserved(
    gate: Gate,
    surface: Seq<char>,
    tool: Seq<char>,
    meta: Option<Json>,
    reply: Reply,
)
    ensures
        (match outcome(gate, surface, tool, meta, reply) {
            Verdict::Deny { code, .. } => !(-32099 <= code <= -32000),
            Verdict::Challenge { code, .. } => !(-32099 <= code <= -32000),
            _ => true,
        }),
{
}

/// Slashes at the end of the facilitator's URL do not matter: any number of them
/// leads to the same address.
pub proof fn trailing_slashes_do_not_matter(gate: Gate, slashed: Gate, slashes: nat)
    requires
        slashed.facilitator_url == gate.facilitator_url + Seq::new(slashes, |i: int| '/'),
    ensures
        slashed.verify_url() == gate.verify_url(),
    decreases slashes,
{
    if slashes == 0 {
        assert(slashed.facilitator_url =~= gate.facilitator_url);
    } else {
        let fewer = Gate { facilitator_url: slashed.facilitator_url.drop_last(), ..slashed };
        assert(fewer.facilitator_url =~= gate.facilitator_url + Seq::new(
            (slashes - 1) as nat,
            |i: int| '/',
        ));
        trailing_slashes_do_not_matter(gate, fewer, (slashes - 1) as nat);
    }
}

/// Every priced tool has a valid charge.
pub open spec fn charges_are_valid(tools: Map<Seq<char>, ToolTerms>) -> bool {
    forall|tool: Seq<char>| #[trigger]
        tools.contains_key(tool) ==> crate::charge::is_valid_charge(tools[tool].charge)
}

/// A gate that charges nothing and holds nothing.
pub open spec fn stands_open(gate: Gate) -> bool {
    &&& !gate.enabled
    &&& gate.tools == Map::<Seq<char>, ToolTerms>::empty()
    &&& gate.facilitator_url.len() == 0
    &&& gate.default_recipient.len() == 0
    &&& gate.http_timeout_ms is None
}

/// A configuration without tools disables the plugin. One with tools, a
/// facilitator, a recipient and valid charges only is taken as it stands: these
/// tools on these terms, this facilitator, this recipient and this timeout.
pub proof fn configuration_is_taken_as_it_stands(
    facilitator_url: Seq<char>,
    recipient_address: Seq<char>,
    http_timeout_ms: u64,
    tools: Map<Seq<char>, ToolTerms>,
    result: Result<Gate, ConfigError>,
)
    requires
        crate::gate::compiles_to(
            facilitator_url,
            recipient_address,
            http_timeout_ms,
            tools,
            result,
        ),
    ensures
        tools == Map::<Seq<char>, ToolTerms>::empty() ==> {
            &&& result matches Ok(gate)
            &&& stands_open(gate)
        },
        tools != Map::<Seq<char>, ToolTerms>::empty() && facilitator_url.len() > 0
            && recipient_address.len() > 0 && charges_are_valid(tools) ==> {
            &&& result matches Ok(gate)
            &&& gate.enabled
            &&& gate.tools == tools
            &&& gate.facilitator_url == facilitator_url
            &&& gate.default_recipient == recipient_address
            &&& gate.http_timeout_ms == Some(http_timeout_ms)
        },
{
}

/// A configuration with tools is refused for want of a facilitator first, then
/// for want of a recipient, then for a charge that is not valid. The error then
/// names a tool whose charge it is, and of all such tools the one whose name
/// comes first.
pub proof fn refused_configuration_is_told_why(
    facilitator_url: Seq<char>,
    recipient_address: Seq<char>,
    http_timeout_ms: u64,
    tools: Map<Seq<char>, ToolTerms>,
    result: Result<Gate, ConfigError>,
    other: Seq<char>,
)
    requires
        crate::gate::compiles_to(
            facilitator_url,
            recipient_address,
            http_timeout_ms,
            tools,
            result,
        ),
        tools != Map::<Seq<char>, ToolTerms>::empty(),
    ensures
        result matches Err(ConfigError::FacilitatorUrlRequired) <==> facilitator_url.len() == 0,
        result matches Err(ConfigError::RecipientAddressRequired) <==> facilitator_url.len() > 0
            && recipient_address.len() == 0,
        result matches Err(ConfigError::InvalidCharge { .. }) <==> facilitator_url.len() > 0
            && recipient_address.len() > 0 && !charges_are_valid(tools),
        result matches Err(ConfigError::InvalidCharge { charge, tool }) ==> {
            &&& tools.contains_key(tool@)
            &&& charge@ == tools[tool@].charge
            &&& !crate::charge::is_valid_charge(tools[tool@].charge)
            &&& tools.contains_key(other) && !crate::charge::is_valid_charge(tools[other].charge)
                ==> other == tool@ || crate::text::precedes(tool@, other)
        },
{
}

/// A configuration error is told in these words, which quote the charge and the
/// tool.
pub proof fn configuration_errors_quote_the_configuration(error: ConfigError)
    ensures
        (match error {
            ConfigError::FacilitatorUrlRequired => error.words()
                == "x402: facilitator_url is required when x402 tools are configured"@,
            ConfigError::RecipientAddressRequired => error.words()
                == "x402: recipient_address is required"@,
            ConfigError::InvalidCharge { charge, tool } => error.words()
                == "x402: invalid charge '"@ + charge@ + "' for tool '"@ + tool@ + "'"@,
        }),
{
}

/// A configuration makes only well-formed gates, and an enabled one exactly when
/// tools are priced.
pub proof fn configuration_makes_well_formed_gates(
    facilitator_url: Seq<char>,
    recipient_address: Seq<char>,
    http_timeout_ms: u64,
    tools: Map<Seq<char>, ToolTerms>,
    gate: Gate,
)
    requires
        crate::gate::compiles_to(
            facilitator_url,
            recipient_address,
            http_timeout_ms,
            tools,
            Ok::<Gate, ConfigError>(gate),
        ),
    ensures
        gate.well_formed(),
        gate.tools == tools,
        gate.enabled <==> tools != Map::<Seq<char>, ToolTerms>::empty(),
{
}

/// Once a configuration is accepted, an unpaid call of each tool that it prices
/// is challenged with the terms that it gives the tool.
pub proof fn priced_tools_are_challenged_on_their_terms(
    facilitator_url: Seq<char>,
    recipient_address: Seq<char>,
    http_timeout_ms: u64,
    tools: Map<Seq<char>, ToolTerms>,
    gate: Gate,
    tool: Seq<char>,
)
    requires
        crate::gate::compiles_to(
            facilitator_url,
            recipient_address,
            http_timeout_ms,
            tools,
            Ok::<Gate, ConfigError>(gate),
        ),
        tools.contains_key(tool),
    ensures
        gate.default_recipient == recipient_address,
        gate.step("tool"@, tool, None) == Step::Decided(
            Verdict::Challenge {
                http_status: 402,
                code: (-33060) as i32,
                message: "x402 payment required for tool '"@ + tool + "' ("@ + tools[tool].charge
                    + " "@ + tools[tool].currency + ")"@,
                challenge_data: gate.challenge(tool, tools[tool]),
            },
        ),
{
}

/// A configuration is accepted exactly when no tool is priced, or a facilitator
/// and a recipient are named and every charge is valid.
pub proof fn configuration_is_accepted_when_complete(
    facilitator_url: Seq<char>,
    recipient_address: Seq<char>,
    http_timeout_ms: u64,
    tools: Map<Seq<char>, ToolTerms>,
    result: Result<Gate, ConfigError>,
)
    requires
        crate::gate::compiles_to(
            facilitator_url,
            recipient_address,
            http_timeout_ms,
            tools,
            result,
        ),
    ensures
        result is Ok <==> {
            ||| tools == Map::<Seq<char>, ToolTerms>::empty()
            ||| facilitator_url.len() > 0 && recipient_address.len() > 0
                && charges_are_valid(tools)
        },
{
}

/// The tools that a well-formed gate lists are those whose calls it charges.
pub proof fn listed_tools_are_the_charged_ones(gate: Gate, names: Seq<String>, tool: Seq<char>)
    requires
        gate.well_formed(),
        crate::config::lists_names(names, gate.tools),
    ensures
        gate.charges("tool"@, tool) <==> exists|i: int|
            0 <= i < names.len() && (#[trigger] names[i])@ == tool,
        gate.step("tool"@, tool, None) != Step::Decided(Verdict::Allow { metadata: None })
            <==> exists|i: int| 0 <= i < names.len() && (#[trigger] names[i])@ == tool,
{
}

/// The list of tools holds the name of each priced tool once and no other, and of
/// two names the one that comes first stands first.
pub proof fn list_of_tools_is_ordered_and_complete(
    names: Seq<String>,
    tools: Map<Seq<char>, ToolTerms>,
    i: int,
    j: int,
    tool: Seq<char>,
)
    requires
        crate::config::lists_names(names, tools),
        0 <= i < names.len(),
        0 <= j < names.len(),
    ensures
        i < j <==> crate::text::precedes(names[i]@, names[j]@),
        names[i]@ == names[j]@ <==> i == j,
        tools.contains_key(tool) <==> exists|k: int|
            0 <= k < names.len() && (#[trigger] names[k])@ == tool,
{
    crate::text::precedes_is_irreflexive(names[i]@);
    if j < i {
        assert(crate::text::precedes(names[j]@, names[i]@));
        if crate::text::precedes(names[i]@, names[j]@) {
            crate::text::precedes_is_transitive(names[i]@, names[j]@, names[i]@);
        }
    } else if i < j {
        assert(crate::text::precedes(names[i]@, names[j]@));
    }
}

/// The characters that count as nothing around a configuration.
pub open spec fn is_blank(c: char) -> bool {
    c == ' ' || c == '\t' || c == '\n' || c == '\r'
}

/// Nothing but blanks.
pub open spec fn all_blank(text: Seq<char>) -> bool {
    forall|i: int| 0 <= i < text.len() ==> is_blank(#[trigger] text[i])
}

/// A configuration is absent exactly when it is empty or `null`, whatever blanks
/// stand around it.
pub proof fn only_nothing_and_null_are_absent(
    before: Seq<char>,
    core: Seq<char>,
    after: Seq<char>,
)
    requires
        all_blank(before),
        all_blank(after),
        core.len() > 0 ==> !is_blank(core[0]) && !is_blank(core.last()),
    ensures
        crate::config::is_absent_config(before + core + after) <==> core.len() == 0 || core
            == "null"@,
{
    blanks_are_cut(before, core, after);
}

proof fn blanks_are_cut(before: Seq<char>, core: Seq<char>, after: Seq<char>)
    requires
        all_blank(before),
        all_blank(after),
        core.len() > 0 ==> !is_blank(core[0]) && !is_blank(core.last()),
    ensures
        crate::text::stripped(before + core + after) == core,
    decreases before.len() + after.len(),
{
    let text = before + core + after;
    if before.len() > 0 {
        assert(text[0] == before[0]);
        assert(text.drop_first() =~= before.drop_first() + core + after);
        blanks_are_cut(before.drop_first(), core, after);
    } else if after.len() > 0 {
        if core.len() > 0 {
            assert(text[0] == core[0]);
            assert(text.last() == after.last());
            assert(is_blank(after[after.len() - 1]));
            assert(text.drop_last() =~= before + core + after.drop_last());
            blanks_are_cut(before, core, after.drop_last());
        } else {
            assert(text[0] == after[0]);
            assert(text.drop_first() =~= before + core + after.drop_first());
            blanks_are_cut(before, core, after.drop_first());
        }
    } else {
        assert(text =~= core);
    }
}

/// Every text is a core that neither starts nor ends with a blank, with blanks
/// around it.
pub proof fn texts_are_a_core_and_blanks(text: Seq<char>) -> (parts: (
    Seq<char>,
    Seq<char>,
    Seq<char>,
))
    ensures
        text == parts.0 + parts.1 + parts.2,
        all_blank(parts.0),
        all_blank(parts.2),
        parts.1.len() > 0 ==> !is_blank(parts.1[0]) && !is_blank(parts.1.last()),
    decreases text.len(),
{
    if text.len() > 0 && is_blank(text[0]) {
        let (before, core, after) = texts_are_a_core_and_blanks(text.drop_first());
        assert(text =~= seq![text[0]] + text.drop_first());
        assert(text =~= (seq![text[0]] + before) + core + after);
        (seq![text[0]] + before, core, after)
    } else if text.len() > 0 && is_blank(text.last()) {
        let (before, core, after) = texts_are_a_core_and_blanks(text.drop_last());
        assert(text =~= text.drop_last().push(text.last()));
        assert(text =~= before + core + after.push(text.last()));
        (before, core, after.push(text.last()))
    } else {
        assert(text =~= Seq::<char>::empty() + text + Seq::<char>::empty());
        (Seq::empty(), text, Seq::empty())
    }
}

/// What is loaded, and what is reported of it. An absent configuration and one
/// without protocol settings load a disabled plugin, and so does one that cannot
/// be used; one that can is taken as it stands. Only a malformed one loads
/// nothing.
pub proof fn configuration_decides_what_is_loaded(
    text: Seq<char>,
    parsed: Option<WireConfig>,
    loaded: Result<(X402PaymentPlugin, LoadNote), ConfigRefused>,
)
    requires
        crate::plugin::loads(text, parsed, loaded),
    ensures
        crate::config::is_absent_config(text) ==> {
            &&& loaded matches Ok((plugin, LoadNote::ConfigMissing))
            &&& stands_open(plugin@)
        },
        !crate::config::is_absent_config(text) ==> match parsed {
            None => loaded is Err,
            Some(wire) => match wire.config {
                None => {
                    &&& loaded matches Ok((plugin, LoadNote::ConfigMissing))
                    &&& stands_open(plugin@)
                },
                Some(config) => if wire.tools@ == Map::<Seq<char>, ToolTerms>::empty() {
                    &&& loaded matches Ok((plugin, LoadNote::Loaded))
                    &&& stands_open(plugin@)
                } else if config.facilitator_url@.len() == 0 {
                    &&& loaded matches Ok((plugin, LoadNote::ConfigRejected(error)))
                    &&& stands_open(plugin@)
                    &&& error is FacilitatorUrlRequired
                } else if config.recipient_address@.len() == 0 {
                    &&& loaded matches Ok((plugin, LoadNote::ConfigRejected(error)))
                    &&& stands_open(plugin@)
                    &&& error is RecipientAddressRequired
                } else if charges_are_valid(wire.tools@) {
                    &&& loaded matches Ok((plugin, LoadNote::Loaded))
                    &&& plugin@.enabled
                    &&& plugin@.tools == wire.tools@
                    &&& plugin@.facilitator_url == config.facilitator_url@
                    &&& plugin@.default_recipient == config.recipient_address@
                    &&& plugin@.http_timeout_ms == Some(config.http_timeout_ms)
                } else {
                    &&& loaded matches Ok((plugin, LoadNote::ConfigRejected(error)))
                    &&& stands_open(plugin@)
                    &&& error matches ConfigError::InvalidCharge { charge, tool }
                    &&& wire.tools@.contains_key(tool@)
                    &&& charge@ == wire.tools@[tool@].charge
                    &&& !crate::charge::is_valid_charge(charge@)
                },
            },
        },
{
}

/// A configuration that is present and malformed loads nothing; every other one
/// loads a plugin.
pub proof fn malformed_configuration_fails_closed(
    text: Seq<char>,
    parsed: Option<WireConfig>,
    loaded: Result<(X402PaymentPlugin, LoadNote), ConfigRefused>,
)
    requires
        crate::plugin::loads(text, parsed, loaded),
    ensures
        loaded is Err <==> !crate::config::is_absent_config(text) && parsed is None,
{
}

/// A plugin that charges is loaded only for a configuration that is present,
/// names a facilitator and a recipient, and prices tools with valid charges. For
/// every other one the plugin is disabled, and its gate lets every call go ahead.
pub proof fn plugin_is_enabled_only_by_a_usable_configuration(
    text: Seq<char>,
    parsed: Option<WireConfig>,
    loaded: Result<(X402PaymentPlugin, LoadNote), ConfigRefused>,
)
    requires
        crate::plugin::loads(text, parsed, loaded),
        loaded is Ok,
    ensures
        ({
            let gate = loaded->Ok_0.0@;
            &&& gate.well_formed()
            &&& gate.enabled <==> {
                &&& !crate::config::is_absent_config(text)
                &&& parsed matches Some(wire)
                &&& wire.config matches Some(config)
                &&& wire.tools@ != Map::<Seq<char>, ToolTerms>::empty()
                &&& config.facilitator_url@.len() > 0
                &&& config.recipient_address@.len() > 0
                &&& charges_are_valid(wire.tools@)
            }
            &&& !gate.enabled ==> gate == crate::gate::disabled_gate()
        }),
{
}

/// A valid charge is a decimal number above zero.
pub proof fn valid_charges_are_above_zero(charge: Seq<char>)
    requires
        crate::charge::is_valid_charge(charge),
    ensures
        crate::charge::amount_of(charge) matches Some(amount) && amount.digits > 0,
{
    let amount = crate::charge::amount_of(charge)->0;
    if amount.digits <= 0 {
        let digits = amount.digits;
        let twos = crate::decimal::two_to(1075);
        let e = if amount.scale >= 0 {
            amount.scale as nat
        } else {
            (-amount.scale) as nat
        };
        let unit = crate::decimal::ten_to(e);
        crate::decimal::two_to_next(1075);
        crate::decimal::ten_to_next(e);
        assert(digits * unit * twos <= 0 && digits * twos <= 0) by (nonlinear_arith)
            requires
                digits <= 0,
                unit > 0,
                twos > 0,
        ;
    }
}

/// Nothing that starts with a minus sign is a valid charge.
pub proof fn negative_charges_are_invalid(charge: Seq<char>)
    requires
        charge.len() > 0,
        charge[0] == '-',
    ensures
        !crate::charge::is_valid_charge(charge),
{
    assert(crate::charge::leading_digits(charge) == 0);
    let rest = charge.skip(0);
    assert(rest[0] == '-');
    assert(charge.take(0) + rest.subrange(0, 0) =~= Seq::<char>::empty());
}

/// The asset is empty exactly for the pairs of currency and chain that are not
/// known.
pub proof fn asset_is_empty_for_unknown_pairs(currency: Seq<char>, chain_id: Seq<char>)
    ensures
        crate::asset::token_address(currency, chain_id).len() > 0 <==> {
            ||| currency == "USDC"@ && (chain_id == "eip155:8453"@ || chain_id == "eip155:42161"@
                || chain_id == "eip155:1"@)
            ||| currency == "ETH"@
            ||| currency == "WETH"@
        },
{
    reveal_strlit("0x833589fCD6eDb6E08f4c7C32D4f71b54bdA02913");
    reveal_strlit("0xaf88d065e77c8cC2239327C5EDb3A432268e5831");
    reveal_strlit("0xA0b86991c6218b36c1d19D4a2e9Eb0cE3606eB48");
    reveal_strlit("0x0000000000000000000000000000000000000000");
}

/// ETH and WETH have the zero address on every chain, and nothing else has it.
pub proof fn eth_and_weth_have_the_zero_address(currency: Seq<char>, chain_id: Seq<char>)
    ensures
        crate::asset::token_address(currency, chain_id)
            == "0x0000000000000000000000000000000000000000"@ <==> currency == "ETH"@ || currency
            == "WETH"@,
{
    asset_texts_differ();
}

/// USDC has its own address on each of three chains: on Base, on Arbitrum and on
/// Ethereum mainnet. Nothing else has one of these addresses.
pub proof fn usdc_has_one_address_per_chain(currency: Seq<char>, chain_id: Seq<char>)
    ensures
        crate::asset::token_address(currency, chain_id)
            == "0x833589fCD6eDb6E08f4c7C32D4f71b54bdA02913"@ <==> currency == "USDC"@ && chain_id
            == "eip155:8453"@,
        crate::asset::token_address(currency, chain_id)
            == "0xaf88d065e77c8cC2239327C5EDb3A432268e5831"@ <==> currency == "USDC"@ && chain_id
            == "eip155:42161"@,
        crate::asset::token_address(currency, chain_id)
            == "0xA0b86991c6218b36c1d19D4a2e9Eb0cE3606eB48"@ <==> currency == "USDC"@ && chain_id
            == "eip155:1"@,
{
    asset_texts_differ();
}

/// Where the currencies, chains and addresses differ.
proof fn asset_texts_differ()
    ensures
        "USDC"@ != "ETH"@,
        "USDC"@ != "WETH"@,
        "eip155:8453"@.len() == 11,
        "eip155:42161"@.len() == 12,
        "eip155:1"@.len() == 8,
        "0x833589fCD6eDb6E08f4c7C32D4f71b54bdA02913"@.len() == 42,
        "0x833589fCD6eDb6E08f4c7C32D4f71b54bdA02913"@[2] == '8',
        "0xaf88d065e77c8cC2239327C5EDb3A432268e5831"@.len() == 42,
        "0xaf88d065e77c8cC2239327C5EDb3A432268e5831"@[2] == 'a',
        "0xA0b86991c6218b36c1d19D4a2e9Eb0cE3606eB48"@.len() == 42,
        "0xA0b86991c6218b36c1d19D4a2e9Eb0cE3606eB48"@[2] == 'A',
        "0x0000000000000000000000000000000000000000"@.len() == 42,
        "0x0000000000000000000000000000000000000000"@[2] == '0',
{
    reveal_strlit("USDC");
    reveal_strlit("ETH");
    reveal_strlit("WETH");
    reveal_strlit("eip155:8453");
    reveal_strlit("eip155:42161");
    reveal_strlit("eip155:1");
    reveal_strlit("0x833589fCD6eDb6E08f4c7C32D4f71b54bdA02913");
    reveal_strlit("0xaf88d065e77c8cC2239327C5EDb3A432268e5831");
    reveal_strlit("0xA0b86991c6218b36c1d19D4a2e9Eb0cE3606eB48");
    reveal_strlit("0x0000000000000000000000000000000000000000");
    assert("USDC"@[0] == 'U' && "WETH"@[0] == 'W');
}

/// The plugin presents itself under its own identifier, version and name, as a
/// gate of tool calls that asks for nothing and provides nothing further.
pub proof fn manifest_presents_the_plugin(manifest: PluginManifest)
    requires
        crate::plugin::is_plugin_manifest(manifest),
    ensures
        manifest.id@ == "dev.mcpg.payment.x402"@,
        manifest.version@ == "0.1.0"@,
        manifest.name@ == "x402 Crypto Micropayments"@,
        manifest.plugin_class == PluginClass::ToolGate,
        manifest.protocol_version@ == "1.0"@,
        manifest.module_path_prefix@ == "mcpg_plugin_payment_x402"@,
        manifest.license is None,
        manifest.backend_profile is None,
        manifest.required_capabilities@.len() == 0,
        manifest.tags@.len() == 0,
        manifest.provides@.len() == 0,
        manifest.provides_schemes@.len() == 0,
{
}

/// The terms of a tool are the texts of its configuration.
pub proof fn terms_are_the_texts_of_the_configuration(config: X402ToolConfig)
    ensures
        config@.charge == config.charge@,
        config@.currency == config.currency@,
        config@.chain_id == config.chain_id@,
        config.recipient matches Some(recipient) ==> config@.recipient == Some(recipient@),
        config.recipient is None ==> config@.recipient is None,
{
}

/// A verdict is of the kind of the decision that it stands for, and holds what
/// the decision holds.
pub proof fn verdicts_hold_what_decisions_hold(decision: GateDecision)
    ensures
        (match decision {
            GateDecision::Allow { metadata } => decision@ == (Verdict::Allow {
                metadata: match metadata {
                    Some(value) => Some(crate::json::json(value)),
                    None => None,
                },
            }),
            GateDecision::Deny { http_status, code, message, error_data } => decision@ == (
            Verdict::Deny {
                http_status,
                code,
                message: message@,
                error_data: match error_data {
                    Some(value) => Some(crate::json::json(value)),
                    None => None,
                },
            }),
            GateDecision::Challenge { http_status, code, message, challenge_data } => decision@
                == (Verdict::Challenge {
                http_status,
                code,
                message: message@,
                challenge_data: crate::json::json(challenge_data),
            }),
            GateDecision::PendingApproval => decision@ == Verdict::PendingApproval,
        }),
{
}

/// A step is of the kind of the pre-step that it stands for: the decision that was
/// made, or the very call that is to be made.
pub proof fn steps_hold_what_pre_steps_hold(step: PreStep, call: VerifyCall)
    ensures
        (match step {
            PreStep::Decided(decision) => step@ == Step::Decided(decision@),
            PreStep::Verify(call) => step@ == Step::Verify(call@),
        }),
        call@.url == call.url@,
        call@.request == crate::json::json(call.request),
        call@.terms == call.tool_config@,
{
}

/// Replies and findings are read as they stand.
pub proof fn replies_and_findings_are_read_as_they_stand(
    reply: FacilitatorReply,
    result: VerifyResult,
)
    ensures
        (match reply {
            FacilitatorReply::Unreachable { error } => reply@ == (Reply::Unreachable {
                error: error@,
            }),
            FacilitatorReply::Blocked { error } => reply@ == (Reply::Blocked { error: error@ }),
            FacilitatorReply::Received { status, body: Ok(text) } => reply@ == (Reply::Received {
                status,
                body: Ok(text@),
            }),
            FacilitatorReply::Received { status, body: Err(error) } => reply@ == (
            Reply::Received { status, body: Err(error@) }),
        }),
        (match result {
            VerifyResult::Verified(receipt) => result@ == crate::gate::Finding::Verified(
                crate::json::json(receipt),
            ),
            VerifyResult::Failed(reason) => result@ == crate::gate::Finding::Failed(reason@),
        }),
{
}

} // verus!
