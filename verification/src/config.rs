//! Operator configuration: the protocol settings and the price of each tool.

use std::collections::BTreeMap;

use vstd::prelude::*;

use crate::charge::charge_is_valid;
use crate::text::{comes_before, same_text, strip};

verus! {

/// Top-level x402 protocol configuration.
#[derive(Debug, Clone)]
pub struct X402ProtocolConfig {
    /// RPC endpoint URLs per chain identifier (e.g. "eip155:8453" for Base).
    /// Chain access happens at the facilitator, so none of them is dialled.
    pub rpc_urls: BTreeMap<String, String>,
    /// Facilitator service URL for payment verification.
    /// Example: "https://x402.org/facilitator"
    pub facilitator_url: String,
    /// Default recipient address for payments.
    pub recipient_address: String,
    /// HTTP timeout for facilitator calls, in milliseconds.
    pub http_timeout_ms: u64,
}

/// The HTTP timeout where none is configured, in milliseconds.
pub fn default_http_timeout() -> (timeout: u64)
    ensures
        timeout == 10,
{
    10
}

/// Per-tool x402 payment configuration.
#[derive(Debug)]
pub struct X402ToolConfig {
    /// Charge amount per call (e.g., "0.001").
    pub charge: String,
    /// Token/currency (e.g., "USDC", "ETH").
    pub currency: String,
    /// Chain identifier (e.g., "eip155:8453" for Base mainnet).
    pub chain_id: String,
    /// Overrides the global recipient for this tool.
    pub recipient: Option<String>,
}

/// What a tool costs: the characters of each field of an [`X402ToolConfig`].
pub struct ToolTerms {
    pub charge: Seq<char>,
    pub currency: Seq<char>,
    pub chain_id: Seq<char>,
    pub recipient: Option<Seq<char>>,
}

impl View for X402ToolConfig {
    type V = ToolTerms;

    open spec fn view(&self) -> ToolTerms {
        ToolTerms {
            charge: self.charge@,
            currency: self.currency@,
            chain_id: self.chain_id@,
            recipient: match self.recipient {
                Some(recipient) => Some(recipient@),
                None => None,
            },
        }
    }
}

impl Clone for X402ToolConfig {
    fn clone(&self) -> (copy: Self)
        ensures
            copy@ == self@,
    {
        X402ToolConfig {
            charge: self.charge.clone(),
            currency: self.currency.clone(),
            chain_id: self.chain_id.clone(),
            recipient: match &self.recipient {
                Some(recipient) => Some(recipient.clone()),
                None => None,
            },
        }
    }
}

/// The currency of a tool that names none.
pub fn default_currency() -> (currency: String)
    ensures
        currency@ == "USDC"@,
{
    "USDC".to_owned()
}

/// The chain of a tool that names none: Base mainnet.
pub fn default_chain() -> (chain: String)
    ensures
        chain@ == "eip155:8453"@,
{
    "eip155:8453".to_owned()
}

/// The terms that a list of entries gives each tool: of two entries with one
/// name the later counts.
pub open spec fn terms_of(entries: Seq<(String, X402ToolConfig)>) -> Map<Seq<char>, ToolTerms>
    decreases entries.len(),
{
    if entries.len() == 0 {
        Map::empty()
    } else {
        terms_of(entries.drop_last()).insert(entries.last().0@, entries.last().1@)
    }
}

/// Entries stand in the order of their names, each name once.
pub open spec fn in_name_order(entries: Seq<(String, X402ToolConfig)>) -> bool {
    forall|i: int, j: int|
        0 <= i < j < entries.len() ==> crate::text::precedes(
            (#[trigger] entries[i]).0@,
            (#[trigger] entries[j]).0@,
        )
}

/// `names` are the names of all priced tools, in their order, each once.
pub open spec fn lists_names(names: Seq<String>, tools: Map<Seq<char>, ToolTerms>) -> bool {
    &&& forall|i: int, j: int|
        0 <= i < j < names.len() ==> crate::text::precedes(
            (#[trigger] names[i])@,
            (#[trigger] names[j])@,
        )
    &&& forall|i: int| 0 <= i < names.len() ==> tools.contains_key((#[trigger] names[i])@)
    &&& forall|name: Seq<char>| #[trigger]
        tools.contains_key(name) ==> exists|i: int|
            0 <= i < names.len() && (#[trigger] names[i])@ == name
}

/// The priced tools by name, kept in the order of their names.
#[derive(Debug)]
pub struct ToolConfigs {
    entries: Vec<(String, X402ToolConfig)>,
}

impl View for ToolConfigs {
    type V = Map<Seq<char>, ToolTerms>;

    closed spec fn view(&self) -> Map<Seq<char>, ToolTerms> {
        terms_of(self.entries@)
    }
}

/// What the terms hold: each entry under its name, and nothing else.
proof fn terms_are_entries(entries: Seq<(String, X402ToolConfig)>)
    requires
        in_name_order(entries),
    ensures
        forall|i: int|
            0 <= i < entries.len() ==> terms_of(entries).contains_key(
                (#[trigger] entries[i]).0@,
            ) && terms_of(entries)[entries[i].0@] == entries[i].1@,
        forall|name: Seq<char>| #[trigger]
            terms_of(entries).contains_key(name) ==> exists|i: int|
                0 <= i < entries.len() && (#[trigger] entries[i]).0@ == name,
    decreases entries.len(),
{
    if entries.len() > 0 {
        let shorter = entries.drop_last();
        let last = entries.len() - 1;
        terms_are_entries(shorter);
        assert forall|i: int| 0 <= i < entries.len() implies terms_of(entries).contains_key(
            (#[trigger] entries[i]).0@,
        ) && terms_of(entries)[entries[i].0@] == entries[i].1@ by {
            if i < last {
                assert(shorter[i] == entries[i]);
                crate::text::precedes_is_irreflexive(entries[i].0@);
                assert(crate::text::precedes(entries[i].0@, entries[last].0@));
            }
        }
        assert forall|name: Seq<char>| #[trigger]
            terms_of(entries).contains_key(name) implies exists|i: int|
            0 <= i < entries.len() && (#[trigger] entries[i]).0@ == name by {
            if name != entries[last].0@ {
                assert(terms_of(shorter).contains_key(name));
                let i = choose|i: int| 0 <= i < shorter.len() && (#[trigger] shorter[i]).0@ == name;
                assert(entries[i].0@ == name);
            } else {
                assert(entries[last].0@ == name);
            }
        }
    }
}

impl ToolConfigs {
    #[verifier::type_invariant]
    closed spec fn ordered(self) -> bool {
        in_name_order(self.entries@)
    }

    /// No priced tool.
    pub fn new() -> (tools: Self)
        ensures
            tools@ == Map::<Seq<char>, ToolTerms>::empty(),
    {
        ToolConfigs { entries: Vec::new() }
    }

    /// Whether no tool is priced.
    pub fn is_empty(&self) -> (empty: bool)
        ensures
            empty == (self@ == Map::<Seq<char>, ToolTerms>::empty()),
    {
        proof {
            use_type_invariant(self);
            terms_are_entries(self.entries@);
            if self.entries@.len() > 0 {
                assert(self@.contains_key(self.entries@[0].0@));
            }
        }
        self.entries.len() == 0
    }

    /// The terms of the tool `name`.
    pub fn get(&self, name: &str) -> (found: Option<&X402ToolConfig>)
        ensures
            (match found {
                Some(config) => self@.contains_key(name@) && config@ == self@[name@],
                None => !self@.contains_key(name@),
            }),
    {
        proof {
            use_type_invariant(self);
            terms_are_entries(self.entries@);
        }
        let mut i: usize = 0;
        while i < self.entries.len()
            invariant
                i <= self.entries@.len(),
                forall|j: int| 0 <= j < i ==> (#[trigger] self.entries@[j]).0@ != name@,
                forall|j: int|
                    0 <= j < self.entries@.len() ==> self@.contains_key(
                        (#[trigger] self.entries@[j]).0@,
                    ) && self@[self.entries@[j].0@] == self.entries@[j].1@,
            decreases self.entries@.len() - i,
        {
            if same_text(self.entries[i].0.as_str(), name) {
                assert(self.entries@[i as int].0@ == name@);
                return Some(&self.entries[i].1);
            }
            i = i + 1;
        }
        None
    }

    /// Prices the tool `name`, in place of earlier terms.
    pub fn insert(&mut self, name: String, config: X402ToolConfig)
        ensures
            final(self)@ == old(self)@.insert(name@, config@),
    {
        proof {
            use_type_invariant(&*self);
        }
        let mut entries: Vec<(String, X402ToolConfig)> = Vec::new();
        std::mem::swap(&mut entries, &mut self.entries);
        self.entries = placed(entries, name, config);
    }

    /// The names of the priced tools, in their order.
    pub fn names(&self) -> (names: Vec<String>)
        ensures
            lists_names(names@, self@),
    {
        proof {
            use_type_invariant(self);
            terms_are_entries(self.entries@);
        }
        let ghost entries = self.entries@;
        let mut names: Vec<String> = Vec::new();
        let mut i: usize = 0;
        while i < self.entries.len()
            invariant
                entries == self.entries@,
                i <= entries.len(),
                names@.len() == i,
                forall|j: int| 0 <= j < i ==> (#[trigger] names@[j])@ == entries[j].0@,
            decreases entries.len() - i,
        {
            names.push(self.entries[i].0.clone());
            i = i + 1;
        }
        proof {
            assert forall|j: int, k: int| 0 <= j < k < names@.len() implies crate::text::precedes(
                (#[trigger] names@[j])@,
                (#[trigger] names@[k])@,
            ) by {
                assert(crate::text::precedes(entries[j].0@, entries[k].0@));
            }
            assert forall|name: Seq<char>| #[trigger] self@.contains_key(name) implies exists|j: int|
                0 <= j < names@.len() && (#[trigger] names@[j])@ == name by {
                let j = choose|j: int| 0 <= j < entries.len() && (#[trigger] entries[j]).0@ == name;
                assert(names@[j]@ == name);
            }
        }
        names
    }

    /// The first tool, in the order of names, whose charge is not valid.
    pub fn first_invalid_charge(&self) -> (invalid: Option<ConfigError>)
        ensures
            (match invalid {
                Some(error) => first_invalid(self@, error),
                None => all_charges_valid(self@),
            }),
    {
        proof {
            use_type_invariant(self);
            terms_are_entries(self.entries@);
        }
        let ghost entries = self.entries@;
        let mut i: usize = 0;
        while i < self.entries.len()
            invariant
                entries == self.entries@,
                in_name_order(entries),
                self@ == terms_of(entries),
                i <= entries.len(),
                forall|j: int|
                    0 <= j < i ==> crate::charge::is_valid_charge(
                        (#[trigger] entries[j]).1.charge@,
                    ),
            decreases entries.len() - i,
        {
            if !charge_is_valid(self.entries[i].1.charge.as_str()) {
                proof {
                    terms_are_entries(entries);
                    let tool = entries[i as int].0@;
                    assert forall|other: Seq<char>| #[trigger]
                        self@.contains_key(other) && !crate::charge::is_valid_charge(
                            self@[other].charge,
                        ) && other != tool implies crate::text::precedes(tool, other) by {
                        let j = choose|j: int|
                            0 <= j < entries.len() && (#[trigger] entries[j]).0@ == other;
                        assert(j >= i);
                    }
                }
                return Some(
                    ConfigError::InvalidCharge {
                        charge: self.entries[i].1.charge.clone(),
                        tool: self.entries[i].0.clone(),
                    },
                );
            }
            i = i + 1;
        }
        proof {
            terms_are_entries(entries);
            assert forall|name: Seq<char>| #[trigger]
                self@.contains_key(name) implies crate::charge::is_valid_charge(
                self@[name].charge,
            ) by {
                let j = choose|j: int| 0 <= j < entries.len() && (#[trigger] entries[j]).0@ == name;
                assert(crate::charge::is_valid_charge(entries[j].1.charge@));
            }
        }
        None
    }
}

/// Puts an entry in its place among ordered entries.
fn placed(entries: Vec<(String, X402ToolConfig)>, name: String, config: X402ToolConfig) -> (result:
    Vec<(String, X402ToolConfig)>)
    requires
        in_name_order(entries@),
    ensures
        in_name_order(result@),
        terms_of(result@) == terms_of(entries@).insert(name@, config@),
{
    let ghost before = entries@;
    let mut result: Vec<(String, X402ToolConfig)> = entries;
    let mut i: usize = 0;
    while i < result.len() && comes_before(result[i].0.as_str(), name.as_str())
        invariant
            result@ == before,
            i <= before.len(),
            forall|j: int| 0 <= j < i ==> crate::text::precedes((#[trigger] before[j]).0@, name@),
        decreases before.len() - i,
    {
        i = i + 1;
    }
    let replaced: bool = i < result.len() && same_text(result[i].0.as_str(), name.as_str());
    if replaced {
        result.remove(i);
    }
    result.insert(i, (name, config));
    proof {
        let after = result@;
        let skipped: int = if replaced {
            1
        } else {
            0
        };
        assert forall|k: int| i + skipped <= k < before.len() implies crate::text::precedes(
            name@,
            (#[trigger] before[k]).0@,
        ) by {
            if !replaced {
                crate::text::precedes_is_total(name@, before[i as int].0@);
                if k > i {
                    crate::text::precedes_is_transitive(
                        name@,
                        before[i as int].0@,
                        before[k].0@,
                    );
                }
            }
        }
        assert(after[i as int] == (name, config));
        assert(forall|j: int| 0 <= j < i ==> #[trigger] after[j] == before[j]);
        assert(forall|k: int| i < k < after.len() ==> #[trigger] after[k] == before[k - 1 + skipped]);
        assert(in_name_order(after));
        terms_are_entries(before);
        terms_are_entries(after);
        let old_terms = terms_of(before);
        let new_terms = old_terms.insert(name@, config@);
        assert forall|n: Seq<char>| #[trigger] terms_of(after).contains_key(n) == new_terms.contains_key(n)
            && (new_terms.contains_key(n) ==> terms_of(after)[n] == new_terms[n]) by {
            if n == name@ {
                assert(after[i as int].0@ == n);
            } else {
                if terms_of(after).contains_key(n) {
                    let k = choose|k: int| 0 <= k < after.len() && (#[trigger] after[k]).0@ == n;
                    let source = if k < i {
                        k
                    } else {
                        k - 1 + skipped
                    };
                    assert(before[source] == after[k]);
                }
                if old_terms.contains_key(n) {
                    let k = choose|k: int| 0 <= k < before.len() && (#[trigger] before[k]).0@ == n;
                    let target = if k < i {
                        k
                    } else {
                        k + 1 - skipped
                    };
                    assert(after[target] == before[k]);
                }
            }
        }
        assert(terms_of(after) =~= new_terms);
    }
    result
}

/// Every priced tool has a valid charge.
pub open spec fn all_charges_valid(tools: Map<Seq<char>, ToolTerms>) -> bool {
    forall|name: Seq<char>| #[trigger]
        tools.contains_key(name) ==> crate::charge::is_valid_charge(tools[name].charge)
}

/// `error` names the first tool, in the order of names, whose charge is not
/// valid, and that charge.
pub open spec fn first_invalid(tools: Map<Seq<char>, ToolTerms>, error: ConfigError) -> bool {
    match error {
        ConfigError::InvalidCharge { charge, tool } => {
            &&& tools.contains_key(tool@)
            &&& charge@ == tools[tool@].charge
            &&& !crate::charge::is_valid_charge(charge@)
            &&& forall|other: Seq<char>| #[trigger]
                tools.contains_key(other) && !crate::charge::is_valid_charge(tools[other].charge)
                    && other != tool@ ==> crate::text::precedes(tool@, other)
        },
        _ => false,
    }
}

/// Why a configuration cannot be used.
#[derive(Debug)]
pub enum ConfigError {
    /// Tools are priced and no facilitator is named.
    FacilitatorUrlRequired,
    /// Tools are priced and no recipient is named.
    RecipientAddressRequired,
    /// A tool's charge does not parse as a finite number greater than zero.
    InvalidCharge { charge: String, tool: String },
}

impl ConfigError {
    /// The words of [`message`](Self::message).
    pub open spec fn words(self) -> Seq<char> {
        match self {
            ConfigError::FacilitatorUrlRequired =>
                "x402: facilitator_url is required when x402 tools are configured"@,
            ConfigError::RecipientAddressRequired => "x402: recipient_address is required"@,
            ConfigError::InvalidCharge { charge, tool } => "x402: invalid charge '"@ + charge@
                + "' for tool '"@ + tool@ + "'"@,
        }
    }

    /// The error in words.
    pub fn message(&self) -> (message: String)
        ensures
            message@ == self.words(),
    {
        match self {
            ConfigError::FacilitatorUrlRequired => {
                "x402: facilitator_url is required when x402 tools are configured".to_owned()
            },
            ConfigError::RecipientAddressRequired => {
                "x402: recipient_address is required".to_owned()
            },
            ConfigError::InvalidCharge { charge, tool } => {
                let mut message: String = "x402: invalid charge '".to_owned();
                message.append(charge.as_str());
                message.append("' for tool '");
                message.append(tool.as_str());
                message.append("'");
                message
            },
        }
    }
}

/// The operator's configuration in one piece: protocol settings and priced
/// tools.
#[derive(Debug)]
pub struct WireConfig {
    /// The protocol settings, where there are any.
    pub config: Option<X402ProtocolConfig>,
    /// The priced tools by name.
    pub tools: ToolConfigs,
}

/// An operator who configures nothing hands over no text, or a JSON null.
pub open spec fn is_absent_config(text: Seq<char>) -> bool {
    crate::text::stripped(text).len() == 0 || crate::text::stripped(text) == "null"@
}

/// Whether the operator configured nothing.
pub fn config_is_absent(config_json: &str) -> (absent: bool)
    ensures
        absent == is_absent_config(config_json@),
{
    let core: &str = strip(config_json);
    core.is_empty() || same_text(core, "null")
}

} // verus!
