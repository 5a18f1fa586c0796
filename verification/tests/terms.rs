use mcpg_plugin_payment_x402::asset::token_address_for_currency;
use mcpg_plugin_payment_x402::charge::charge_is_valid;
use mcpg_plugin_payment_x402::config::{default_chain, default_currency, default_http_timeout};
use mcpg_plugin_payment_x402::config::{config_is_absent, ToolConfigs, X402ToolConfig};

fn priced(charge: &str) -> X402ToolConfig {
    X402ToolConfig {
        charge: charge.to_owned(),
        currency: default_currency(),
        chain_id: default_chain(),
        recipient: None,
    }
}

/// Whether the standard library reads a finite number greater than zero.
fn is_positive_and_finite(charge: &str) -> bool {
    matches!(charge.parse::<f64>(), Ok(v) if v > 0.0 && v.is_finite())
}

fn check_charge(charge: &str) {
    assert_eq!(charge_is_valid(charge), is_positive_and_finite(charge), "charge `{charge}`");
}

/// `factor^exponent` in decimal digits.
fn power(factor: u32, exponent: u32) -> String {
    let mut digits: Vec<u32> = vec![1];
    for _ in 0..exponent {
        let mut carry = 0;
        for digit in digits.iter_mut() {
            let sum = *digit * factor + carry;
            *digit = sum % 10;
            carry = sum / 10;
        }
        while carry > 0 {
            digits.push(carry % 10);
            carry /= 10;
        }
    }
    digits.iter().rev().map(|d| char::from_digit(*d, 10).unwrap()).collect()
}

#[test]
fn token_address_known_chains() {
    assert!(!token_address_for_currency("USDC", "eip155:8453").is_empty());
    assert!(!token_address_for_currency("USDC", "eip155:42161").is_empty());
    assert!(!token_address_for_currency("ETH", "eip155:1").is_empty());
}

#[test]
fn token_addresses_are_exact() {
    let usdc = |chain| token_address_for_currency("USDC", chain);
    assert_eq!(usdc("eip155:8453"), "0x833589fCD6eDb6E08f4c7C32D4f71b54bdA02913");
    assert_eq!(usdc("eip155:42161"), "0xaf88d065e77c8cC2239327C5EDb3A432268e5831");
    assert_eq!(usdc("eip155:1"), "0xA0b86991c6218b36c1d19D4a2e9Eb0cE3606eB48");
    assert_eq!(usdc("eip155:10"), "");
    let zero = "0x0000000000000000000000000000000000000000";
    assert_eq!(token_address_for_currency("ETH", "anywhere"), zero);
    assert_eq!(token_address_for_currency("WETH", ""), zero);
    assert_eq!(token_address_for_currency("usdc", "eip155:8453"), "");
    assert_eq!(token_address_for_currency("DAI", "eip155:1"), "");
}

#[test]
fn defaults_are_exact() {
    assert_eq!(default_http_timeout(), 10);
    assert_eq!(default_currency(), "USDC");
    assert_eq!(default_chain(), "eip155:8453");
}

#[test]
fn ordinary_charges() {
    for charge in ["0.001", "0.10", "1", "+1", "1.", ".5", "5e-1", "1E3", "+.5e+1", "007.70"] {
        assert!(charge_is_valid(charge), "charge `{charge}`");
        check_charge(charge);
    }
}

#[test]
fn unusable_charges() {
    let charges = [
        "", "0", "0.0", "-0", "-1", "-0.5", "not-a-number", "inf", "infinity", "+inf", "nan",
        "NaN", ".", "+", "-", "e5", ".e5", "1e", "1e+", "1e-", "1e5.0", "1.2.3", "1,5", " 1",
        "1 ", "1_000", "0x10", "++1", "+-1", "1e400", "1e-400", "0e999999999999999999999",
        "1e99999999999999999999999999999999999999999", "1e-99999999999999999999999999999999999",
        "1d5", "\u{0661}", "1\u{0660}", "1e\u{0661}", "$1", "1$",
    ];
    for charge in charges {
        assert!(!charge_is_valid(charge), "charge `{charge}`");
        check_charge(charge);
    }
}

#[test]
fn charges_at_the_ends_of_the_range() {
    let charges = [
        "5e-324", "4.9e-324", "2.5e-324", "2.4703282292062328e-324", "2.4703282292062327e-324",
        "2.47e-324", "2e-324", "1e-323", "1e-324", "2.2250738585072014e-308",
        "1.7976931348623157e308", "1.7976931348623158e308", "1.7976931348623159e308",
        "1.8e308", "1e308", "1e309", "17976931348623158e292", "0.0000017976931348623158e314",
        "0.00000000000000000000000000000000000000000000000000024703282292062328e-273",
    ];
    for charge in charges {
        check_charge(charge);
    }
}

#[test]
fn charges_at_the_exact_rounding_bounds() {
    // 2^-1075 is 5^1075 behind 1075 decimal places: it rounds to zero, anything
    // above it does not.
    let fives = power(5, 1075);
    let tie = format!("{fives}e-1075");
    assert!(!charge_is_valid(&tie));
    check_charge(&tie);
    let point = format!("0.{}{}", "0".repeat(1075 - fives.len()), fives);
    assert!(!charge_is_valid(&point));
    check_charge(&point);
    let above = format!("{fives}1e-1076");
    assert!(charge_is_valid(&above));
    check_charge(&above);
    let far_above = format!("{fives}{}1e-2076", "0".repeat(1000));
    assert!(charge_is_valid(&far_above));
    check_charge(&far_above);

    // (2^54 - 1) * 2^970 rounds to infinity, anything below it does not.
    let mut bound: Vec<u8> = power(2, 1024).bytes().map(|b| b - b'0').collect();
    let less: Vec<u8> = power(2, 970).bytes().map(|b| b - b'0').collect();
    let mut borrow = 0;
    for i in 0..bound.len() {
        let at = bound.len() - 1 - i;
        let taken = borrow + if i < less.len() { less[less.len() - 1 - i] } else { 0 };
        borrow = if bound[at] < taken { 1 } else { 0 };
        bound[at] = bound[at] + 10 * borrow - taken;
    }
    let tie: String = bound.iter().map(|d| (d + b'0') as char).collect();
    assert!(!charge_is_valid(&tie));
    check_charge(&tie);
    check_charge(&format!("{tie}.0"));
    check_charge(&format!("{tie}000e-3"));
    let mut below = bound.clone();
    let last = below.len() - 1;
    assert!(below[last] > 0);
    below[last] -= 1;
    let below: String = below.iter().map(|d| (d + b'0') as char).collect();
    assert!(charge_is_valid(&below));
    check_charge(&below);
    check_charge(&format!("{below}.999999"));
}

#[test]
fn many_shapes_of_charge() {
    let mantissas = ["0", "1", "9", "00", "10", "0.0", "1.5", ".05", "5.", "123456789012345678901"];
    let exponents = ["", "e0", "E1", "e+2", "e-2", "e307", "e-322", "e-325", "e310", "e1000"];
    for sign in ["", "+", "-"] {
        for mantissa in mantissas {
            for exponent in exponents {
                check_charge(&format!("{sign}{mantissa}{exponent}"));
            }
        }
    }
}

#[test]
fn tools_are_kept_by_name() {
    let mut tools = ToolConfigs::new();
    assert!(tools.is_empty());
    for name in ["b", "a", "ab", "", "Z", "\u{e9}", "a"] {
        tools.insert(name.to_owned(), priced(name));
    }
    assert!(!tools.is_empty());
    let mut sorted = vec!["b", "a", "ab", "", "Z", "\u{e9}"];
    sorted.sort();
    assert_eq!(tools.names(), sorted);
    assert_eq!(tools.get("ab").unwrap().charge, "ab");
    assert!(tools.get("c").is_none());
    assert!(tools.get("A").is_none());
}

#[test]
fn later_terms_replace_earlier_ones() {
    let mut tools = ToolConfigs::new();
    tools.insert("t".to_owned(), priced("1"));
    tools.insert("s".to_owned(), priced("3"));
    tools.insert("t".to_owned(), priced("2"));
    assert_eq!(tools.names(), vec!["s", "t"]);
    assert_eq!(tools.get("t").unwrap().charge, "2");
    assert_eq!(tools.get("s").unwrap().charge, "3");
}

#[test]
fn absent_configurations() {
    for text in ["", " ", "\n\t\r ", "null", "  null\n"] {
        assert!(config_is_absent(text), "text `{text}`");
    }
    for text in ["{}", "nul", "nulll", "null null", "NULL", "0", "\u{a0}"] {
        assert!(!config_is_absent(text), "text `{text}`");
    }
}

#[test]
fn cloned_terms_are_the_same() {
    let mut terms = priced("0.5");
    terms.recipient = Some("0xR".to_owned());
    let copy = terms.clone();
    assert_eq!(copy.charge, "0.5");
    assert_eq!(copy.currency, "USDC");
    assert_eq!(copy.chain_id, "eip155:8453");
    assert_eq!(copy.recipient, Some("0xR".to_owned()));
}
