//! x402 crypto micropayments for MCP tools.
//!
//! A call to a priced tool that carries no payment credential is answered with a
//! challenge that says what to pay. A call that carries one goes ahead only once
//! an x402 facilitator has verified the payment.
//!
//! - [`config`] and [`charge`]: what operators configure, and which charges can
//!   be asked for;
//! - [`gate`]: the rules by which calls are decided, as mathematics;
//! - [`plugin`]: the plugin that follows them;
//! - [`laws`]: what holds of the plugin as a whole;
//! - [`json`]: JSON values, through `serde_json`.

pub mod asset;
pub mod charge;
pub mod charge_laws;
pub mod config;
pub mod decimal;
pub mod gate;
pub mod json;
pub mod laws;
pub mod plugin;
pub mod protocol;
pub mod text;

pub use config::{X402ProtocolConfig, X402ToolConfig};
pub use plugin::X402PaymentPlugin;
