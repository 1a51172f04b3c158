//! GrantBot: autonomous USDC payouts for merged pull requests.
//!
//! The verified core of the service: webhook authentication, the decisions
//! taken on a GitHub webhook and while processing a merged pull request,
//! ERC-20 calldata encoding, and the interpretation of the replies of the
//! AI evaluator and of the transaction relayer.
pub mod status;
pub mod text;
pub mod json;
pub mod venice;
pub mod signature;
pub mod calldata;
pub mod config;
pub mod secret;
pub mod models;
pub mod relayer;
pub mod github;
pub mod processor;
pub mod processor_laws;
pub mod webhook;
pub mod webhook_laws;
