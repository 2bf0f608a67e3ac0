//! An interactive, provider-agnostic item picker: candidate items from a
//! family of providers are handed to a fuzzy-search engine, and the outcome
//! of one session either triggers a provider action or re-invokes the
//! picker with a substituted argument line, chaining into another session.
//!
//! This crate holds the verified orchestration core: the mode registry and
//! invocation grammar, the session configuration builder, the result
//! interpreter and chainer, and each provider's decision and formatting
//! logic. The interactive engine and every external effect (subprocesses,
//! the system bus, the network, files) stay outside, behind plain values.

pub mod apps;
pub mod calc;
pub mod cli;
pub mod errors;
pub mod event;
pub mod hyprctl_clients;
pub mod hyprctl_hide;
pub mod item;
pub mod options;
pub mod paru;
pub mod session;
pub mod systemd_services;
pub mod text;

pub use cli::Cli;
pub use cli::Mode;
pub use cli::Provider;
pub use cli::parse_mode;
pub use errors::Error;
pub use event::Action;
pub use event::InitOutcome;
pub use event::ResultEvent;
pub use event::VetoAction;
pub use item::Item;
pub use item::Preview;
pub use options::EnvInfo;
pub use options::SessionOptions;
pub use session::Prepared;
pub use session::StepOutcome;
