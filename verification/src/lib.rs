//! A matcher dispatch core for a chat-bot framework.
//!
//! An inbound chat event is routed through a prioritized list of registered
//! matchers. Each matcher is guarded by composable pre-conditions: read-only
//! rules and text-mutating pre-handlers. The outcome of every check is a
//! three-valued [`Signal`](signal::Signal); a blocking match stops the scan.
//! Short-lived one-shot matchers implement conversational "ask and wait"
//! exchanges with a timeout.

pub mod actions;
pub mod builtin;
pub mod config;
pub mod event;
pub mod handle;
pub mod matchers;
pub mod pre_handle;
pub mod rule;
pub mod session;
pub mod signal;
pub mod text;

pub use actions::Action;
pub use config::MatchersConfig;
pub use event::Event;
pub use event::EventExtra;
pub use event::MsgSegment;
pub use handle::BoxedMatcherHandler;
pub use handle::MatcherHandler;
pub use handle::PayloadKind;
pub use matchers::DispatchOutcome;
pub use matchers::Matcher;
pub use matchers::Matchers;
pub use matchers::TempMatchers;
pub use pre_handle::PreHandler;
pub use rule::Rule;
pub use session::PendingGet;
pub use session::Session;
pub use session::SessionError;
pub use session::SessionGetter;
pub use signal::Signal;
