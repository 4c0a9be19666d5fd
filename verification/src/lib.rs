//! Core logic of a broker bridge: a retrying connector with exponential
//! backoff, a periodic publisher that sends one timestamped message per
//! interval, and a notification listener that keeps the latest received
//! payload in a lock-protected cell.

pub mod cell;
pub mod codec;
pub mod message;
pub mod publisher;
pub mod retry;

pub use cell::EngageListener;
pub use cell::LatestCell;
pub use cell::apply_all;
pub use cell::apply_received;
pub use codec::decode_or_placeholder;
pub use codec::u64_to_decimal;
pub use message::BuildError;
pub use message::Message;
pub use message::PayloadFormat;
pub use message::build_publish_message;
pub use publisher::PublisherConfig;
pub use publisher::RunLog;
pub use publisher::simulate_run;
pub use publisher::tick_message;
pub use retry::ConnectEvent;
pub use retry::RetryAction;
pub use retry::RetryPolicy;
pub use retry::RetrySession;
pub use retry::RetryState;
pub use retry::run_retry;
