//! Keeps a DNS record in step with the global IPv6 address of one network
//! interface: address events are classified, deduplicated against the last
//! address seen, and each genuine change is pushed to the record provider
//! under a bounded exponential-backoff retry.
pub mod detector;
pub mod event;
pub mod journal;
pub mod monitor;
pub mod record;
pub mod retry;
