//! Web Push delivery for a small set of registered browsers: signing and
//! encrypting one message per subscriber, classifying what the push services
//! answer, and removing the subscriptions that turn out to be dead.

pub mod assemble;
pub mod codec;
pub mod encrypt;
pub mod fanout;
pub mod outcome;
pub mod owner;
pub mod please;
pub mod prune;
pub mod store;
pub mod subscription;
pub mod vapid;
