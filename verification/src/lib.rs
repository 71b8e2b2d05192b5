//! Session lifecycle core for a persistent instant-messaging connection:
//! the resumable-token codec, the session persistence contract, the
//! connection supervisor's address selection and backoff policy, the
//! login orchestrator (token fast path, interactive QR flow, post-login
//! challenge resolution), and the reconnect driver.
//!
//! All network and file transfer is performed by the embedding process;
//! this crate holds the decisions: every state transition is a verified
//! function from the previous state and an observed event to the next
//! state and the action the embedder must perform.

pub mod driver;
pub mod login;
pub mod store;
pub mod supervisor;
pub mod token;
