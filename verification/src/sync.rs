//! The thread-shared backend: one machine word that packs the owner's
//! identity with the status flags, and the decisions taken on it.

pub mod protocol;
pub mod raw_fused_lock;
pub mod state;
pub mod thread_id;
