//! Copies a user's liked-songs library from one music-service account to another.
//!
//! The library holds the decisions of a sync session: the data model, the paged
//! fetch of a liked-songs library, the batching of ids into write requests, the
//! authorization URLs and token forms, the token file layout and the per-slot
//! session state. The network and the file system are driven by the caller, which
//! hands the library plain values and gets plain values back.
pub mod error;
pub mod types;
pub mod text;
pub mod api;
pub mod auth;
pub mod storage;
pub mod session;
