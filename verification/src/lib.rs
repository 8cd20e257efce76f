//! Request classification and streaming response filtering with a reversible
//! byte-swizzle codec.
//!
//! The crate models the algorithmic core of a request-intercepting browser
//! shell: a classifier that decides how an outbound request is handled, a
//! per-response streaming filter engine with a strict capacity contract, and
//! a pure byte-pair permutation codec with an optional base64 textual form.
//! The embedding layer (window bootstrap, network I/O, the host framework's
//! reference counting) stays outside; it hands the library plain requests,
//! responses and byte chunks, and drives the hooks in order.

pub mod arena;
pub mod classify;
pub mod config;
pub mod dispatch;
pub mod filter;
pub mod headers;
pub mod request;
pub mod swizzle;
pub mod text;
