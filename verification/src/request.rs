//! Plain request and response descriptors handed in by the embedding layer.

use vstd::prelude::*;
use crate::headers::HeaderMap;

verus! {

/// What kind of resource an outbound request fetches.
#[derive(Clone, Copy, Debug, PartialEq, Eq, Structural)]
pub enum ResourceType {
    /// A script-initiated asynchronous request issued by page content.
    Xhr,
    /// A top-level or frame navigation.
    Navigation,
    /// A file download.
    Download,
    /// Anything else (images, scripts, stylesheets, ...).
    Other,
}

/// An outbound request: URL, resource kind, and its header multimap.
pub struct Request {
    pub url: String,
    pub resource_type: ResourceType,
    pub headers: HeaderMap,
}

/// A received response: status, declared media type, and headers.
pub struct Response {
    pub status: i32,
    pub mime_type: String,
    pub headers: HeaderMap,
}

} // verus!
