use vstd::prelude::*;

use crate::error::ApiError;

verus! {

/// The request handlers that the server mounts.
#[derive(Clone, Copy, Debug, PartialEq, Eq, Structural)]
pub enum Endpoint {
    /// `POST` on the scope itself: merge the uploaded images.
    CreateReceipt,
}

/// A handler mounted under a path prefix.
pub struct Mount {
    pub prefix: String,
    pub endpoint: Endpoint,
}

/// The handlers of the server, in the order they were mounted.
pub struct RouteConfig {
    pub mounts: Vec<Mount>,
}

impl RouteConfig {
    /// A configuration with nothing mounted.
    pub fn new() -> (r: RouteConfig)
        ensures
            r.mounts@.len() == 0,
    {
        RouteConfig { mounts: Vec::new() }
    }
}

/// The prefix of the merge endpoint.
pub open spec fn receipts_prefix() -> Seq<char> {
    "/receipts"@
}

/// Mounts the merge endpoint under `/receipts`, after what is already mounted.
pub fn receipts(cfg: &mut RouteConfig)
    ensures
        final(cfg).mounts@.len() == old(cfg).mounts@.len() + 1,
        final(cfg).mounts@.drop_last() == old(cfg).mounts@,
        final(cfg).mounts@.last().prefix@ == receipts_prefix(),
        final(cfg).mounts@.last().endpoint == Endpoint::CreateReceipt,
{
    cfg.mounts.push(Mount { prefix: String::from_str("/receipts"), endpoint: Endpoint::CreateReceipt });
    assert(cfg.mounts@.drop_last() =~= old(cfg).mounts@);
}

/// The answer to a request that no route matches: the path it asked for.
pub fn not_found(path: String) -> (r: ApiError)
    ensures
        r matches ApiError::EndpointNotFound { path: p } && p@ == path@,
{
    ApiError::EndpointNotFound { path }
}

} // verus!
