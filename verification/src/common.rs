//! Wire shapes shared across resources: pagination metadata, the
//! provider's structured error envelope, and embedded sub-resources.
//!
//! Timestamps travel as RFC 3339 text and fractional amounts (transfer
//! volume, prices) as decimal text; both are carried through unchanged and
//! only formatted by the presentation layer.

use vstd::prelude::*;

verus! {

/// Pagination metadata of a list response.
#[derive(Clone, Debug)]
pub struct Meta {
    pub total: u32,
}

/// Pagination links of a list response.
#[derive(Clone, Debug)]
pub struct Links {
    pub pages: Option<Pages>,
}

/// The page URLs a list response may carry.
#[derive(Clone, Debug)]
pub struct Pages {
    pub first: Option<String>,
    pub prev: Option<String>,
    pub next: Option<String>,
    pub last: Option<String>,
}

/// A generic list envelope: a collection plus pagination metadata.
#[derive(Clone, Debug)]
pub struct ListResponse<T> {
    pub data: Vec<T>,
    pub links: Links,
    pub meta: Meta,
}

/// One entry of the provider's error envelope.
#[derive(Clone, Debug)]
pub struct ErrorDetail {
    pub id: String,
    pub message: String,
    pub detail: Option<String>,
}

/// The provider's structured error body; its first entry's message is the
/// canonical message surfaced to the caller.
#[derive(Clone, Debug)]
pub struct ErrorResponse {
    pub errors: Vec<ErrorDetail>,
}

/// An asynchronous provider-side action on a resource.
#[derive(Clone, Debug)]
pub struct Action {
    pub id: u32,
    pub status: String,
    pub action_type: String,
    pub started_at: String,
    pub completed_at: Option<String>,
    pub resource_id: u32,
    pub resource_type: String,
    pub region: Option<Region>,
    pub region_slug: String,
}

/// A datacenter region.
#[derive(Clone, Debug)]
pub struct Region {
    pub name: String,
    pub slug: String,
    pub features: Vec<String>,
    pub available: bool,
    pub sizes: Vec<String>,
}

/// A droplet size offering.
#[derive(Clone, Debug)]
pub struct Size {
    pub slug: String,
    pub memory: u32,
    pub vcpus: u32,
    pub disk: u32,
    pub transfer: String,
    pub price_monthly: String,
    pub price_hourly: String,
    pub regions: Vec<String>,
    pub available: bool,
}

} // verus!
