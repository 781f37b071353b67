//! Protocol gateway resolver: maps custom-scheme addresses to gateway
//! routes, states how a fetch result completes a pending request, and
//! decides which navigations are moved to a custom scheme.

pub mod address;
pub mod bridge;
pub mod cid;
pub mod failure;
pub mod fetch;
pub mod navigation;
pub mod resolver;
pub mod router;
pub mod scheme;
pub mod text;
