//! A read-through caching core for a creature-profile proxy.
//!
//! The library answers two queries about a named creature: its canonical
//! profile (name, description, habitat, legendary flag) and a stylistically
//! translated version of that profile's description. It holds the cache-or-fetch
//! decisions, the routing rule that picks a translation style, and the mapping
//! of upstream failure modes to proxy-level outcomes. The upstream HTTP calls
//! themselves are collaborators: callers perform them and hand the outcomes
//! back to the orchestrator functions here.

pub mod cache;
pub mod orchestrator;
pub mod profile;
pub mod routing;
pub mod text;
