//! Verified core of a GitHub notification inbox: the notification state
//! machine, sync planning, pull-request status rules, GraphQL conversion,
//! comment threading and the small text protocols the service speaks.
use vstd::prelude::*;

pub mod text;
pub mod notifications;
pub mod link_header;
pub mod models;
pub mod rows;
pub mod pr_status;
pub mod graphql;
pub mod markdown;
pub mod pr_cache;
pub mod pr_detail;
pub mod sync;
pub mod inbox_api;
pub mod preferences;
pub mod api_errors;
pub mod server_rules;
pub mod config;
pub mod teams;

verus! {

} // verus!
