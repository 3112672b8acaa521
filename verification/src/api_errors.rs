//! How API failures are answered, and how sync events are named on the
//! event stream.
use vstd::prelude::*;
use vstd::string::StringExecFns;

use crate::models::SyncEvent;

verus! {

/// A failed API request, with what the response needs of the failure.
pub enum ApiError {
    /// The GitHub API failed; `status` is its HTTP status when it answered,
    /// `detail` the error's description.
    GitHub { status: Option<u16>, detail: String },
    /// A database query failed.
    Database { detail: String },
    NotFound(String),
    Internal(String),
    BadRequest(String),
}

/// The HTTP status of an error response: GitHub's own status when it
/// answered with a valid one, else 502 Bad Gateway.
pub open spec fn error_status(e: ApiError) -> u16 {
    match e {
        ApiError::GitHub { status, .. } => match status {
            Some(s) => if 100 <= s <= 999 {
                s
            } else {
                502
            },
            None => 502,
        },
        ApiError::Database { .. } => 500,
        ApiError::NotFound(_) => 404,
        ApiError::Internal(_) => 500,
        ApiError::BadRequest(_) => 400,
    }
}

/// The text of an error response.
pub open spec fn error_message(e: ApiError) -> Seq<char> {
    match e {
        ApiError::GitHub { detail, .. } => "GitHub API error: "@ + detail@,
        ApiError::Database { detail } => "Database error: "@ + detail@,
        ApiError::NotFound(m) => m@,
        ApiError::Internal(m) => m@,
        ApiError::BadRequest(m) => m@,
    }
}

impl ApiError {
    /// The HTTP status to answer with.
    pub fn status_code(&self) -> (r: u16)
        ensures
            r == error_status(*self),
    {
        match self {
            ApiError::GitHub { status, .. } => match status {
                Some(s) => if 100 <= *s && *s <= 999 {
                    *s
                } else {
                    502
                },
                None => 502,
            },
            ApiError::Database { .. } => 500,
            ApiError::NotFound(_) => 404,
            ApiError::Internal(_) => 500,
            ApiError::BadRequest(_) => 400,
        }
    }

    /// The text to answer with.
    pub fn message(&self) -> (r: String)
        ensures
            r@ == error_message(*self),
    {
        match self {
            ApiError::GitHub { detail, .. } => String::from_str("GitHub API error: ").concat(
                detail.as_str(),
            ),
            ApiError::Database { detail } => String::from_str("Database error: ").concat(
                detail.as_str(),
            ),
            ApiError::NotFound(m) => m.clone(),
            ApiError::Internal(m) => m.clone(),
            ApiError::BadRequest(m) => m.clone(),
        }
    }
}

/// The answer when a local mutation names an unknown notification.
pub fn notification_not_found(id: &str) -> (r: ApiError)
    ensures
        r matches ApiError::NotFound(m) && m@ == "notification "@ + id@ + " not found"@,
{
    ApiError::NotFound(String::from_str("notification ").concat(id).concat(" not found"))
}

/// The answer when GitHub has no such pull request.
pub fn pull_request_not_found(owner: &str, repo: &str, number_text: &str) -> (r: ApiError)
    ensures
        r matches ApiError::NotFound(m) && m@ == "Pull request "@ + owner@ + "/"@ + repo@ + "#"@
            + number_text@ + " not found via GraphQL"@,
{
    ApiError::NotFound(
        String::from_str("Pull request ").concat(owner).concat("/").concat(repo).concat("#").concat(
            number_text,
        ).concat(" not found via GraphQL"),
    )
}

/// The name of an event on the client event stream; the stream carries no
/// name for team updates, which are not sent to clients.
pub open spec fn event_name(e: SyncEvent) -> Option<Seq<char>> {
    match e {
        SyncEvent::NewNotifications { .. } => Some("notifications:new"@),
        SyncEvent::SyncStatus { .. } => Some("sync:status"@),
        SyncEvent::PrInfoUpdated(_) => Some("pr:info_updated"@),
        SyncEvent::GithubSyncError(_) => Some("github:sync_error"@),
        SyncEvent::PrTeamsUpdated(_) => None,
    }
}

/// The event-stream name of a sync event.
pub fn sse_event_name(e: &SyncEvent) -> (r: Option<&'static str>)
    ensures
        match event_name(*e) {
            Some(n) => r is Some && r->0@ == n,
            None => r is None,
        },
{
    match e {
        SyncEvent::NewNotifications { .. } => Some("notifications:new"),
        SyncEvent::SyncStatus { .. } => Some("sync:status"),
        SyncEvent::PrInfoUpdated(_) => Some("pr:info_updated"),
        SyncEvent::GithubSyncError(_) => Some("github:sync_error"),
        SyncEvent::PrTeamsUpdated(_) => None,
    }
}

/// What a client that fell behind the event stream is sent instead of the
/// events it missed: a change notice with count 0, so it refetches.
pub fn lagged_client_event() -> (r: (&'static str, &'static str))
    ensures
        r.0@ == "notifications:new"@,
        r.1@ == "{\"count\":0}"@,
{
    ("notifications:new", "{\"count\":0}")
}

/// Whether GitHub's answer to marking a thread read or done counts as
/// success: any status that is not a client or server error, and also 403
/// and 404, which mean the thread is no longer the user's to change.
pub fn thread_update_succeeded(status: u16) -> (r: bool)
    ensures
        r == (status == 403 || status == 404 || !(400 <= status <= 599)),
{
    status == 403 || status == 404 || !(400 <= status && status <= 599)
}

} // verus!
