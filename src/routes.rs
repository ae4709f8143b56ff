//! Decisions of the HTTP and live-socket handlers.
use vstd::prelude::*;
use vstd::string::*;
use crate::hub::Received;
use crate::sample::LiveEvent;
use crate::text::{has_infix, has_prefix, starts_with};

verus! {

/// Status of a target deletion from the number of rows it removed.
pub fn delete_status(rows_affected: u64) -> (r: u16)
    ensures
        r == (if rows_affected == 1 {
            204u16
        } else {
            404u16
        }),
{
    if rows_affected == 1 {
        204
    } else {
        404
    }
}

/// The media type guessed for a path from its extension.
pub uninterp spec fn content_type_of(path: Seq<char>) -> Seq<char>;

/// Relies on `mime_guess::from_path(..).first_or_octet_stream()`: the first
/// media type of the static extension table, or `application/octet-stream`
/// when the path has no extension or an unknown one.
#[verifier::external_body]
fn guess_content_type(path: &str) -> (r: String)
    ensures
        r@ == content_type_of(path@),
        !has_infix(path@, "."@) ==> r@ == "application/octet-stream"@,
{
    let m = mime_guess::from_path(path).first_or_octet_stream();
    let s: &str = m.as_ref();
    s.to_string()
}

/// How a path outside the API and socket routes is served.
#[derive(Clone, Debug, PartialEq, Eq)]
pub enum StaticRoute {
    /// An unknown API path: not found.
    ApiNotFound,
    /// The embedded asset at `path` with its media type, or else the
    /// single-page index.
    Asset { path: String, content_type: String },
}

/// The asset path for a fallback path: without its leading `/`.
pub open spec fn asset_path_of(path: Seq<char>) -> Seq<char> {
    if has_prefix(path, "/"@) {
        path.subrange(1, path.len() as int)
    } else {
        path
    }
}

/// Routes a fallback path: API paths are not found; any other is looked up
/// as an embedded asset without its leading `/`, typed by its extension.
pub fn static_route(path: &str) -> (r: StaticRoute)
    ensures
        has_prefix(path@, "/api/"@) ==> r == StaticRoute::ApiNotFound,
        !has_prefix(path@, "/api/"@) ==> (r matches StaticRoute::Asset { path: a, content_type: c }
            && a@ == asset_path_of(path@) && c@ == content_type_of(asset_path_of(path@))),
{
    if starts_with(path, "/api/") {
        return StaticRoute::ApiNotFound;
    }
    let asset = if starts_with(path, "/") {
        proof {
            reveal_strlit("/");
        }
        let n = path.unicode_len();
        String::from_str(path.substring_char(1, n))
    } else {
        String::from_str(path)
    };
    let content_type = guess_content_type(asset.as_str());
    StaticRoute::Asset { path: asset, content_type }
}

/// What a live-socket session does with what its subscription yielded.
#[derive(Clone, Copy, Debug, PartialEq, Eq, Structural)]
pub enum Delivery {
    /// Send this event to the peer.
    Forward(LiveEvent),
    /// Events were dropped; carry on with the newest ones.
    Skip,
    /// Nothing pending; wait for the next publish.
    Wait,
    /// The subscription is gone; end the session.
    Stop,
}

/// The session's next move for one receive.
pub fn delivery_for(r: Received) -> (d: Delivery)
    ensures
        match r {
            Received::Event(e) => d == Delivery::Forward(e),
            Received::Gap { .. } => d == Delivery::Skip,
            Received::Empty => d == Delivery::Wait,
            Received::Closed => d == Delivery::Stop,
        },
{
    match r {
        Received::Event(e) => Delivery::Forward(e),
        Received::Gap { .. } => Delivery::Skip,
        Received::Empty => Delivery::Wait,
        Received::Closed => Delivery::Stop,
    }
}

} // verus!
