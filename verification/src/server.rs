//! The server boundary's decisions.
//!
//! The HTTP layer itself (routing, headers, serialization) is an external
//! collaborator; what it decides is here, verified: whether a request may
//! read the metrics, what the ping route answers, and which body the
//! metrics route returns when access is granted or refused.

use vstd::prelude::*;

verus! {

use crate::order::bytes_eq;
use crate::si::SelectionInput;
use crate::si::is_built_snapshot;
use crate::si::snapshot_wf;
use crate::si::spec_default_selection_input;
use crate::store::MetricsStore;
use crate::store::collect_data;

/// The configured pre-shared key as characters, when one is configured.
pub open spec fn psk_view(psk: Option<String>) -> Option<Seq<char>> {
    match psk {
        Some(k) => Some(k@),
        None => None,
    }
}

/// The request's `X-Api-Key` header value as bytes, when one was sent.
pub open spec fn header_view(header: Option<&[u8]>) -> Option<Seq<u8>> {
    match header {
        Some(h) => Some(h@),
        None => None,
    }
}

/// Whether a request may read the metrics: either no pre-shared key is
/// configured, or the request carries a header value that matches the key
/// byte for byte.
pub open spec fn spec_api_key_ok(psk: Option<Seq<char>>, header: Option<Seq<u8>>) -> bool {
    match psk {
        None => true,
        Some(k) => (match header {
            Some(h) => h == vstd::utf8::encode_utf8(k),
            None => false,
        }),
    }
}

/// Decide whether a request's `X-Api-Key` header value authorizes access.
pub fn api_key_matches(psk: &Option<String>, header: Option<&[u8]>) -> (r: bool)
    ensures
        r == spec_api_key_ok(psk_view(*psk), header_view(header)),
{
    match psk {
        None => true,
        Some(k) => (match header {
            Some(h) => bytes_eq(k.as_str().as_bytes(), h),
            None => false,
        }),
    }
}

/// The fixed body of the ping route, independent of the pre-shared-key
/// configuration and of any header.
pub fn ping() -> (r: &'static str)
    ensures
        r@ == "Pong!"@,
{
    "Pong!"
}

/// The metrics route's decision: a fresh snapshot, or a refusal carrying
/// the zero-valued snapshot.
pub enum MetricsReply {
    Granted(SelectionInput),
    Refused(SelectionInput),
}

/// Decide the metrics route: when the request is authorized, refresh the
/// shared provider and grant the fresh snapshot; otherwise refuse with the
/// zero-valued snapshot.
pub fn metrics_reply(
    store: &MetricsStore,
    psk: &Option<String>,
    header: Option<&[u8]>,
) -> (r: MetricsReply)
    requires
        store.wf(),
    ensures
        spec_api_key_ok(psk_view(*psk), header_view(header)) ==> (r matches
            MetricsReply::Granted(s) && snapshot_wf(s@) && is_built_snapshot(s@)),
        !spec_api_key_ok(psk_view(*psk), header_view(header)) ==> (r matches
            MetricsReply::Refused(s) && s@ == spec_default_selection_input()),
{
    if api_key_matches(psk, header) {
        MetricsReply::Granted(collect_data(store))
    } else {
        MetricsReply::Refused(SelectionInput::default())
    }
}

} // verus!
