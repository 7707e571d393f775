//! The handler decision layer. Each inbound request is decided in two steps:
//! a plan (reject the request, or call upstream with an exact payload), and a
//! conclusion mapping the upstream outcome — a response text or a network
//! failure — to the HTTP reply. The code around the library performs the one
//! planned call and nothing else; every decision is taken here.
//!
//! The provider endpoints, header names and field masks live here as named
//! values, so that a provider API change is a one-line change.

use vstd::prelude::*;
use vstd::string::StringExecFns;
use crate::model::{GetRouteRequestBody, GooglePlacesRequest};
use crate::places::{
    build_places_payload, parse_places_response, query_valid, render_places_response,
    spec_parse_places, spec_places_payload, spec_render_places_doc, validate_places_request,
};
use crate::routes::{
    build_routes_payload, parse_routes_response, render_routes_response, spec_parse_routes,
    spec_render_routes_doc, spec_routes_payload,
};

verus! {

/// An HTTP reply: status code and body.
pub struct HttpReply {
    pub status: u16,
    pub body: String,
}

/// What came of the one upstream call: the provider's response body, or a
/// network-level failure reaching it.
pub enum UpstreamOutcome {
    Reply(String),
    NetworkFailure,
}

/// The plan for a places request: reject it outright, or make one upstream
/// call with the given payload.
pub enum PlacesAction {
    Reject(HttpReply),
    CallUpstream(String),
}

/// Decides a places request. An invalid query — empty, or holding the
/// sentinel string — is rejected with a client error and no upstream call;
/// a valid one yields exactly one upstream call with the exact payload.
pub fn plan_places(req: &GooglePlacesRequest) -> (r: PlacesAction)
    ensures
        query_valid(req.text_query@) ==> (r matches PlacesAction::CallUpstream(p) && p@
            == spec_places_payload(req.text_query@)),
        !query_valid(req.text_query@) ==> (r matches PlacesAction::Reject(rep) && rep.status == 400
            && rep.body@ == "Invalid request"@),
{
    if !validate_places_request(req) {
        return PlacesAction::Reject(
            HttpReply { status: 400, body: String::from_str("Invalid request") },
        );
    }
    PlacesAction::CallUpstream(build_places_payload(req))
}

/// Concludes a places request from the upstream outcome: a network failure
/// or an unparsable response is a generic server error with nothing of the
/// cause leaked; a places document is re-rendered and returned unchanged in
/// shape.
pub fn conclude_places(outcome: &UpstreamOutcome) -> (r: HttpReply)
    ensures
        match outcome {
            UpstreamOutcome::NetworkFailure => r.status == 500 && r.body@
                == "Something went wrong. Try again later"@,
            UpstreamOutcome::Reply(body) => match spec_parse_places(body@) {
                Some(doc) => r.status == 200 && r.body@ == spec_render_places_doc(doc),
                None => r.status == 500 && r.body@ == "Something went wrong. Try again later"@,
            },
        },
{
    match outcome {
        UpstreamOutcome::NetworkFailure => HttpReply {
            status: 500,
            body: String::from_str("Something went wrong. Try again later"),
        },
        UpstreamOutcome::Reply(body) => match parse_places_response(body.as_str()) {
            Some(doc) => HttpReply { status: 200, body: render_places_response(&doc) },
            None => HttpReply {
                status: 500,
                body: String::from_str("Something went wrong. Try again later"),
            },
        },
    }
}

/// Decides a routes request: one upstream call with the exact payload, or
/// nothing where a coordinate is not carried as a number token.
pub fn plan_routes(req: &GetRouteRequestBody) -> (r: Option<String>)
    ensures
        match r {
            Some(p) => req@.wf() && p@ == spec_routes_payload(req@),
            None => !req@.wf(),
        },
{
    build_routes_payload(req)
}

/// Concludes a routes request from the upstream outcome, under the same
/// failure policy as `conclude_places`.
pub fn conclude_routes(outcome: &UpstreamOutcome) -> (r: HttpReply)
    ensures
        match outcome {
            UpstreamOutcome::NetworkFailure => r.status == 500 && r.body@
                == "Something went wrong. Try again later"@,
            UpstreamOutcome::Reply(body) => match spec_parse_routes(body@) {
                Some(doc) => r.status == 200 && r.body@ == spec_render_routes_doc(doc),
                None => r.status == 500 && r.body@ == "Something went wrong. Try again later"@,
            },
        },
{
    match outcome {
        UpstreamOutcome::NetworkFailure => HttpReply {
            status: 500,
            body: String::from_str("Something went wrong. Try again later"),
        },
        UpstreamOutcome::Reply(body) => match parse_routes_response(body.as_str()) {
            Some(doc) => HttpReply { status: 200, body: render_routes_response(&doc) },
            None => HttpReply {
                status: 500,
                body: String::from_str("Something went wrong. Try again later"),
            },
        },
    }
}

/// The provider's text-search endpoint.
pub fn places_url() -> (r: &'static str)
    ensures
        r@ == "https://places.googleapis.com/v1/places:searchText"@,
{
    "https://places.googleapis.com/v1/places:searchText"
}

/// The provider's compute-routes endpoint.
pub fn routes_url() -> (r: &'static str)
    ensures
        r@ == "https://routes.googleapis.com/directions/v2:computeRoutes"@,
{
    "https://routes.googleapis.com/directions/v2:computeRoutes"
}

/// The header the provider API key is sent in.
pub fn api_key_header() -> (r: &'static str)
    ensures
        r@ == "X-Goog-Api-Key"@,
{
    "X-Goog-Api-Key"
}

/// The header the response field mask is sent in.
pub fn field_mask_header() -> (r: &'static str)
    ensures
        r@ == "X-Goog-FieldMask"@,
{
    "X-Goog-FieldMask"
}

/// The content type header name.
pub fn content_type_header() -> (r: &'static str)
    ensures
        r@ == "Content-type"@,
{
    "Content-type"
}

/// The JSON content type both upstream calls are made with.
pub fn json_content_type() -> (r: &'static str)
    ensures
        r@ == "application/json"@,
{
    "application/json"
}

/// The field mask restricting a text-search response to the fields the
/// relay maps.
pub fn places_field_mask() -> (r: &'static str)
    ensures
        r@ == "places.id,places.displayName,places.formattedAddress,places.location"@,
{
    "places.id,places.displayName,places.formattedAddress,places.location"
}

/// The field mask restricting a compute-routes response to the fields the
/// relay maps.
pub fn routes_field_mask() -> (r: &'static str)
    ensures
        r@ == "routes.duration,routes.distanceMeters,routes.polyline.encodedPolyline"@,
{
    "routes.duration,routes.distanceMeters,routes.polyline.encodedPolyline"
}

} // verus!
