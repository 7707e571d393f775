//! The routes translator: the upstream compute-routes payload with its fixed
//! routing options, and the provider's routes document — its rendering, a
//! parser proved against it, and the round-trip law tying the two.
//!
//! The parser reads any lawful rendering of the expected shape: members in
//! any order, insignificant whitespace anywhere between tokens, unknown
//! members dropped. The renderer writes the compact canonical form.

use vstd::prelude::*;
use crate::json::{
    lemma_colon_eats, lemma_lit_eats, lemma_lit_miss, lemma_number_eats, lemma_string_eats,
    lemma_ws_none, parse_colon, parse_lit, parse_number, parse_skip_value, parse_string,
    push_json_string, skip_ws, spec_colon, spec_json_string, spec_lit, spec_number,
    spec_skip_value, spec_string, spec_ws,
};
use crate::model::{
    GetRouteRequestBody, GetRoutesReponse, Polyline, RouteRequestView, RouteView, RoutesDocView,
    RoutesResponse,
};
use crate::places::view_opt;
use crate::text::{chars_of, push_lit, string_of};

verus! {

// ---------------------------------------------------------------------------
// The upstream payload
// ---------------------------------------------------------------------------

/// The exact compute-routes payload sent upstream: the caller's coordinates
/// and departure time, then the relay's fixed options — drive mode,
/// traffic-aware-optimal preference, alternative routes on, no avoidances,
/// the en-US language tag, metric units.
pub open spec fn spec_routes_payload(req: RouteRequestView) -> Seq<char> {
    "{\"origin\":{\"location\":{\"latLng\":{\"latitude\":"@ + req.origin_location.latitude
        + ",\"longitude\":"@ + req.origin_location.longitude
        + "}}},\"destination\":{\"location\":{\"latLng\":{\"latitude\":"@
        + req.destination_location.latitude + ",\"longitude\":"@
        + req.destination_location.longitude + "}}},\"departureTime\":"@ + spec_json_string(
        req.departure_time,
    )
        + ",\"travelMode\":\"DRIVE\",\"routingPreference\":\"TRAFFIC_AWARE_OPTIMAL\",\"computeAlternativeRoutes\":true,\"routeModifiers\":{\"avoidTolls\":false,\"avoidHighways\":false,\"avoidFerries\":false},\"languageCode\":\"en-US\",\"units\":\"METRIC\"}"@
}

/// Builds the upstream compute-routes payload, character for character;
/// refused exactly when a coordinate is not carried as a number token.
pub fn build_routes_payload(req: &GetRouteRequestBody) -> (r: Option<String>)
    ensures
        match r {
            Some(p) => req@.wf() && p@ == spec_routes_payload(req@),
            None => !req@.wf(),
        },
{
    let ok = crate::json::is_number_str(req.origin_location.latitude.as_str())
        && crate::json::is_number_str(req.origin_location.longitude.as_str())
        && crate::json::is_number_str(req.destination_location.latitude.as_str())
        && crate::json::is_number_str(req.destination_location.longitude.as_str());
    if !ok {
        return None;
    }
    let mut out: Vec<char> = Vec::new();
    push_lit(&mut out, "{\"origin\":{\"location\":{\"latLng\":{\"latitude\":");
    push_lit(&mut out, req.origin_location.latitude.as_str());
    push_lit(&mut out, ",\"longitude\":");
    push_lit(&mut out, req.origin_location.longitude.as_str());
    push_lit(&mut out, "}}},\"destination\":{\"location\":{\"latLng\":{\"latitude\":");
    push_lit(&mut out, req.destination_location.latitude.as_str());
    push_lit(&mut out, ",\"longitude\":");
    push_lit(&mut out, req.destination_location.longitude.as_str());
    push_lit(&mut out, "}}},\"departureTime\":");
    push_json_string(&mut out, req.departure_time.as_str());
    push_lit(
        &mut out,
        ",\"travelMode\":\"DRIVE\",\"routingPreference\":\"TRAFFIC_AWARE_OPTIMAL\",\"computeAlternativeRoutes\":true,\"routeModifiers\":{\"avoidTolls\":false,\"avoidHighways\":false,\"avoidFerries\":false},\"languageCode\":\"en-US\",\"units\":\"METRIC\"}",
    );
    proof {
        assert(out@ =~= spec_routes_payload(req@));
    }
    Some(string_of(&out))
}

// ---------------------------------------------------------------------------
// Rendering the routes document
// ---------------------------------------------------------------------------

/// A polyline object: the encoded polyline string unchanged.
pub open spec fn spec_render_polyline(enc: Seq<char>) -> Seq<char> {
    "{"@ + "\"encodedPolyline\""@ + ":"@ + spec_json_string(enc) + "}"@
}

/// One route object: distance token verbatim, duration and polyline strings.
pub open spec fn spec_render_route(r: RouteView) -> Seq<char> {
    "{"@ + "\"distanceMeters\""@ + ":"@ + r.distance_meters + ","@ + "\"duration\""@ + ":"@
        + spec_json_string(r.duration) + ","@ + "\"polyline\""@ + ":"@ + spec_render_polyline(
        r.encoded_polyline,
    ) + "}"@
}

/// The members of a non-empty route array, comma separated.
pub open spec fn spec_render_route_items(rs: Seq<RouteView>) -> Seq<char>
    decreases rs.len(),
{
    if rs.len() == 0 {
        Seq::<char>::empty()
    } else if rs.len() == 1 {
        spec_render_route(rs[0])
    } else {
        spec_render_route(rs[0]) + ","@ + spec_render_route_items(rs.subrange(1, rs.len() as int))
    }
}

/// The whole routes document the relay hands back to its caller.
pub open spec fn spec_render_routes_doc(doc: RoutesDocView) -> Seq<char> {
    "{"@ + "\"routes\""@ + ":"@ + ("["@ + spec_render_route_items(doc.routes) + "]"@) + "}"@
}

// ---------------------------------------------------------------------------
// Parsing the routes document: specification side
// ---------------------------------------------------------------------------

/// Consumes the members of a polyline object; the encoded polyline is
/// required, unknown members are dropped.
pub open spec fn spec_polyline_members(s: Seq<char>, enc: Option<Seq<char>>) -> Option<
    (Seq<char>, Seq<char>),
>
    decreases s.len(),
{
    let step: Option<(Option<Seq<char>>, Seq<char>)> = match spec_lit(s, "\"encodedPolyline\""@) {
        Some(r1) => if enc is Some {
            None
        } else {
            match spec_colon(r1) {
                Some(r2) => match spec_string(r2) {
                    Some((v, r3)) => Some((Some(v), r3)),
                    None => None,
                },
                None => None,
            }
        },
        None => match spec_string(s) {
            Some((k, r1)) => match spec_colon(r1) {
                Some(r2) => match spec_skip_value(r2) {
                    Some(r3) => Some((enc, r3)),
                    None => None,
                },
                None => None,
            },
            None => None,
        },
    };
    match step {
        Some((enc2, r)) => {
            let r1 = spec_ws(r);
            match spec_lit(r1, ","@) {
                Some(r2) => {
                    let r3 = spec_ws(r2);
                    if r3.len() < s.len() {
                        spec_polyline_members(r3, enc2)
                    } else {
                        None
                    }
                },
                None => match spec_lit(r1, "}"@) {
                    Some(r2) => match enc2 {
                        Some(e) => Some((e, r2)),
                        None => None,
                    },
                    None => None,
                },
            }
        },
        None => None,
    }
}

/// Consumes a polyline object.
pub open spec fn spec_polyline(s: Seq<char>) -> Option<(Seq<char>, Seq<char>)> {
    match spec_lit(s, "{"@) {
        Some(r1) => {
            let r2 = spec_ws(r1);
            match spec_lit(r2, "}"@) {
                Some(r3) => None,
                None => spec_polyline_members(r2, None),
            }
        },
        None => None,
    }
}

/// Consumes one member of a route object and hands back the grown
/// accumulator with the suffix after the member's value.
pub open spec fn spec_route_member_step(
    s: Seq<char>,
    dist: Option<Seq<char>>,
    dur: Option<Seq<char>>,
    poly: Option<Seq<char>>,
) -> Option<(Option<Seq<char>>, Option<Seq<char>>, Option<Seq<char>>, Seq<char>)> {
    match spec_lit(s, "\"distanceMeters\""@) {
        Some(r1) => if dist is Some {
            None
        } else {
            match spec_colon(r1) {
                Some(r2) => match spec_number(r2) {
                    Some((v, r3)) => Some((Some(v), dur, poly, r3)),
                    None => None,
                },
                None => None,
            }
        },
        None => match spec_lit(s, "\"duration\""@) {
            Some(r1) => if dur is Some {
                None
            } else {
                match spec_colon(r1) {
                    Some(r2) => match spec_string(r2) {
                        Some((v, r3)) => Some((dist, Some(v), poly, r3)),
                        None => None,
                    },
                    None => None,
                }
            },
            None => match spec_lit(s, "\"polyline\""@) {
                Some(r1) => if poly is Some {
                    None
                } else {
                    match spec_colon(r1) {
                        Some(r2) => match spec_polyline(r2) {
                            Some((v, r3)) => Some((dist, dur, Some(v), r3)),
                            None => None,
                        },
                        None => None,
                    }
                },
                None => match spec_string(s) {
                    Some((k, r1)) => match spec_colon(r1) {
                        Some(r2) => match spec_skip_value(r2) {
                            Some(r3) => Some((dist, dur, poly, r3)),
                            None => None,
                        },
                        None => None,
                    },
                    None => None,
                },
            },
        },
    }
}

/// Consumes the members of a route object; distance, duration and polyline
/// are all required, once each.
pub open spec fn spec_route_members(
    s: Seq<char>,
    dist: Option<Seq<char>>,
    dur: Option<Seq<char>>,
    poly: Option<Seq<char>>,
) -> Option<(RouteView, Seq<char>)>
    decreases s.len(),
{
    match spec_route_member_step(s, dist, dur, poly) {
        Some((dist2, dur2, poly2, r)) => {
            let r1 = spec_ws(r);
            match spec_lit(r1, ","@) {
                Some(r2) => {
                    let r3 = spec_ws(r2);
                    if r3.len() < s.len() {
                        spec_route_members(r3, dist2, dur2, poly2)
                    } else {
                        None
                    }
                },
                None => match spec_lit(r1, "}"@) {
                    Some(r2) => match (dist2, dur2, poly2) {
                        (Some(di), Some(du), Some(po)) => Some(
                            (
                                RouteView {
                                    distance_meters: di,
                                    duration: du,
                                    encoded_polyline: po,
                                },
                                r2,
                            ),
                        ),
                        _ => None,
                    },
                    None => None,
                },
            }
        },
        None => None,
    }
}

/// Consumes one route object.
pub open spec fn spec_route(s: Seq<char>) -> Option<(RouteView, Seq<char>)> {
    match spec_lit(s, "{"@) {
        Some(r1) => {
            let r2 = spec_ws(r1);
            match spec_lit(r2, "}"@) {
                Some(r3) => None,
                None => spec_route_members(r2, None, None, None),
            }
        },
        None => None,
    }
}

/// Consumes the elements of a non-empty route array, the closing bracket
/// included; positioned at a value.
pub open spec fn spec_route_items(s: Seq<char>) -> Option<(Seq<RouteView>, Seq<char>)>
    decreases s.len(),
{
    match spec_route(s) {
        Some((r, r1)) => {
            let r2 = spec_ws(r1);
            match spec_lit(r2, ","@) {
                Some(r3) => {
                    let r4 = spec_ws(r3);
                    if r4.len() < s.len() {
                        match spec_route_items(r4) {
                            Some((rs, r5)) => Some((seq![r] + rs, r5)),
                            None => None,
                        }
                    } else {
                        None
                    }
                },
                None => match spec_lit(r2, "]"@) {
                    Some(r3) => Some((seq![r], r3)),
                    None => None,
                },
            }
        },
        None => None,
    }
}

/// Consumes a whole route array.
pub open spec fn spec_routes_array(s: Seq<char>) -> Option<(Seq<RouteView>, Seq<char>)> {
    match spec_lit(s, "["@) {
        Some(r1) => {
            let r2 = spec_ws(r1);
            match spec_lit(r2, "]"@) {
                Some(r3) => Some((Seq::<RouteView>::empty(), r3)),
                None => spec_route_items(r2),
            }
        },
        None => None,
    }
}

/// Consumes the members of a routes document; the route list is required.
pub open spec fn spec_routes_doc_members(
    s: Seq<char>,
    acc: Option<Seq<RouteView>>,
) -> Option<(RoutesDocView, Seq<char>)>
    decreases s.len(),
{
    let step: Option<(Option<Seq<RouteView>>, Seq<char>)> = match spec_lit(s, "\"routes\""@) {
        Some(r1) => if acc is Some {
            None
        } else {
            match spec_colon(r1) {
                Some(r2) => match spec_routes_array(r2) {
                    Some((v, r3)) => Some((Some(v), r3)),
                    None => None,
                },
                None => None,
            }
        },
        None => match spec_string(s) {
            Some((k, r1)) => match spec_colon(r1) {
                Some(r2) => match spec_skip_value(r2) {
                    Some(r3) => Some((acc, r3)),
                    None => None,
                },
                None => None,
            },
            None => None,
        },
    };
    match step {
        Some((acc2, r)) => {
            let r1 = spec_ws(r);
            match spec_lit(r1, ","@) {
                Some(r2) => {
                    let r3 = spec_ws(r2);
                    if r3.len() < s.len() {
                        spec_routes_doc_members(r3, acc2)
                    } else {
                        None
                    }
                },
                None => match spec_lit(r1, "}"@) {
                    Some(r2) => match acc2 {
                        Some(rs) => Some((RoutesDocView { routes: rs }, r2)),
                        None => None,
                    },
                    None => None,
                },
            }
        },
        None => None,
    }
}

/// Consumes a routes document.
pub open spec fn spec_routes_doc(s: Seq<char>) -> Option<(RoutesDocView, Seq<char>)> {
    match spec_lit(s, "{"@) {
        Some(r1) => {
            let r2 = spec_ws(r1);
            match spec_lit(r2, "}"@) {
                Some(r3) => None,
                None => spec_routes_doc_members(r2, None),
            }
        },
        None => None,
    }
}

/// The routes document a provider response text stands for, if it parses
/// whole up to trailing whitespace.
pub open spec fn spec_parse_routes(s: Seq<char>) -> Option<RoutesDocView> {
    match spec_routes_doc(spec_ws(s)) {
        Some((doc, rest)) => if spec_ws(rest).len() == 0 {
            Some(doc)
        } else {
            None
        },
        None => None,
    }
}

// ---------------------------------------------------------------------------
// Parsing the routes document: executable side
// ---------------------------------------------------------------------------

/// Consumes the members of a polyline object.
fn parse_polyline_members<'a>(s: &'a [char], enc: Option<Vec<char>>) -> (r: Option<
    (Vec<char>, &'a [char]),
>)
    ensures
        match r {
            Some((v, rest)) => spec_polyline_members(s@, view_opt(enc)) == Some((v@, rest@)),
            None => spec_polyline_members(s@, view_opt(enc)) is None,
        },
    decreases s@.len(),
{
    let step: Option<(Option<Vec<char>>, &'a [char])> = match parse_lit(s, "\"encodedPolyline\"") {
        Some(r1) => {
            if enc.is_some() {
                None
            } else {
                match parse_colon(r1) {
                    Some(r2) => match parse_string(r2) {
                        Some((v, r3)) => Some((Some(v), r3)),
                        None => None,
                    },
                    None => None,
                }
            }
        },
        None => match parse_string(s) {
            Some((_k, r1)) => match parse_colon(r1) {
                Some(r2) => match parse_skip_value(r2) {
                    Some(r3) => Some((enc, r3)),
                    None => None,
                },
                None => None,
            },
            None => None,
        },
    };
    match step {
        Some((enc2, r)) => {
            let r1 = skip_ws(r);
            match parse_lit(r1, ",") {
                Some(r2) => {
                    let r3 = skip_ws(r2);
                    if r3.len() < s.len() {
                        parse_polyline_members(r3, enc2)
                    } else {
                        None
                    }
                },
                None => match parse_lit(r1, "}") {
                    Some(r2) => match enc2 {
                        Some(e) => Some((e, r2)),
                        None => None,
                    },
                    None => None,
                },
            }
        },
        None => None,
    }
}

/// Consumes a polyline object.
fn parse_polyline<'a>(s: &'a [char]) -> (r: Option<(Vec<char>, &'a [char])>)
    ensures
        match r {
            Some((v, rest)) => spec_polyline(s@) == Some((v@, rest@)),
            None => spec_polyline(s@) is None,
        },
{
    let r1 = match parse_lit(s, "{") {
        Some(r) => r,
        None => {
            return None;
        },
    };
    let r2 = skip_ws(r1);
    match parse_lit(r2, "}") {
        Some(_r3) => None,
        None => parse_polyline_members(r2, None),
    }
}

/// Consumes the members of a route object.
fn parse_route_members<'a>(
    s: &'a [char],
    dist: Option<Vec<char>>,
    dur: Option<Vec<char>>,
    poly: Option<Vec<char>>,
) -> (r: Option<(RoutesResponse, &'a [char])>)
    ensures
        match r {
            Some((v, rest)) => spec_route_members(s@, view_opt(dist), view_opt(dur), view_opt(poly))
                == Some((v@, rest@)),
            None => spec_route_members(s@, view_opt(dist), view_opt(dur), view_opt(poly)) is None,
        },
    decreases s@.len(),
{
    let step: Option<(Option<Vec<char>>, Option<Vec<char>>, Option<Vec<char>>, &'a [char])> =
        match parse_lit(s, "\"distanceMeters\"") {
        Some(r1) => {
            if dist.is_some() {
                None
            } else {
                match parse_colon(r1) {
                    Some(r2) => match parse_number(r2) {
                        Some((v, r3)) => Some((Some(v), dur, poly, r3)),
                        None => None,
                    },
                    None => None,
                }
            }
        },
        None => match parse_lit(s, "\"duration\"") {
            Some(r1) => {
                if dur.is_some() {
                    None
                } else {
                    match parse_colon(r1) {
                        Some(r2) => match parse_string(r2) {
                            Some((v, r3)) => Some((dist, Some(v), poly, r3)),
                            None => None,
                        },
                        None => None,
                    }
                }
            },
            None => match parse_lit(s, "\"polyline\"") {
                Some(r1) => {
                    if poly.is_some() {
                        None
                    } else {
                        match parse_colon(r1) {
                            Some(r2) => match parse_polyline(r2) {
                                Some((v, r3)) => Some((dist, dur, Some(v), r3)),
                                None => None,
                            },
                            None => None,
                        }
                    }
                },
                None => match parse_string(s) {
                    Some((_k, r1)) => match parse_colon(r1) {
                        Some(r2) => match parse_skip_value(r2) {
                            Some(r3) => Some((dist, dur, poly, r3)),
                            None => None,
                        },
                        None => None,
                    },
                    None => None,
                },
            },
        },
    };
    match step {
        Some((dist2, dur2, poly2, r)) => {
            let r1 = skip_ws(r);
            match parse_lit(r1, ",") {
                Some(r2) => {
                    let r3 = skip_ws(r2);
                    if r3.len() < s.len() {
                        parse_route_members(r3, dist2, dur2, poly2)
                    } else {
                        None
                    }
                },
                None => match parse_lit(r1, "}") {
                    Some(r2) => match (dist2, dur2, poly2) {
                        (Some(di), Some(du), Some(po)) => Some(
                            (
                                RoutesResponse {
                                    distance_meters: string_of(&di),
                                    duration: string_of(&du),
                                    polyline: Polyline { encoded_polyline: string_of(&po) },
                                },
                                r2,
                            ),
                        ),
                        _ => None,
                    },
                    None => None,
                },
            }
        },
        None => None,
    }
}

/// Consumes one route object.
fn parse_route<'a>(s: &'a [char]) -> (r: Option<(RoutesResponse, &'a [char])>)
    ensures
        match r {
            Some((v, rest)) => spec_route(s@) == Some((v@, rest@)),
            None => spec_route(s@) is None,
        },
{
    let r1 = match parse_lit(s, "{") {
        Some(r) => r,
        None => {
            return None;
        },
    };
    let r2 = skip_ws(r1);
    match parse_lit(r2, "}") {
        Some(_r3) => None,
        None => parse_route_members(r2, None, None, None),
    }
}

/// Consumes the elements of a non-empty route array.
fn parse_route_items<'a>(s: &'a [char]) -> (r: Option<(Vec<RoutesResponse>, &'a [char])>)
    ensures
        match r {
            Some((rs, rest)) => spec_route_items(s@) == Some(
                (rs@.map_values(|q: RoutesResponse| q@), rest@),
            ),
            None => spec_route_items(s@) is None,
        },
    decreases s@.len(),
{
    let (route, r1) = match parse_route(s) {
        Some(x) => x,
        None => {
            return None;
        },
    };
    let r2 = skip_ws(r1);
    match parse_lit(r2, ",") {
        Some(r3) => {
            let r4 = skip_ws(r3);
            if r4.len() < s.len() {
                match parse_route_items(r4) {
                    Some((tail, r5)) => {
                        let ghost before = tail@;
                        let mut rs = tail;
                        rs.insert(0, route);
                        proof {
                            assert(rs@ =~= seq![route] + before);
                            assert(rs@.map_values(|q: RoutesResponse| q@) =~= seq![route@]
                                + before.map_values(|q: RoutesResponse| q@));
                        }
                        Some((rs, r5))
                    },
                    None => None,
                }
            } else {
                None
            }
        },
        None => match parse_lit(r2, "]") {
            Some(r3) => {
                let mut rs: Vec<RoutesResponse> = Vec::new();
                rs.push(route);
                proof {
                    assert(rs@.map_values(|q: RoutesResponse| q@) =~= seq![route@]);
                }
                Some((rs, r3))
            },
            None => None,
        },
    }
}

/// Consumes a whole route array.
fn parse_routes_array<'a>(s: &'a [char]) -> (r: Option<(Vec<RoutesResponse>, &'a [char])>)
    ensures
        match r {
            Some((rs, rest)) => spec_routes_array(s@) == Some(
                (rs@.map_values(|q: RoutesResponse| q@), rest@),
            ),
            None => spec_routes_array(s@) is None,
        },
{
    let r1 = match parse_lit(s, "[") {
        Some(r) => r,
        None => {
            return None;
        },
    };
    let r2 = skip_ws(r1);
    match parse_lit(r2, "]") {
        Some(r3) => {
            let rs: Vec<RoutesResponse> = Vec::new();
            proof {
                assert(rs@.map_values(|q: RoutesResponse| q@) =~= Seq::<RouteView>::empty());
            }
            Some((rs, r3))
        },
        None => parse_route_items(r2),
    }
}

/// Consumes the members of a routes document.
fn parse_routes_doc_members<'a>(s: &'a [char], acc: Option<Vec<RoutesResponse>>) -> (r: Option<
    (GetRoutesReponse, &'a [char]),
>)
    ensures
        match r {
            Some((doc, rest)) => spec_routes_doc_members(
                s@,
                match acc {
                    Some(ref v) => Some(v@.map_values(|q: RoutesResponse| q@)),
                    None => None,
                },
            ) == Some((doc@, rest@)),
            None => spec_routes_doc_members(
                s@,
                match acc {
                    Some(ref v) => Some(v@.map_values(|q: RoutesResponse| q@)),
                    None => None,
                },
            ) is None,
        },
    decreases s@.len(),
{
    let step: Option<(Option<Vec<RoutesResponse>>, &'a [char])> = match parse_lit(
        s,
        "\"routes\"",
    ) {
        Some(r1) => {
            if acc.is_some() {
                None
            } else {
                match parse_colon(r1) {
                    Some(r2) => match parse_routes_array(r2) {
                        Some((v, r3)) => Some((Some(v), r3)),
                        None => None,
                    },
                    None => None,
                }
            }
        },
        None => match parse_string(s) {
            Some((_k, r1)) => match parse_colon(r1) {
                Some(r2) => match parse_skip_value(r2) {
                    Some(r3) => Some((acc, r3)),
                    None => None,
                },
                None => None,
            },
            None => None,
        },
    };
    match step {
        Some((acc2, r)) => {
            let r1 = skip_ws(r);
            match parse_lit(r1, ",") {
                Some(r2) => {
                    let r3 = skip_ws(r2);
                    if r3.len() < s.len() {
                        parse_routes_doc_members(r3, acc2)
                    } else {
                        None
                    }
                },
                None => match parse_lit(r1, "}") {
                    Some(r2) => match acc2 {
                        Some(rs) => Some((GetRoutesReponse { routes: rs }, r2)),
                        None => None,
                    },
                    None => None,
                },
            }
        },
        None => None,
    }
}

/// Parses a provider compute-routes response, exactly when the whole text
/// is a routes document.
pub fn parse_routes_response(s: &str) -> (r: Option<GetRoutesReponse>)
    ensures
        match r {
            Some(doc) => spec_parse_routes(s@) == Some(doc@),
            None => spec_parse_routes(s@) is None,
        },
{
    let v = chars_of(s);
    let s0 = skip_ws(v.as_slice());
    let r1 = match parse_lit(s0, "{") {
        Some(r) => r,
        None => {
            return None;
        },
    };
    let r2 = skip_ws(r1);
    let parsed = match parse_lit(r2, "}") {
        Some(_r3) => None,
        None => parse_routes_doc_members(r2, None),
    };
    match parsed {
        Some((doc, rest)) => {
            if skip_ws(rest).len() == 0 {
                Some(doc)
            } else {
                None
            }
        },
        None => None,
    }
}

// ---------------------------------------------------------------------------
// Rendering the routes document: executable side
// ---------------------------------------------------------------------------

/// Appends one rendered route object to `out`.
#[verifier::rlimit(100)]
fn render_route_into(out: &mut Vec<char>, r: &RoutesResponse)
    ensures
        final(out)@ == old(out)@ + spec_render_route(r@),
{
    push_lit(out, "{");
    push_lit(out, "\"distanceMeters\"");
    push_lit(out, ":");
    push_lit(out, r.distance_meters.as_str());
    push_lit(out, ",");
    push_lit(out, "\"duration\"");
    push_lit(out, ":");
    push_json_string(out, r.duration.as_str());
    push_lit(out, ",");
    push_lit(out, "\"polyline\"");
    push_lit(out, ":");
    push_lit(out, "{");
    push_lit(out, "\"encodedPolyline\"");
    push_lit(out, ":");
    push_json_string(out, r.polyline.encoded_polyline.as_str());
    push_lit(out, "}");
    push_lit(out, "}");
    proof {
        assert(out@ =~= old(out)@ + spec_render_route(r@));
    }
}

/// A rendered route list grows at its right end by a comma and one route.
proof fn lemma_route_items_snoc(rs: Seq<RouteView>, r: RouteView)
    ensures
        spec_render_route_items(rs.push(r)) == if rs.len() == 0 {
            spec_render_route(r)
        } else {
            spec_render_route_items(rs) + ","@ + spec_render_route(r)
        },
    decreases rs.len(),
{
    let w = rs.push(r);
    if rs.len() == 0 {
        assert(w.len() == 1);
        assert(w[0] == r);
    } else {
        let t = rs.subrange(1, rs.len() as int);
        assert(w.subrange(1, w.len() as int) =~= t.push(r));
        lemma_route_items_snoc(t, r);
        assert(w[0] == rs[0]);
        if rs.len() == 1 {
            assert(t.len() == 0);
            assert(spec_render_route_items(w) =~= spec_render_route_items(rs) + ","@
                + spec_render_route(r));
        } else {
            assert(spec_render_route_items(w) =~= spec_render_route_items(rs) + ","@
                + spec_render_route(r));
        }
    }
}

/// Renders a routes document, character for character as
/// `spec_render_routes_doc` states.
pub fn render_routes_response(doc: &GetRoutesReponse) -> (r: String)
    ensures
        r@ == spec_render_routes_doc(doc@),
{
    let mut out: Vec<char> = Vec::new();
    push_lit(&mut out, "{");
    push_lit(&mut out, "\"routes\"");
    push_lit(&mut out, ":");
    push_lit(&mut out, "[");
    let ghost m = doc.routes@.map_values(|q: RoutesResponse| q@);
    let ghost pre = out@;
    let n = doc.routes.len();
    let mut i: usize = 0;
    while i < n
        invariant
            n == doc.routes@.len(),
            i <= n,
            m == doc.routes@.map_values(|q: RoutesResponse| q@),
            out@ == pre + spec_render_route_items(m.take(i as int)),
        decreases n - i,
    {
        if i > 0 {
            push_lit(&mut out, ",");
        }
        render_route_into(&mut out, &doc.routes[i]);
        proof {
            assert(m.take(i + 1) =~= m.take(i as int).push(m[i as int]));
            lemma_route_items_snoc(m.take(i as int), m[i as int]);
            assert(m[i as int] == doc.routes@[i as int]@);
            if i == 0 {
                assert(m.take(0) =~= Seq::<RouteView>::empty());
                assert(spec_render_route_items(m.take(0)) =~= Seq::<char>::empty());
                assert(out@ =~= pre + spec_render_route_items(m.take(i + 1)));
            } else {
                assert(out@ =~= pre + spec_render_route_items(m.take(i + 1)));
            }
        }
        i = i + 1;
    }
    proof {
        assert(m.take(n as int) =~= m);
    }
    push_lit(&mut out, "]");
    push_lit(&mut out, "}");
    proof {
        assert(out@ =~= spec_render_routes_doc(doc@));
    }
    string_of(&out)
}

// ---------------------------------------------------------------------------
// The round-trip law
// ---------------------------------------------------------------------------

#[verifier::rlimit(100)]
proof fn lemma_polyline_eats(enc: Seq<char>, rest: Seq<char>)
    ensures
        spec_polyline(spec_render_polyline(enc) + rest) == Some((enc, rest)),
{
    reveal_strlit("{");
    reveal_strlit("}");
    reveal_strlit(",");
    reveal_strlit("\"encodedPolyline\"");
    let s = spec_render_polyline(enc) + rest;
    let c1 = "}"@ + rest;
    let c2 = ":"@ + (spec_json_string(enc) + c1);
    let t1 = "\"encodedPolyline\""@ + c2;
    assert(s =~= "{"@ + t1);
    lemma_lit_eats("{"@, t1);
    assert(t1[0] == '"');
    lemma_ws_none(t1);
    lemma_lit_miss(t1, "}"@, 0);
    lemma_lit_eats("\"encodedPolyline\""@, c2);
    lemma_colon_eats(spec_json_string(enc) + c1);
    lemma_string_eats(enc, c1);
    lemma_ws_none(c1);
    lemma_lit_miss(c1, ","@, 0);
    lemma_lit_eats("}"@, rest);
    assert(spec_polyline_members(t1, None) == Some((enc, rest)));
    assert(spec_polyline(s) == Some((enc, rest)));
}

#[verifier::rlimit(100)]
proof fn lemma_route_eats(r: RouteView, rest: Seq<char>)
    requires
        r.wf(),
    ensures
        spec_route(spec_render_route(r) + rest) == Some((r, rest)),
{
    reveal_strlit("{");
    reveal_strlit("}");
    reveal_strlit(",");
    reveal_strlit("\"distanceMeters\"");
    reveal_strlit("\"duration\"");
    reveal_strlit("\"polyline\"");
    let s = spec_render_route(r) + rest;
    let c0 = "}"@ + rest;
    let c1 = ":"@ + (spec_render_polyline(r.encoded_polyline) + c0);
    let t3 = "\"polyline\""@ + c1;
    let c2 = ","@ + t3;
    let c3 = ":"@ + (spec_json_string(r.duration) + c2);
    let t2 = "\"duration\""@ + c3;
    let c4 = ","@ + t2;
    let c5 = ":"@ + (r.distance_meters + c4);
    let t1 = "\"distanceMeters\""@ + c5;
    assert(s =~= "{"@ + t1);
    lemma_lit_eats("{"@, t1);
    assert(t1[0] == '"');
    lemma_ws_none(t1);
    lemma_lit_miss(t1, "}"@, 0);
    lemma_lit_eats("\"distanceMeters\""@, c5);
    assert(!crate::json::is_ws_char(r.distance_meters[0]));
    lemma_colon_eats(r.distance_meters + c4);
    assert(c4[0] == ',');
    lemma_number_eats(r.distance_meters, c4);
    lemma_ws_none(c4);
    lemma_lit_eats(","@, t2);
    assert(t2[0] == '"');
    lemma_ws_none(t2);
    assert(t2.len() < t1.len());
    assert(t2[2] == 'u');
    lemma_lit_miss(t2, "\"distanceMeters\""@, 2);
    lemma_lit_eats("\"duration\""@, c3);
    lemma_colon_eats(spec_json_string(r.duration) + c2);
    lemma_string_eats(r.duration, c2);
    assert(c2[0] == ',');
    lemma_ws_none(c2);
    lemma_lit_eats(","@, t3);
    assert(t3[0] == '"');
    lemma_ws_none(t3);
    assert(t3.len() < t2.len());
    assert(t3[1] == 'p');
    lemma_lit_miss(t3, "\"distanceMeters\""@, 1);
    lemma_lit_miss(t3, "\"duration\""@, 1);
    lemma_lit_eats("\"polyline\""@, c1);
    lemma_polyline_eats(r.encoded_polyline, c0);
    assert(spec_render_polyline(r.encoded_polyline)[0] == '{');
    lemma_colon_eats(spec_render_polyline(r.encoded_polyline) + c0);
    lemma_ws_none(c0);
    lemma_lit_miss(c0, ","@, 0);
    lemma_lit_eats("}"@, rest);
    let dist = Some(r.distance_meters);
    let dur = Some(r.duration);
    assert(spec_route_member_step(t3, dist, dur, None) == Some(
        (dist, dur, Some(r.encoded_polyline), c0),
    ));
    assert(spec_route_members(t3, dist, dur, None) == Some((r, rest)));
    assert(spec_route_member_step(t2, dist, None, None) == Some(
        (dist, dur, None::<Seq<char>>, c2),
    ));
    assert(spec_route_members(t2, dist, None, None) == Some((r, rest)));
    assert(spec_route_member_step(t1, None, None, None) == Some(
        (dist, None::<Seq<char>>, None::<Seq<char>>, c4),
    ));
    assert(spec_route_members(t1, None, None, None) == Some((r, rest)));
    assert(spec_route(s) == Some((r, rest)));
}

/// A rendered route starts with its opening brace.
#[verifier::rlimit(100)]
proof fn lemma_render_route_head(r: RouteView)
    ensures
        spec_render_route(r).len() > 0,
        spec_render_route(r)[0] == '{',
{
    reveal_strlit("{");
}

/// A rendered list of two or more routes splits off its first element.
#[verifier::rlimit(100)]
proof fn lemma_route_items_split(rs: Seq<RouteView>, rest: Seq<char>)
    requires
        rs.len() >= 2,
    ensures
        spec_render_route_items(rs) + "]"@ + rest == spec_render_route(rs[0]) + (","@ + (
        spec_render_route_items(rs.subrange(1, rs.len() as int)) + "]"@ + rest)),
{
    assert(spec_render_route_items(rs) + "]"@ + rest =~= spec_render_route(rs[0]) + (","@ + (
    spec_render_route_items(rs.subrange(1, rs.len() as int)) + "]"@ + rest)));
}

proof fn lemma_route_items_eats(rs: Seq<RouteView>, rest: Seq<char>)
    requires
        rs.len() >= 1,
        forall|i: int| 0 <= i < rs.len() ==> (#[trigger] rs[i]).wf(),
    ensures
        spec_route_items(spec_render_route_items(rs) + "]"@ + rest) == Some((rs, rest)),
    decreases rs.len(),
{
    if rs.len() == 1 {
        lemma_route_items_eats_last(rs, rest);
    } else {
        let tail = rs.subrange(1, rs.len() as int);
        lemma_route_items_eats(tail, rest);
        lemma_route_items_eats_step(rs, rest);
    }
}

#[verifier::rlimit(100)]
proof fn lemma_route_items_eats_last(rs: Seq<RouteView>, rest: Seq<char>)
    requires
        rs.len() == 1,
        rs[0].wf(),
    ensures
        spec_route_items(spec_render_route_items(rs) + "]"@ + rest) == Some((rs, rest)),
{
    let cb = "]"@;
    let cm = ","@;
    let s = spec_render_route_items(rs) + cb + rest;
    reveal_strlit("]");
    reveal_strlit(",");
    assert(s =~= spec_render_route(rs[0]) + (cb + rest));
    lemma_route_eats(rs[0], cb + rest);
    assert((cb + rest)[0] == ']');
    lemma_ws_none(cb + rest);
    lemma_lit_miss(cb + rest, cm, 0);
    lemma_lit_eats(cb, rest);
    assert(seq![rs[0]] =~= rs);
}

#[verifier::rlimit(100)]
proof fn lemma_route_items_eats_step(rs: Seq<RouteView>, rest: Seq<char>)
    requires
        rs.len() >= 2,
        forall|i: int| 0 <= i < rs.len() ==> (#[trigger] rs[i]).wf(),
        spec_route_items(
            spec_render_route_items(rs.subrange(1, rs.len() as int)) + "]"@ + rest,
        ) == Some((rs.subrange(1, rs.len() as int), rest)),
    ensures
        spec_route_items(spec_render_route_items(rs) + "]"@ + rest) == Some((rs, rest)),
{
    let cb = "]"@;
    let cm = ","@;
    let s = spec_render_route_items(rs) + cb + rest;
    reveal_strlit("]");
    reveal_strlit(",");
    let tail = rs.subrange(1, rs.len() as int);
    let inner = spec_render_route_items(tail) + cb + rest;
    let r1 = cm + inner;
    lemma_route_items_split(rs, rest);
    lemma_route_eats(rs[0], r1);
    assert(r1[0] == ',');
    lemma_ws_none(r1);
    lemma_lit_eats(cm, inner);
    lemma_render_route_head(tail[0]);
    assert(spec_render_route_items(tail)[0] == '{');
    assert(spec_render_route_items(tail).len() > 0);
    assert(inner[0] == '{');
    lemma_ws_none(inner);
    assert(inner.len() < s.len());
    assert(seq![rs[0]] + tail =~= rs);
}

#[verifier::rlimit(100)]
proof fn lemma_routes_doc_eats(doc: RoutesDocView, rest: Seq<char>)
    requires
        doc.wf(),
    ensures
        spec_routes_doc(spec_render_routes_doc(doc) + rest) == Some((doc, rest)),
{
    reveal_strlit("{");
    reveal_strlit("}");
    reveal_strlit(",");
    reveal_strlit("\"routes\"");
    reveal_strlit("[");
    reveal_strlit("]");
    let s = spec_render_routes_doc(doc) + rest;
    let c0 = "}"@ + rest;
    let inner = spec_render_route_items(doc.routes) + ("]"@ + c0);
    let arr = "["@ + inner;
    let c1 = ":"@ + (("["@ + spec_render_route_items(doc.routes) + "]"@) + c0);
    let t1 = "\"routes\""@ + c1;
    assert(s =~= "{"@ + t1);
    lemma_lit_eats("{"@, t1);
    assert(t1[0] == '"');
    lemma_ws_none(t1);
    lemma_lit_miss(t1, "}"@, 0);
    lemma_lit_eats("\"routes\""@, c1);
    assert(("["@ + spec_render_route_items(doc.routes) + "]"@) + c0 =~= arr);
    lemma_colon_eats(arr);
    assert((("["@ + spec_render_route_items(doc.routes) + "]"@) + c0)[0] == '[');
    lemma_lit_eats("["@, inner);
    lemma_ws_none(c0);
    lemma_lit_miss(c0, ","@, 0);
    lemma_lit_eats("}"@, rest);
    if doc.routes.len() == 0 {
        assert(inner =~= "]"@ + c0);
        assert(inner[0] == ']');
        lemma_ws_none(inner);
        lemma_lit_eats("]"@, c0);
        assert(spec_routes_array(arr) == Some((Seq::<RouteView>::empty(), c0)));
        assert(doc.routes =~= Seq::<RouteView>::empty());
        assert(spec_routes_doc_members(t1, None) == Some(
            (RoutesDocView { routes: doc.routes }, rest),
        ));
        assert(RoutesDocView { routes: doc.routes } == doc);
        assert(spec_routes_doc(s) == Some((doc, rest)));
    } else {
        lemma_render_route_head(doc.routes[0]);
        assert(spec_render_route_items(doc.routes)[0] == '{');
        assert(inner[0] == '{');
        lemma_ws_none(inner);
        lemma_lit_miss(inner, "]"@, 0);
        assert(inner =~= spec_render_route_items(doc.routes) + "]"@ + c0);
        lemma_route_items_eats(doc.routes, c0);
        assert(spec_routes_array(arr) == Some((doc.routes, c0)));
        assert(spec_routes_doc_members(t1, None) == Some(
            (RoutesDocView { routes: doc.routes }, rest),
        ));
        assert(RoutesDocView { routes: doc.routes } == doc);
        assert(spec_routes_doc(s) == Some((doc, rest)));
    }
}

/// Round trip: a well-formed routes document with any number of candidate
/// routes, rendered by the relay and parsed back, yields the same routes in
/// the same order, each carrying its original distance, duration and
/// encoded polyline.
pub proof fn lemma_routes_round_trip(doc: RoutesDocView)
    requires
        doc.wf(),
    ensures
        spec_parse_routes(spec_render_routes_doc(doc)) == Some(doc),
{
    reveal_strlit("{");
    let s = spec_render_routes_doc(doc);
    assert(s[0] == '{');
    lemma_ws_none(s);
    lemma_routes_doc_eats(doc, Seq::<char>::empty());
    assert(s + Seq::<char>::empty() =~= s);
    lemma_ws_none(Seq::<char>::empty());
}

} // verus!
