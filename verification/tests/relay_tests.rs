use multi_map_backend::model::{
    DisplayName, GetRouteRequestBody, GetRoutesReponse, GooglePlace, GooglePlacesReponse,
    GooglePlacesRequest, Location, Polyline, RoutesResponse,
};
use multi_map_backend::places::{
    build_places_payload, parse_places_response, render_places_response, validate_places_request,
};
use multi_map_backend::relay::{
    conclude_places, conclude_routes, plan_places, plan_routes, HttpReply, PlacesAction,
    UpstreamOutcome,
};
use multi_map_backend::routes::{build_routes_payload, parse_routes_response, render_routes_response};

fn query(q: &str) -> GooglePlacesRequest {
    GooglePlacesRequest { text_query: q.to_string() }
}

// Valid query: exactly one upstream call is planned, with the exact payload.
#[test]
fn valid_query_plans_one_call() {
    match plan_places(&query("Spicy Vegetarian Food in Sydney, Australia")) {
        PlacesAction::CallUpstream(payload) => {
            assert_eq!(
                payload,
                "{\"textQuery\":\"Spicy Vegetarian Food in Sydney, Australia\",\"maxResultCount\":\"10\"}"
            );
        }
        PlacesAction::Reject(_) => panic!("valid query rejected"),
    }
}

#[test]
fn query_with_quote_is_escaped_in_payload() {
    match plan_places(&query("say \"hi\" \\ there")) {
        PlacesAction::CallUpstream(payload) => {
            assert_eq!(
                payload,
                "{\"textQuery\":\"say \\\"hi\\\" \\\\ there\",\"maxResultCount\":\"10\"}"
            );
        }
        PlacesAction::Reject(_) => panic!("valid query rejected"),
    }
}

// The sentinel query, or any query containing it, is rejected with 400 and
// no upstream call is planned.
#[test]
fn sentinel_query_rejected() {
    match plan_places(&query("undefined")) {
        PlacesAction::Reject(HttpReply { status, body }) => {
            assert_eq!(status, 400);
            assert_eq!(body, "Invalid request");
        }
        PlacesAction::CallUpstream(_) => panic!("sentinel query not rejected"),
    }
}

#[test]
fn query_containing_sentinel_rejected() {
    assert!(matches!(
        plan_places(&query("pizza undefined town")),
        PlacesAction::Reject(_)
    ));
}

#[test]
fn empty_query_rejected() {
    assert!(matches!(plan_places(&query("")), PlacesAction::Reject(_)));
}

#[test]
fn near_sentinel_query_accepted() {
    assert!(validate_places_request(&query("undefine")));
    assert!(validate_places_request(&query("Undefined city")));
}

#[test]
fn sentinel_found_at_either_end() {
    assert!(!validate_places_request(&query("undefined suffix")));
    assert!(!validate_places_request(&query("prefix undefined")));
}

#[test]
fn null_optional_fields_read_as_absent() {
    let text = "{\"places\":[{\"id\":\"x\",\"formattedAddress\":\"a\",\"priceLevel\":null,\"displayName\":{\"text\":\"T\",\"languageCode\":null},\"location\":{\"latitude\":1,\"longitude\":2}}]}";
    let doc = parse_places_response(text).expect("nulls must parse");
    let p = &doc.places.as_ref().unwrap()[0];
    assert!(p.price_level.is_none());
    assert!(p.display_name.language_code.is_none());
    // absence is rendered by omission
    assert_eq!(
        render_places_response(&doc),
        "{\"places\":[{\"id\":\"x\",\"formattedAddress\":\"a\",\"displayName\":{\"text\":\"T\"},\"location\":{\"latitude\":1,\"longitude\":2}}]}"
    );
}

// An upstream response with "places": null maps to an absent list, not an
// error.
#[test]
fn null_places_is_not_an_error() {
    let doc = parse_places_response("{\"places\":null}").expect("null places must parse");
    assert!(doc.places.is_none());
    let reply = conclude_places(&UpstreamOutcome::Reply("{\"places\":null}".to_string()));
    assert_eq!(reply.status, 200);
    assert_eq!(reply.body, "{\"places\":null}");
}

#[test]
fn empty_object_is_absent_places() {
    let doc = parse_places_response("{}").expect("empty object must parse");
    assert!(doc.places.is_none());
}

#[test]
fn empty_places_array_round_trips() {
    let doc = parse_places_response("{\"places\":[]}").expect("empty array must parse");
    match &doc.places {
        Some(ps) => assert_eq!(ps.len(), 0),
        None => panic!("empty array read as absent"),
    }
    assert_eq!(render_places_response(&doc), "{\"places\":[]}");
}

const PLACE_NO_PRICE: &str = "{\"places\":[{\"id\":\"abc123\",\"formattedAddress\":\"1 Main St, Sydney\",\"displayName\":{\"text\":\"Cafe One\",\"languageCode\":\"en\"},\"location\":{\"latitude\":-33.86,\"longitude\":151.2}}]}";

// A place without the optional priceLevel keeps it absent, never defaulted.
#[test]
fn missing_price_level_stays_absent() {
    let doc = parse_places_response(PLACE_NO_PRICE).expect("place must parse");
    let places = doc.places.as_ref().expect("places present");
    assert_eq!(places.len(), 1);
    let p = &places[0];
    assert_eq!(p.id, "abc123");
    assert_eq!(p.formatted_address, "1 Main St, Sydney");
    assert!(p.price_level.is_none());
    assert_eq!(p.display_name.text, "Cafe One");
    assert_eq!(p.display_name.language_code.as_deref(), Some("en"));
    assert_eq!(p.location.latitude, "-33.86");
    assert_eq!(p.location.longitude, "151.2");
    // the rendered output carries the absence through
    assert_eq!(render_places_response(&doc), PLACE_NO_PRICE);
}

#[test]
fn present_price_level_is_kept() {
    let text = "{\"places\":[{\"id\":\"x\",\"formattedAddress\":\"a\",\"priceLevel\":\"PRICE_LEVEL_MODERATE\",\"displayName\":{\"text\":\"T\"},\"location\":{\"latitude\":1,\"longitude\":2}}]}";
    let doc = parse_places_response(text).expect("place must parse");
    let p = &doc.places.as_ref().unwrap()[0];
    assert_eq!(p.price_level.as_deref(), Some("PRICE_LEVEL_MODERATE"));
    assert!(p.display_name.language_code.is_none());
    assert_eq!(render_places_response(&doc), text);
}

#[test]
fn places_reply_is_relayed_unchanged_in_shape() {
    let reply = conclude_places(&UpstreamOutcome::Reply(PLACE_NO_PRICE.to_string()));
    assert_eq!(reply.status, 200);
    assert_eq!(reply.body, PLACE_NO_PRICE);
}

#[test]
fn malformed_places_response_is_server_error() {
    for bad in [
        "",
        "places",
        "{\"places\":",
        "{\"places\":[{\"id\":\"x\"}]}",
        "{\"places\":[]}{",
        "{\"places\":[{\"id\":\"a\",\"id\":\"b\",\"formattedAddress\":\"a\",\"displayName\":{\"text\":\"T\"},\"location\":{\"latitude\":1,\"longitude\":2}}]}",
        "{\"places\":[{\"id\":\"\\uD800\",\"formattedAddress\":\"a\",\"displayName\":{\"text\":\"T\"},\"location\":{\"latitude\":1,\"longitude\":2}}]}",
        "{\"places\":[{\"id\":\"\\x\",\"formattedAddress\":\"a\",\"displayName\":{\"text\":\"T\"},\"location\":{\"latitude\":1,\"longitude\":2}}]}",
    ] {
        let reply = conclude_places(&UpstreamOutcome::Reply(bad.to_string()));
        assert_eq!(reply.status, 500, "input {:?} must be refused", bad);
        assert_eq!(reply.body, "Something went wrong. Try again later");
    }
}

// A network-level failure yields 500 with a generic message, on both
// handlers.
#[test]
fn network_failure_is_server_error() {
    let reply = conclude_places(&UpstreamOutcome::NetworkFailure);
    assert_eq!(reply.status, 500);
    assert_eq!(reply.body, "Something went wrong. Try again later");
    let reply = conclude_routes(&UpstreamOutcome::NetworkFailure);
    assert_eq!(reply.status, 500);
    assert_eq!(reply.body, "Something went wrong. Try again later");
}

fn route_request() -> GetRouteRequestBody {
    GetRouteRequestBody {
        origin_location: Location {
            latitude: "37.419734".to_string(),
            longitude: "-122.0827784".to_string(),
        },
        destination_location: Location {
            latitude: "37.41767".to_string(),
            longitude: "-122.079595".to_string(),
        },
        departure_time: "2023-10-15T15:01:23.045123456Z".to_string(),
    }
}

#[test]
fn routes_payload_is_exact() {
    let payload = build_routes_payload(&route_request()).expect("well-formed request");
    assert_eq!(
        payload,
        "{\"origin\":{\"location\":{\"latLng\":{\"latitude\":37.419734,\"longitude\":-122.0827784}}},\"destination\":{\"location\":{\"latLng\":{\"latitude\":37.41767,\"longitude\":-122.079595}}},\"departureTime\":\"2023-10-15T15:01:23.045123456Z\",\"travelMode\":\"DRIVE\",\"routingPreference\":\"TRAFFIC_AWARE_OPTIMAL\",\"computeAlternativeRoutes\":true,\"routeModifiers\":{\"avoidTolls\":false,\"avoidHighways\":false,\"avoidFerries\":false},\"languageCode\":\"en-US\",\"units\":\"METRIC\"}"
    );
    assert!(plan_routes(&route_request()).is_some());
}

#[test]
fn routes_payload_refused_for_non_number_coordinate() {
    let mut req = route_request();
    req.origin_location.latitude = "not a number".to_string();
    assert!(build_routes_payload(&req).is_none());
}

// Round trip: an upstream response with N candidate routes yields N mapped
// records in the same order, each field unchanged.
#[test]
fn routes_round_trip_keeps_order_and_fields() {
    let doc = GetRoutesReponse {
        routes: vec![
            RoutesResponse {
                distance_meters: "1543".to_string(),
                duration: "165s".to_string(),
                polyline: Polyline { encoded_polyline: "ipkcFfichV_@".to_string() },
            },
            RoutesResponse {
                distance_meters: "2211.5".to_string(),
                duration: "240s".to_string(),
                polyline: Polyline { encoded_polyline: "abcd\\efg".to_string() },
            },
        ],
    };
    let wire = render_routes_response(&doc);
    assert_eq!(
        wire,
        "{\"routes\":[{\"distanceMeters\":1543,\"duration\":\"165s\",\"polyline\":{\"encodedPolyline\":\"ipkcFfichV_@\"}},{\"distanceMeters\":2211.5,\"duration\":\"240s\",\"polyline\":{\"encodedPolyline\":\"abcd\\\\efg\"}}]}"
    );
    let back = parse_routes_response(&wire).expect("rendered document must parse");
    assert_eq!(back.routes.len(), 2);
    assert_eq!(back.routes[0].distance_meters, "1543");
    assert_eq!(back.routes[0].duration, "165s");
    assert_eq!(back.routes[0].polyline.encoded_polyline, "ipkcFfichV_@");
    assert_eq!(back.routes[1].distance_meters, "2211.5");
    assert_eq!(back.routes[1].duration, "240s");
    assert_eq!(back.routes[1].polyline.encoded_polyline, "abcd\\efg");
    let reply = conclude_routes(&UpstreamOutcome::Reply(wire.clone()));
    assert_eq!(reply.status, 200);
    assert_eq!(reply.body, wire);
}

#[test]
fn empty_routes_document_round_trips() {
    let doc = parse_routes_response("{\"routes\":[]}").expect("empty routes must parse");
    assert_eq!(doc.routes.len(), 0);
    assert_eq!(render_routes_response(&doc), "{\"routes\":[]}");
}

#[test]
fn malformed_routes_response_is_server_error() {
    for bad in ["", "{}", "{\"routes\":null}", "{\"routes\":[}", "{\"routes\":[]}]"] {
        let reply = conclude_routes(&UpstreamOutcome::Reply(bad.to_string()));
        assert_eq!(reply.status, 500, "input {:?} must be refused", bad);
    }
}

// A pretty-printed provider response, with members out of order and an
// unknown member, maps like its compact form.
#[test]
fn pretty_printed_response_parses() {
    let text = "{\n  \"places\": [\n    {\n      \"formattedAddress\": \"1 Main St\",\n      \"id\": \"abc\",\n      \"rating\": 4.5,\n      \"location\": { \"longitude\": 151.2, \"latitude\": -33.86 },\n      \"displayName\": { \"text\": \"Cafe\" }\n    }\n  ]\n}\n";
    let doc = parse_places_response(text).expect("pretty response must parse");
    let p = &doc.places.as_ref().unwrap()[0];
    assert_eq!(p.id, "abc");
    assert_eq!(p.formatted_address, "1 Main St");
    assert!(p.price_level.is_none());
    assert_eq!(p.location.latitude, "-33.86");
    assert_eq!(p.location.longitude, "151.2");
    assert_eq!(
        render_places_response(&doc),
        "{\"places\":[{\"id\":\"abc\",\"formattedAddress\":\"1 Main St\",\"displayName\":{\"text\":\"Cafe\"},\"location\":{\"latitude\":-33.86,\"longitude\":151.2}}]}"
    );
}

#[test]
fn pretty_printed_routes_response_parses() {
    let text = "{ \"routes\" : [ { \"duration\" : \"165s\" , \"legs\": [], \"polyline\" : { \"encodedPolyline\" : \"abc\" } , \"distanceMeters\" : 1543 } ] }";
    let doc = parse_routes_response(text).expect("pretty routes must parse");
    assert_eq!(doc.routes.len(), 1);
    assert_eq!(doc.routes[0].distance_meters, "1543");
    assert_eq!(doc.routes[0].duration, "165s");
    assert_eq!(doc.routes[0].polyline.encoded_polyline, "abc");
}

// Unicode escapes decode, surrogate pairs included.
#[test]
fn unicode_escapes_are_decoded() {
    let text = "{\"places\":[{\"id\":\"\\u0041\\u00e9\\ud83d\\ude00\",\"formattedAddress\":\"\\u001f\",\"displayName\":{\"text\":\"T\"},\"location\":{\"latitude\":1,\"longitude\":2}}]}";
    let doc = parse_places_response(text).expect("unicode escapes must parse");
    let p = &doc.places.as_ref().unwrap()[0];
    assert_eq!(p.id, "A\u{e9}\u{1F600}");
    assert_eq!(p.formatted_address, "\u{1f}");
    // a control character is re-rendered in escaped form
    let wire = render_places_response(&doc);
    assert!(wire.contains("\\u001f"));
    let back = parse_places_response(&wire).expect("rendered document must parse");
    assert_eq!(back.places.as_ref().unwrap()[0].formatted_address, "\u{1f}");
    let v: serde_json::Value = serde_json::from_str(&wire).expect("output must be JSON");
    assert_eq!(
        v["places"][0]["formattedAddress"],
        serde_json::Value::String("\u{1f}".to_string())
    );
}

#[test]
fn string_escapes_are_decoded() {
    let text = "{\"places\":[{\"id\":\"a\\/b\",\"formattedAddress\":\"line\\nbreak\\ttab\",\"displayName\":{\"text\":\"q\\\"q\\\\\"},\"location\":{\"latitude\":0,\"longitude\":0}}]}";
    let doc = parse_places_response(text).expect("escapes must parse");
    let p = &doc.places.as_ref().unwrap()[0];
    assert_eq!(p.id, "a/b");
    assert_eq!(p.formatted_address, "line\nbreak\ttab");
    assert_eq!(p.display_name.text, "q\"q\\");
}

// A display name built in code renders and parses back unchanged.
#[test]
fn places_document_built_in_code_round_trips() {
    let doc = GooglePlacesReponse {
        places: Some(vec![GooglePlace {
            id: "id-1".to_string(),
            formatted_address: "Addr 1".to_string(),
            price_level: None,
            display_name: DisplayName { text: "Name".to_string(), language_code: None },
            location: Location { latitude: "1.5e2".to_string(), longitude: "-0.25".to_string() },
        }]),
    };
    let wire = render_places_response(&doc);
    let back = parse_places_response(&wire).expect("rendered document must parse");
    let p = &back.places.as_ref().unwrap()[0];
    assert_eq!(p.id, "id-1");
    assert!(p.price_level.is_none());
    assert!(p.display_name.language_code.is_none());
    assert_eq!(p.location.latitude, "1.5e2");
    assert_eq!(render_places_response(&back), wire);
}

// The relay's output is well-formed JSON by an independent parser's lights.
#[test]
fn rendered_documents_are_valid_json() {
    let reply = conclude_places(&UpstreamOutcome::Reply(PLACE_NO_PRICE.to_string()));
    let v: serde_json::Value = serde_json::from_str(&reply.body).expect("output must be JSON");
    assert_eq!(v["places"][0]["id"], serde_json::Value::String("abc123".to_string()));
    assert!(v["places"][0].get("priceLevel").is_none());

    let payload = build_places_payload(&query("say \"hi\""));
    let v: serde_json::Value = serde_json::from_str(&payload).expect("payload must be JSON");
    assert_eq!(v["textQuery"], serde_json::Value::String("say \"hi\"".to_string()));
    assert_eq!(v["maxResultCount"], serde_json::Value::String("10".to_string()));

    let payload = build_routes_payload(&route_request()).unwrap();
    let v: serde_json::Value = serde_json::from_str(&payload).expect("payload must be JSON");
    assert_eq!(v["travelMode"], serde_json::Value::String("DRIVE".to_string()));
    assert_eq!(v["units"], serde_json::Value::String("METRIC".to_string()));
    assert_eq!(v["computeAlternativeRoutes"], serde_json::Value::Bool(true));
    assert_eq!(
        v["origin"]["location"]["latLng"]["latitude"]
            .as_f64()
            .unwrap(),
        37.419734_f64
    );
}
