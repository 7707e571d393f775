//! The places translator: query validation, the upstream text-search
//! payload, and the provider's text-search document — its rendering, a
//! parser proved against it, and the round-trip law tying the two.
//!
//! The parser reads any lawful rendering of the expected shape: members in
//! any order, insignificant whitespace anywhere between tokens, unknown
//! members dropped, optional members absent or null. The renderer writes
//! the compact canonical form.

use vstd::prelude::*;
use crate::json::{
    is_ws_char, lemma_colon_eats, lemma_json_string_not_null, lemma_lit_eats, lemma_lit_miss,
    lemma_number_eats, lemma_string_eats, lemma_ws_none, parse_colon, parse_lit, parse_number,
    parse_skip_value, parse_str_or_null, parse_string, push_json_string, skip_ws, spec_colon,
    spec_json_string, spec_lit, spec_number, spec_skip_value, spec_str_or_null, spec_string,
    spec_ws,
};
use crate::model::{
    DisplayName, DisplayNameView, GooglePlace, GooglePlacesReponse, GooglePlacesRequest, Location,
    LocationView, PlaceView, PlacesDocView,
};
use crate::text::{chars_of, contains_seq, contains_str, push_lit, string_of};

verus! {

// ---------------------------------------------------------------------------
// Query validation and the upstream payload
// ---------------------------------------------------------------------------

/// A text query the relay accepts: non-empty, and free of the sentinel
/// string a client writes where it left a field unset.
pub open spec fn query_valid(q: Seq<char>) -> bool {
    q.len() > 0 && !contains_seq(q, "undefined"@)
}

/// Decides `query_valid` for a request, exactly.
pub fn validate_places_request(req: &GooglePlacesRequest) -> (b: bool)
    ensures
        b == query_valid(req.text_query@),
{
    let v = chars_of(req.text_query.as_str());
    if v.len() == 0 {
        return false;
    }
    !contains_str(&v, "undefined")
}

/// The exact text-search payload sent upstream for query `q`: the query and
/// the fixed maximum result count.
pub open spec fn spec_places_payload(q: Seq<char>) -> Seq<char> {
    "{\"textQuery\":"@ + spec_json_string(q) + ",\"maxResultCount\":\"10\"}"@
}

/// Builds the upstream text-search payload, character for character.
pub fn build_places_payload(req: &GooglePlacesRequest) -> (r: String)
    ensures
        r@ == spec_places_payload(req.text_query@),
{
    let mut out: Vec<char> = Vec::new();
    push_lit(&mut out, "{\"textQuery\":");
    push_json_string(&mut out, req.text_query.as_str());
    push_lit(&mut out, ",\"maxResultCount\":\"10\"}");
    proof {
        assert(out@ =~= spec_places_payload(req.text_query@));
    }
    string_of(&out)
}

// ---------------------------------------------------------------------------
// Rendering the places document
// ---------------------------------------------------------------------------

/// A coordinate object, both number tokens verbatim.
pub open spec fn spec_render_location(l: LocationView) -> Seq<char> {
    "{"@ + "\"latitude\""@ + ":"@ + l.latitude + ","@ + "\"longitude\""@ + ":"@ + l.longitude
        + "}"@
}

/// A display name object; an absent language tag is omitted.
pub open spec fn spec_render_display_name(d: DisplayNameView) -> Seq<char> {
    "{"@ + "\"text\""@ + ":"@ + spec_json_string(d.text) + (match d.language_code {
        Some(lc) => ","@ + "\"languageCode\""@ + ":"@ + spec_json_string(lc),
        None => Seq::<char>::empty(),
    }) + "}"@
}

/// A place object; an absent price tier is omitted, never defaulted.
pub open spec fn spec_render_place(p: PlaceView) -> Seq<char> {
    "{"@ + "\"id\""@ + ":"@ + spec_json_string(p.id) + ","@ + "\"formattedAddress\""@ + ":"@
        + spec_json_string(p.formatted_address) + (match p.price_level {
        Some(pl) => ","@ + "\"priceLevel\""@ + ":"@ + spec_json_string(pl),
        None => Seq::<char>::empty(),
    }) + ","@ + "\"displayName\""@ + ":"@ + spec_render_display_name(p.display_name) + ","@
        + "\"location\""@ + ":"@ + spec_render_location(p.location) + "}"@
}

/// The members of a non-empty place array, comma separated.
pub open spec fn spec_render_place_items(ps: Seq<PlaceView>) -> Seq<char>
    decreases ps.len(),
{
    if ps.len() == 0 {
        Seq::<char>::empty()
    } else if ps.len() == 1 {
        spec_render_place(ps[0])
    } else {
        spec_render_place(ps[0]) + ","@ + spec_render_place_items(ps.subrange(1, ps.len() as int))
    }
}

/// The places field's value: null for an absent list, else the array.
pub open spec fn spec_render_places_value(ps: Option<Seq<PlaceView>>) -> Seq<char> {
    match ps {
        None => "null"@,
        Some(items) => "["@ + spec_render_place_items(items) + "]"@,
    }
}

/// The whole places document the relay hands back to its caller.
pub open spec fn spec_render_places_doc(doc: PlacesDocView) -> Seq<char> {
    "{"@ + "\"places\""@ + ":"@ + spec_render_places_value(doc.places) + "}"@
}

// ---------------------------------------------------------------------------
// Parsing the places document: specification side
// ---------------------------------------------------------------------------

/// Consumes the members of a coordinate object, the closing brace included;
/// positioned at a key. Both coordinates are required, once each; unknown
/// members are dropped.
pub open spec fn spec_location_members(
    s: Seq<char>,
    lat: Option<Seq<char>>,
    lon: Option<Seq<char>>,
) -> Option<(LocationView, Seq<char>)>
    decreases s.len(),
{
    let step: Option<(Option<Seq<char>>, Option<Seq<char>>, Seq<char>)> = match spec_lit(
        s,
        "\"latitude\""@,
    ) {
        Some(r1) => if lat is Some {
            None
        } else {
            match spec_colon(r1) {
                Some(r2) => match spec_number(r2) {
                    Some((v, r3)) => Some((Some(v), lon, r3)),
                    None => None,
                },
                None => None,
            }
        },
        None => match spec_lit(s, "\"longitude\""@) {
            Some(r1) => if lon is Some {
                None
            } else {
                match spec_colon(r1) {
                    Some(r2) => match spec_number(r2) {
                        Some((v, r3)) => Some((lat, Some(v), r3)),
                        None => None,
                    },
                    None => None,
                }
            },
            None => match spec_string(s) {
                Some((k, r1)) => match spec_colon(r1) {
                    Some(r2) => match spec_skip_value(r2) {
                        Some(r3) => Some((lat, lon, r3)),
                        None => None,
                    },
                    None => None,
                },
                None => None,
            },
        },
    };
    match step {
        Some((lat2, lon2, r)) => {
            let r1 = spec_ws(r);
            match spec_lit(r1, ","@) {
                Some(r2) => {
                    let r3 = spec_ws(r2);
                    if r3.len() < s.len() {
                        spec_location_members(r3, lat2, lon2)
                    } else {
                        None
                    }
                },
                None => match spec_lit(r1, "}"@) {
                    Some(r2) => match (lat2, lon2) {
                        (Some(a), Some(b)) => Some(
                            (LocationView { latitude: a, longitude: b }, r2),
                        ),
                        _ => None,
                    },
                    None => None,
                },
            }
        },
        None => None,
    }
}

/// Consumes a coordinate object.
pub open spec fn spec_location(s: Seq<char>) -> Option<(LocationView, Seq<char>)> {
    match spec_lit(s, "{"@) {
        Some(r1) => {
            let r2 = spec_ws(r1);
            match spec_lit(r2, "}"@) {
                Some(r3) => None,
                None => spec_location_members(r2, None, None),
            }
        },
        None => None,
    }
}

/// Consumes the members of a display name object; the text is required,
/// the language tag may be absent or null.
pub open spec fn spec_display_name_members(
    s: Seq<char>,
    text: Option<Seq<char>>,
    lc: Option<Option<Seq<char>>>,
) -> Option<(DisplayNameView, Seq<char>)>
    decreases s.len(),
{
    let step: Option<(Option<Seq<char>>, Option<Option<Seq<char>>>, Seq<char>)> = match spec_lit(
        s,
        "\"text\""@,
    ) {
        Some(r1) => if text is Some {
            None
        } else {
            match spec_colon(r1) {
                Some(r2) => match spec_string(r2) {
                    Some((v, r3)) => Some((Some(v), lc, r3)),
                    None => None,
                },
                None => None,
            }
        },
        None => match spec_lit(s, "\"languageCode\""@) {
            Some(r1) => if lc is Some {
                None
            } else {
                match spec_colon(r1) {
                    Some(r2) => match spec_str_or_null(r2) {
                        Some((v, r3)) => Some((text, Some(v), r3)),
                        None => None,
                    },
                    None => None,
                }
            },
            None => match spec_string(s) {
                Some((k, r1)) => match spec_colon(r1) {
                    Some(r2) => match spec_skip_value(r2) {
                        Some(r3) => Some((text, lc, r3)),
                        None => None,
                    },
                    None => None,
                },
                None => None,
            },
        },
    };
    match step {
        Some((text2, lc2, r)) => {
            let r1 = spec_ws(r);
            match spec_lit(r1, ","@) {
                Some(r2) => {
                    let r3 = spec_ws(r2);
                    if r3.len() < s.len() {
                        spec_display_name_members(r3, text2, lc2)
                    } else {
                        None
                    }
                },
                None => match spec_lit(r1, "}"@) {
                    Some(r2) => match text2 {
                        Some(t) => Some(
                            (
                                DisplayNameView {
                                    text: t,
                                    language_code: match lc2 {
                                        Some(v) => v,
                                        None => None,
                                    },
                                },
                                r2,
                            ),
                        ),
                        None => None,
                    },
                    None => None,
                },
            }
        },
        None => None,
    }
}

/// Consumes a display name object.
pub open spec fn spec_display_name(s: Seq<char>) -> Option<(DisplayNameView, Seq<char>)> {
    match spec_lit(s, "{"@) {
        Some(r1) => {
            let r2 = spec_ws(r1);
            match spec_lit(r2, "}"@) {
                Some(r3) => None,
                None => spec_display_name_members(r2, None, None),
            }
        },
        None => None,
    }
}

/// Consumes the members of a place object; identifier, address, display
/// name and location are required, the price tier may be absent or null.
pub open spec fn spec_place_member_step(
    s: Seq<char>,
    id: Option<Seq<char>>,
    fa: Option<Seq<char>>,
    pl: Option<Option<Seq<char>>>,
    dn: Option<DisplayNameView>,
    loc: Option<LocationView>,
) -> Option<
    (
        Option<Seq<char>>,
        Option<Seq<char>>,
        Option<Option<Seq<char>>>,
        Option<DisplayNameView>,
        Option<LocationView>,
        Seq<char>,
    ),
> {
    match spec_lit(s, "\"id\""@) {
        Some(r1) => if id is Some {
            None
        } else {
            match spec_colon(r1) {
                Some(r2) => match spec_string(r2) {
                    Some((v, r3)) => Some((Some(v), fa, pl, dn, loc, r3)),
                    None => None,
                },
                None => None,
            }
        },
        None => match spec_lit(s, "\"formattedAddress\""@) {
            Some(r1) => if fa is Some {
                None
            } else {
                match spec_colon(r1) {
                    Some(r2) => match spec_string(r2) {
                        Some((v, r3)) => Some((id, Some(v), pl, dn, loc, r3)),
                        None => None,
                    },
                    None => None,
                }
            },
            None => match spec_lit(s, "\"priceLevel\""@) {
                Some(r1) => if pl is Some {
                    None
                } else {
                    match spec_colon(r1) {
                        Some(r2) => match spec_str_or_null(r2) {
                            Some((v, r3)) => Some((id, fa, Some(v), dn, loc, r3)),
                            None => None,
                        },
                        None => None,
                    }
                },
                None => match spec_lit(s, "\"displayName\""@) {
                    Some(r1) => if dn is Some {
                        None
                    } else {
                        match spec_colon(r1) {
                            Some(r2) => match spec_display_name(r2) {
                                Some((v, r3)) => Some((id, fa, pl, Some(v), loc, r3)),
                                None => None,
                            },
                            None => None,
                        }
                    },
                    None => match spec_lit(s, "\"location\""@) {
                        Some(r1) => if loc is Some {
                            None
                        } else {
                            match spec_colon(r1) {
                                Some(r2) => match spec_location(r2) {
                                    Some((v, r3)) => Some((id, fa, pl, dn, Some(v), r3)),
                                    None => None,
                                },
                                None => None,
                            }
                        },
                        None => match spec_string(s) {
                            Some((k, r1)) => match spec_colon(r1) {
                                Some(r2) => match spec_skip_value(r2) {
                                    Some(r3) => Some((id, fa, pl, dn, loc, r3)),
                                    None => None,
                                },
                                None => None,
                            },
                            None => None,
                        },
                    },
                },
            },
        },
    }
}

/// Consumes the members of a place object; identifier, address, display
/// name and location are required, the price tier may be absent or null.
pub open spec fn spec_place_members(
    s: Seq<char>,
    id: Option<Seq<char>>,
    fa: Option<Seq<char>>,
    pl: Option<Option<Seq<char>>>,
    dn: Option<DisplayNameView>,
    loc: Option<LocationView>,
) -> Option<(PlaceView, Seq<char>)>
    decreases s.len(),
{
    match spec_place_member_step(s, id, fa, pl, dn, loc) {
        Some((id2, fa2, pl2, dn2, loc2, r)) => {
            let r1 = spec_ws(r);
            match spec_lit(r1, ","@) {
                Some(r2) => {
                    let r3 = spec_ws(r2);
                    if r3.len() < s.len() {
                        spec_place_members(r3, id2, fa2, pl2, dn2, loc2)
                    } else {
                        None
                    }
                },
                None => match spec_lit(r1, "}"@) {
                    Some(r2) => match (id2, fa2, dn2, loc2) {
                        (Some(i), Some(f), Some(d), Some(l)) => Some(
                            (
                                PlaceView {
                                    id: i,
                                    formatted_address: f,
                                    price_level: match pl2 {
                                        Some(v) => v,
                                        None => None,
                                    },
                                    display_name: d,
                                    location: l,
                                },
                                r2,
                            ),
                        ),
                        _ => None,
                    },
                    None => None,
                },
            }
        },
        None => None,
    }
}

/// Consumes a place object.
pub open spec fn spec_place(s: Seq<char>) -> Option<(PlaceView, Seq<char>)> {
    match spec_lit(s, "{"@) {
        Some(r1) => {
            let r2 = spec_ws(r1);
            match spec_lit(r2, "}"@) {
                Some(r3) => None,
                None => spec_place_members(r2, None, None, None, None, None),
            }
        },
        None => None,
    }
}

/// Consumes the elements of a non-empty place array, the closing bracket
/// included; positioned at a value.
pub open spec fn spec_place_items(s: Seq<char>) -> Option<(Seq<PlaceView>, Seq<char>)>
    decreases s.len(),
{
    match spec_place(s) {
        Some((p, r1)) => {
            let r2 = spec_ws(r1);
            match spec_lit(r2, ","@) {
                Some(r3) => {
                    let r4 = spec_ws(r3);
                    if r4.len() < s.len() {
                        match spec_place_items(r4) {
                            Some((ps, r5)) => Some((seq![p] + ps, r5)),
                            None => None,
                        }
                    } else {
                        None
                    }
                },
                None => match spec_lit(r2, "]"@) {
                    Some(r3) => Some((seq![p], r3)),
                    None => None,
                },
            }
        },
        None => None,
    }
}

/// Consumes a whole place array.
pub open spec fn spec_places_array(s: Seq<char>) -> Option<(Seq<PlaceView>, Seq<char>)> {
    match spec_lit(s, "["@) {
        Some(r1) => {
            let r2 = spec_ws(r1);
            match spec_lit(r2, "]"@) {
                Some(r3) => Some((Seq::<PlaceView>::empty(), r3)),
                None => spec_place_items(r2),
            }
        },
        None => None,
    }
}

/// Consumes the places field's value: null, or an array.
pub open spec fn spec_places_value(s: Seq<char>) -> Option<(Option<Seq<PlaceView>>, Seq<char>)> {
    match spec_lit(s, "null"@) {
        Some(r) => Some((None, r)),
        None => match spec_places_array(s) {
            Some((ps, r)) => Some((Some(ps), r)),
            None => None,
        },
    }
}

/// Consumes the members of a places document; the place list is the one
/// known member, and its absence stands for an absent list.
pub open spec fn spec_places_doc_members(
    s: Seq<char>,
    acc: Option<Option<Seq<PlaceView>>>,
) -> Option<(PlacesDocView, Seq<char>)>
    decreases s.len(),
{
    let step: Option<(Option<Option<Seq<PlaceView>>>, Seq<char>)> = match spec_lit(
        s,
        "\"places\""@,
    ) {
        Some(r1) => if acc is Some {
            None
        } else {
            match spec_colon(r1) {
                Some(r2) => match spec_places_value(r2) {
                    Some((v, r3)) => Some((Some(v), r3)),
                    None => None,
                },
                None => None,
            }
        },
        None => match spec_string(s) {
            Some((k, r1)) => match spec_colon(r1) {
                Some(r2) => match spec_skip_value(r2) {
                    Some(r3) => Some((acc, r3)),
                    None => None,
                },
                None => None,
            },
            None => None,
        },
    };
    match step {
        Some((acc2, r)) => {
            let r1 = spec_ws(r);
            match spec_lit(r1, ","@) {
                Some(r2) => {
                    let r3 = spec_ws(r2);
                    if r3.len() < s.len() {
                        spec_places_doc_members(r3, acc2)
                    } else {
                        None
                    }
                },
                None => match spec_lit(r1, "}"@) {
                    Some(r2) => Some(
                        (
                            PlacesDocView {
                                places: match acc2 {
                                    Some(v) => v,
                                    None => None,
                                },
                            },
                            r2,
                        ),
                    ),
                    None => None,
                },
            }
        },
        None => None,
    }
}

/// Consumes a places document.
pub open spec fn spec_places_doc(s: Seq<char>) -> Option<(PlacesDocView, Seq<char>)> {
    match spec_lit(s, "{"@) {
        Some(r1) => {
            let r2 = spec_ws(r1);
            match spec_lit(r2, "}"@) {
                Some(r3) => Some((PlacesDocView { places: None }, r3)),
                None => spec_places_doc_members(r2, None),
            }
        },
        None => None,
    }
}

/// The places document a provider response text stands for, if it parses
/// whole up to trailing whitespace.
pub open spec fn spec_parse_places(s: Seq<char>) -> Option<PlacesDocView> {
    match spec_places_doc(spec_ws(s)) {
        Some((doc, rest)) => if spec_ws(rest).len() == 0 {
            Some(doc)
        } else {
            None
        },
        None => None,
    }
}

// ---------------------------------------------------------------------------
// Parsing the places document: executable side
// ---------------------------------------------------------------------------

/// The view of an accumulated optional string member.
pub open spec fn view_opt(v: Option<Vec<char>>) -> Option<Seq<char>> {
    match v {
        Some(x) => Some(x@),
        None => None,
    }
}

/// The view of an accumulated optional nullable string member.
pub open spec fn view_opt2(v: Option<Option<Vec<char>>>) -> Option<Option<Seq<char>>> {
    match v {
        Some(x) => Some(view_opt(x)),
        None => None,
    }
}

/// Consumes the members of a coordinate object.
fn parse_location_members<'a>(
    s: &'a [char],
    lat: Option<Vec<char>>,
    lon: Option<Vec<char>>,
) -> (r: Option<(Location, &'a [char])>)
    ensures
        match r {
            Some((v, rest)) => spec_location_members(s@, view_opt(lat), view_opt(lon)) == Some(
                (v@, rest@),
            ),
            None => spec_location_members(s@, view_opt(lat), view_opt(lon)) is None,
        },
    decreases s@.len(),
{
    let step: Option<(Option<Vec<char>>, Option<Vec<char>>, &'a [char])> = match parse_lit(
        s,
        "\"latitude\"",
    ) {
        Some(r1) => {
            if lat.is_some() {
                None
            } else {
                match parse_colon(r1) {
                    Some(r2) => match parse_number(r2) {
                        Some((v, r3)) => Some((Some(v), lon, r3)),
                        None => None,
                    },
                    None => None,
                }
            }
        },
        None => match parse_lit(s, "\"longitude\"") {
            Some(r1) => {
                if lon.is_some() {
                    None
                } else {
                    match parse_colon(r1) {
                        Some(r2) => match parse_number(r2) {
                            Some((v, r3)) => Some((lat, Some(v), r3)),
                            None => None,
                        },
                        None => None,
                    }
                }
            },
            None => match parse_string(s) {
                Some((_k, r1)) => match parse_colon(r1) {
                    Some(r2) => match parse_skip_value(r2) {
                        Some(r3) => Some((lat, lon, r3)),
                        None => None,
                    },
                    None => None,
                },
                None => None,
            },
        },
    };
    match step {
        Some((lat2, lon2, r)) => {
            let r1 = skip_ws(r);
            match parse_lit(r1, ",") {
                Some(r2) => {
                    let r3 = skip_ws(r2);
                    if r3.len() < s.len() {
                        parse_location_members(r3, lat2, lon2)
                    } else {
                        None
                    }
                },
                None => match parse_lit(r1, "}") {
                    Some(r2) => match (lat2, lon2) {
                        (Some(a), Some(b)) => Some(
                            (
                                Location {
                                    latitude: string_of(&a),
                                    longitude: string_of(&b),
                                },
                                r2,
                            ),
                        ),
                        _ => None,
                    },
                    None => None,
                },
            }
        },
        None => None,
    }
}

/// Consumes a coordinate object.
fn parse_location<'a>(s: &'a [char]) -> (r: Option<(Location, &'a [char])>)
    ensures
        match r {
            Some((v, rest)) => spec_location(s@) == Some((v@, rest@)),
            None => spec_location(s@) is None,
        },
{
    let r1 = match parse_lit(s, "{") {
        Some(r) => r,
        None => {
            return None;
        },
    };
    let r2 = skip_ws(r1);
    match parse_lit(r2, "}") {
        Some(_r3) => None,
        None => parse_location_members(r2, None, None),
    }
}

/// Consumes the members of a display name object.
fn parse_display_name_members<'a>(
    s: &'a [char],
    text: Option<Vec<char>>,
    lc: Option<Option<Vec<char>>>,
) -> (r: Option<(DisplayName, &'a [char])>)
    ensures
        match r {
            Some((v, rest)) => spec_display_name_members(s@, view_opt(text), view_opt2(lc))
                == Some((v@, rest@)),
            None => spec_display_name_members(s@, view_opt(text), view_opt2(lc)) is None,
        },
    decreases s@.len(),
{
    let step: Option<(Option<Vec<char>>, Option<Option<Vec<char>>>, &'a [char])> = match parse_lit(
        s,
        "\"text\"",
    ) {
        Some(r1) => {
            if text.is_some() {
                None
            } else {
                match parse_colon(r1) {
                    Some(r2) => match parse_string(r2) {
                        Some((v, r3)) => Some((Some(v), lc, r3)),
                        None => None,
                    },
                    None => None,
                }
            }
        },
        None => match parse_lit(s, "\"languageCode\"") {
            Some(r1) => {
                if lc.is_some() {
                    None
                } else {
                    match parse_colon(r1) {
                        Some(r2) => match parse_str_or_null(r2) {
                            Some((v, r3)) => Some((text, Some(v), r3)),
                            None => None,
                        },
                        None => None,
                    }
                }
            },
            None => match parse_string(s) {
                Some((_k, r1)) => match parse_colon(r1) {
                    Some(r2) => match parse_skip_value(r2) {
                        Some(r3) => Some((text, lc, r3)),
                        None => None,
                    },
                    None => None,
                },
                None => None,
            },
        },
    };
    match step {
        Some((text2, lc2, r)) => {
            let r1 = skip_ws(r);
            match parse_lit(r1, ",") {
                Some(r2) => {
                    let r3 = skip_ws(r2);
                    if r3.len() < s.len() {
                        parse_display_name_members(r3, text2, lc2)
                    } else {
                        None
                    }
                },
                None => match parse_lit(r1, "}") {
                    Some(r2) => match text2 {
                        Some(t) => {
                            let code = match lc2 {
                                Some(Some(v)) => Some(string_of(&v)),
                                _ => None,
                            };
                            Some(
                                (
                                    DisplayName { text: string_of(&t), language_code: code },
                                    r2,
                                ),
                            )
                        },
                        None => None,
                    },
                    None => None,
                },
            }
        },
        None => None,
    }
}

/// Consumes a display name object.
fn parse_display_name<'a>(s: &'a [char]) -> (r: Option<(DisplayName, &'a [char])>)
    ensures
        match r {
            Some((v, rest)) => spec_display_name(s@) == Some((v@, rest@)),
            None => spec_display_name(s@) is None,
        },
{
    let r1 = match parse_lit(s, "{") {
        Some(r) => r,
        None => {
            return None;
        },
    };
    let r2 = skip_ws(r1);
    match parse_lit(r2, "}") {
        Some(_r3) => None,
        None => parse_display_name_members(r2, None, None),
    }
}

/// Consumes the members of a place object.
fn parse_place_members<'a>(
    s: &'a [char],
    id: Option<Vec<char>>,
    fa: Option<Vec<char>>,
    pl: Option<Option<Vec<char>>>,
    dn: Option<DisplayName>,
    loc: Option<Location>,
) -> (r: Option<(GooglePlace, &'a [char])>)
    ensures
        match r {
            Some((v, rest)) => spec_place_members(
                s@,
                view_opt(id),
                view_opt(fa),
                view_opt2(pl),
                match dn {
                    Some(ref d) => Some(d@),
                    None => None,
                },
                match loc {
                    Some(ref l) => Some(l@),
                    None => None,
                },
            ) == Some((v@, rest@)),
            None => spec_place_members(
                s@,
                view_opt(id),
                view_opt(fa),
                view_opt2(pl),
                match dn {
                    Some(ref d) => Some(d@),
                    None => None,
                },
                match loc {
                    Some(ref l) => Some(l@),
                    None => None,
                },
            ) is None,
        },
    decreases s@.len(),
{
    let step: Option<
        (
            Option<Vec<char>>,
            Option<Vec<char>>,
            Option<Option<Vec<char>>>,
            Option<DisplayName>,
            Option<Location>,
            &'a [char],
        ),
    > = match parse_lit(s, "\"id\"") {
        Some(r1) => {
            if id.is_some() {
                None
            } else {
                match parse_colon(r1) {
                    Some(r2) => match parse_string(r2) {
                        Some((v, r3)) => Some((Some(v), fa, pl, dn, loc, r3)),
                        None => None,
                    },
                    None => None,
                }
            }
        },
        None => match parse_lit(s, "\"formattedAddress\"") {
            Some(r1) => {
                if fa.is_some() {
                    None
                } else {
                    match parse_colon(r1) {
                        Some(r2) => match parse_string(r2) {
                            Some((v, r3)) => Some((id, Some(v), pl, dn, loc, r3)),
                            None => None,
                        },
                        None => None,
                    }
                }
            },
            None => match parse_lit(s, "\"priceLevel\"") {
                Some(r1) => {
                    if pl.is_some() {
                        None
                    } else {
                        match parse_colon(r1) {
                            Some(r2) => match parse_str_or_null(r2) {
                                Some((v, r3)) => Some((id, fa, Some(v), dn, loc, r3)),
                                None => None,
                            },
                            None => None,
                        }
                    }
                },
                None => match parse_lit(s, "\"displayName\"") {
                    Some(r1) => {
                        if dn.is_some() {
                            None
                        } else {
                            match parse_colon(r1) {
                                Some(r2) => match parse_display_name(r2) {
                                    Some((v, r3)) => Some((id, fa, pl, Some(v), loc, r3)),
                                    None => None,
                                },
                                None => None,
                            }
                        }
                    },
                    None => match parse_lit(s, "\"location\"") {
                        Some(r1) => {
                            if loc.is_some() {
                                None
                            } else {
                                match parse_colon(r1) {
                                    Some(r2) => match parse_location(r2) {
                                        Some((v, r3)) => Some((id, fa, pl, dn, Some(v), r3)),
                                        None => None,
                                    },
                                    None => None,
                                }
                            }
                        },
                        None => match parse_string(s) {
                            Some((_k, r1)) => match parse_colon(r1) {
                                Some(r2) => match parse_skip_value(r2) {
                                    Some(r3) => Some((id, fa, pl, dn, loc, r3)),
                                    None => None,
                                },
                                None => None,
                            },
                            None => None,
                        },
                    },
                },
            },
        },
    };
    match step {
        Some((id2, fa2, pl2, dn2, loc2, r)) => {
            let r1 = skip_ws(r);
            match parse_lit(r1, ",") {
                Some(r2) => {
                    let r3 = skip_ws(r2);
                    if r3.len() < s.len() {
                        parse_place_members(r3, id2, fa2, pl2, dn2, loc2)
                    } else {
                        None
                    }
                },
                None => match parse_lit(r1, "}") {
                    Some(r2) => match (id2, fa2, dn2, loc2) {
                        (Some(i), Some(f), Some(d), Some(l)) => {
                            let tier = match pl2 {
                                Some(Some(v)) => Some(string_of(&v)),
                                _ => None,
                            };
                            Some(
                                (
                                    GooglePlace {
                                        id: string_of(&i),
                                        formatted_address: string_of(&f),
                                        price_level: tier,
                                        display_name: d,
                                        location: l,
                                    },
                                    r2,
                                ),
                            )
                        },
                        _ => None,
                    },
                    None => None,
                },
            }
        },
        None => None,
    }
}

/// Consumes a place object.
fn parse_place<'a>(s: &'a [char]) -> (r: Option<(GooglePlace, &'a [char])>)
    ensures
        match r {
            Some((v, rest)) => spec_place(s@) == Some((v@, rest@)),
            None => spec_place(s@) is None,
        },
{
    let r1 = match parse_lit(s, "{") {
        Some(r) => r,
        None => {
            return None;
        },
    };
    let r2 = skip_ws(r1);
    match parse_lit(r2, "}") {
        Some(_r3) => None,
        None => parse_place_members(r2, None, None, None, None, None),
    }
}

/// Consumes the elements of a non-empty place array.
fn parse_place_items<'a>(s: &'a [char]) -> (r: Option<(Vec<GooglePlace>, &'a [char])>)
    ensures
        match r {
            Some((ps, rest)) => spec_place_items(s@) == Some(
                (ps@.map_values(|p: GooglePlace| p@), rest@),
            ),
            None => spec_place_items(s@) is None,
        },
    decreases s@.len(),
{
    let (p, r1) = match parse_place(s) {
        Some(x) => x,
        None => {
            return None;
        },
    };
    let r2 = skip_ws(r1);
    match parse_lit(r2, ",") {
        Some(r3) => {
            let r4 = skip_ws(r3);
            if r4.len() < s.len() {
                match parse_place_items(r4) {
                    Some((tail, r5)) => {
                        let ghost before = tail@;
                        let mut ps = tail;
                        ps.insert(0, p);
                        proof {
                            assert(ps@ =~= seq![p] + before);
                            assert(ps@.map_values(|q: GooglePlace| q@) =~= seq![p@]
                                + before.map_values(|q: GooglePlace| q@));
                        }
                        Some((ps, r5))
                    },
                    None => None,
                }
            } else {
                None
            }
        },
        None => match parse_lit(r2, "]") {
            Some(r3) => {
                let mut ps: Vec<GooglePlace> = Vec::new();
                ps.push(p);
                proof {
                    assert(ps@.map_values(|q: GooglePlace| q@) =~= seq![p@]);
                }
                Some((ps, r3))
            },
            None => None,
        },
    }
}

/// Consumes a whole place array.
fn parse_places_array<'a>(s: &'a [char]) -> (r: Option<(Vec<GooglePlace>, &'a [char])>)
    ensures
        match r {
            Some((ps, rest)) => spec_places_array(s@) == Some(
                (ps@.map_values(|p: GooglePlace| p@), rest@),
            ),
            None => spec_places_array(s@) is None,
        },
{
    let r1 = match parse_lit(s, "[") {
        Some(r) => r,
        None => {
            return None;
        },
    };
    let r2 = skip_ws(r1);
    match parse_lit(r2, "]") {
        Some(r3) => {
            let ps: Vec<GooglePlace> = Vec::new();
            proof {
                assert(ps@.map_values(|q: GooglePlace| q@) =~= Seq::<PlaceView>::empty());
            }
            Some((ps, r3))
        },
        None => parse_place_items(r2),
    }
}

/// Consumes the places field's value.
fn parse_places_value<'a>(s: &'a [char]) -> (r: Option<(Option<Vec<GooglePlace>>, &'a [char])>)
    ensures
        match r {
            Some((ps, rest)) => spec_places_value(s@) matches Some((pv, rr)) && rr == rest@
                && (match ps {
                Some(v) => pv == Some(v@.map_values(|p: GooglePlace| p@)),
                None => pv is None,
            }),
            None => spec_places_value(s@) is None,
        },
{
    match parse_lit(s, "null") {
        Some(r) => Some((None, r)),
        None => match parse_places_array(s) {
            Some((ps, r)) => Some((Some(ps), r)),
            None => None,
        },
    }
}

/// Consumes the members of a places document.
fn parse_places_doc_members<'a>(s: &'a [char], acc: Option<Option<Vec<GooglePlace>>>) -> (r:
    Option<(GooglePlacesReponse, &'a [char])>)
    ensures
        match r {
            Some((doc, rest)) => spec_places_doc_members(
                s@,
                match acc {
                    Some(None) => Some(None),
                    Some(Some(ref v)) => Some(Some(v@.map_values(|p: GooglePlace| p@))),
                    None => None,
                },
            ) == Some((doc@, rest@)),
            None => spec_places_doc_members(
                s@,
                match acc {
                    Some(None) => Some(None),
                    Some(Some(ref v)) => Some(Some(v@.map_values(|p: GooglePlace| p@))),
                    None => None,
                },
            ) is None,
        },
    decreases s@.len(),
{
    let step: Option<(Option<Option<Vec<GooglePlace>>>, &'a [char])> = match parse_lit(
        s,
        "\"places\"",
    ) {
        Some(r1) => {
            if acc.is_some() {
                None
            } else {
                match parse_colon(r1) {
                    Some(r2) => match parse_places_value(r2) {
                        Some((v, r3)) => Some((Some(v), r3)),
                        None => None,
                    },
                    None => None,
                }
            }
        },
        None => match parse_string(s) {
            Some((_k, r1)) => match parse_colon(r1) {
                Some(r2) => match parse_skip_value(r2) {
                    Some(r3) => Some((acc, r3)),
                    None => None,
                },
                None => None,
            },
            None => None,
        },
    };
    match step {
        Some((acc2, r)) => {
            let r1 = skip_ws(r);
            match parse_lit(r1, ",") {
                Some(r2) => {
                    let r3 = skip_ws(r2);
                    if r3.len() < s.len() {
                        parse_places_doc_members(r3, acc2)
                    } else {
                        None
                    }
                },
                None => match parse_lit(r1, "}") {
                    Some(r2) => {
                        let places = match acc2 {
                            Some(v) => v,
                            None => None,
                        };
                        Some((GooglePlacesReponse { places }, r2))
                    },
                    None => None,
                },
            }
        },
        None => None,
    }
}

/// Parses a provider text-search response, exactly when the whole text is a
/// places document.
pub fn parse_places_response(s: &str) -> (r: Option<GooglePlacesReponse>)
    ensures
        match r {
            Some(doc) => spec_parse_places(s@) == Some(doc@),
            None => spec_parse_places(s@) is None,
        },
{
    let v = chars_of(s);
    let s0 = skip_ws(v.as_slice());
    let r1 = match parse_lit(s0, "{") {
        Some(r) => r,
        None => {
            return None;
        },
    };
    let r2 = skip_ws(r1);
    let parsed = match parse_lit(r2, "}") {
        Some(r3) => Some((GooglePlacesReponse { places: None }, r3)),
        None => parse_places_doc_members(r2, None),
    };
    match parsed {
        Some((doc, rest)) => {
            if skip_ws(rest).len() == 0 {
                Some(doc)
            } else {
                None
            }
        },
        None => None,
    }
}

// ---------------------------------------------------------------------------
// Rendering the places document: executable side
// ---------------------------------------------------------------------------

/// Appends a rendered coordinate object to `out`.
fn render_location_into(out: &mut Vec<char>, l: &Location)
    ensures
        final(out)@ == old(out)@ + spec_render_location(l@),
{
    push_lit(out, "{");
    push_lit(out, "\"latitude\"");
    push_lit(out, ":");
    push_lit(out, l.latitude.as_str());
    push_lit(out, ",");
    push_lit(out, "\"longitude\"");
    push_lit(out, ":");
    push_lit(out, l.longitude.as_str());
    push_lit(out, "}");
    proof {
        assert(out@ =~= old(out)@ + spec_render_location(l@));
    }
}

/// Appends a rendered display name object to `out`.
fn render_display_name_into(out: &mut Vec<char>, d: &DisplayName)
    ensures
        final(out)@ == old(out)@ + spec_render_display_name(d@),
{
    push_lit(out, "{");
    push_lit(out, "\"text\"");
    push_lit(out, ":");
    push_json_string(out, d.text.as_str());
    match &d.language_code {
        Some(lc) => {
            push_lit(out, ",");
            push_lit(out, "\"languageCode\"");
            push_lit(out, ":");
            push_json_string(out, lc.as_str());
        },
        None => {},
    }
    push_lit(out, "}");
    proof {
        assert(out@ =~= old(out)@ + spec_render_display_name(d@));
    }
}

/// Appends a rendered place object to `out`.
#[verifier::rlimit(100)]
fn render_place_into(out: &mut Vec<char>, p: &GooglePlace)
    ensures
        final(out)@ == old(out)@ + spec_render_place(p@),
{
    push_lit(out, "{");
    push_lit(out, "\"id\"");
    push_lit(out, ":");
    push_json_string(out, p.id.as_str());
    push_lit(out, ",");
    push_lit(out, "\"formattedAddress\"");
    push_lit(out, ":");
    push_json_string(out, p.formatted_address.as_str());
    match &p.price_level {
        Some(pl) => {
            push_lit(out, ",");
            push_lit(out, "\"priceLevel\"");
            push_lit(out, ":");
            push_json_string(out, pl.as_str());
        },
        None => {},
    }
    push_lit(out, ",");
    push_lit(out, "\"displayName\"");
    push_lit(out, ":");
    render_display_name_into(out, &p.display_name);
    push_lit(out, ",");
    push_lit(out, "\"location\"");
    push_lit(out, ":");
    render_location_into(out, &p.location);
    push_lit(out, "}");
    proof {
        assert(out@ =~= old(out)@ + spec_render_place(p@));
    }
}

/// A rendered place list grows at its right end by a comma and one place.
proof fn lemma_place_items_snoc(ps: Seq<PlaceView>, p: PlaceView)
    ensures
        spec_render_place_items(ps.push(p)) == if ps.len() == 0 {
            spec_render_place(p)
        } else {
            spec_render_place_items(ps) + ","@ + spec_render_place(p)
        },
    decreases ps.len(),
{
    let w = ps.push(p);
    if ps.len() == 0 {
        assert(w.len() == 1);
        assert(w[0] == p);
    } else {
        let t = ps.subrange(1, ps.len() as int);
        assert(w.subrange(1, w.len() as int) =~= t.push(p));
        lemma_place_items_snoc(t, p);
        assert(w[0] == ps[0]);
        if ps.len() == 1 {
            assert(t.len() == 0);
            assert(spec_render_place_items(w) =~= spec_render_place_items(ps) + ","@
                + spec_render_place(p));
        } else {
            assert(spec_render_place_items(w) =~= spec_render_place_items(ps) + ","@
                + spec_render_place(p));
        }
    }
}

/// Renders a places document, character for character as
/// `spec_render_places_doc` states.
pub fn render_places_response(doc: &GooglePlacesReponse) -> (r: String)
    ensures
        r@ == spec_render_places_doc(doc@),
{
    let mut out: Vec<char> = Vec::new();
    push_lit(&mut out, "{");
    push_lit(&mut out, "\"places\"");
    push_lit(&mut out, ":");
    match &doc.places {
        None => {
            push_lit(&mut out, "null");
        },
        Some(ps) => {
            push_lit(&mut out, "[");
            let ghost m = ps@.map_values(|q: GooglePlace| q@);
            let ghost pre = out@;
            let n = ps.len();
            let mut i: usize = 0;
            while i < n
                invariant
                    n == ps@.len(),
                    i <= n,
                    m == ps@.map_values(|q: GooglePlace| q@),
                    out@ == pre + spec_render_place_items(m.take(i as int)),
                decreases n - i,
            {
                if i > 0 {
                    push_lit(&mut out, ",");
                }
                render_place_into(&mut out, &ps[i]);
                proof {
                    assert(m.take(i + 1) =~= m.take(i as int).push(m[i as int]));
                    lemma_place_items_snoc(m.take(i as int), m[i as int]);
                    assert(m[i as int] == ps@[i as int]@);
                    if i == 0 {
                        assert(m.take(0) =~= Seq::<PlaceView>::empty());
                        assert(spec_render_place_items(m.take(0)) =~= Seq::<char>::empty());
                        assert(out@ =~= pre + spec_render_place_items(m.take(i + 1)));
                    } else {
                        assert(out@ =~= pre + spec_render_place_items(m.take(i + 1)));
                    }
                }
                i = i + 1;
            }
            proof {
                assert(m.take(n as int) =~= m);
            }
            push_lit(&mut out, "]");
        },
    }
    push_lit(&mut out, "}");
    proof {
        assert(out@ =~= spec_render_places_doc(doc@));
    }
    string_of(&out)
}

// ---------------------------------------------------------------------------
// The round-trip law
// ---------------------------------------------------------------------------

#[verifier::rlimit(100)]
proof fn lemma_location_eats(l: LocationView, rest: Seq<char>)
    requires
        l.wf(),
    ensures
        spec_location(spec_render_location(l) + rest) == Some((l, rest)),
{
    reveal_strlit("{");
    reveal_strlit("}");
    reveal_strlit(",");
    reveal_strlit(":");
    reveal_strlit("\"latitude\"");
    reveal_strlit("\"longitude\"");
    let s = spec_render_location(l) + rest;
    let c1 = "}"@ + rest;
    let c2 = ":"@ + (l.longitude + c1);
    let t2 = "\"longitude\""@ + c2;
    let c3 = ","@ + t2;
    let c4 = ":"@ + (l.latitude + c3);
    let t1 = "\"latitude\""@ + c4;
    assert(s =~= "{"@ + t1);
    lemma_lit_eats("{"@, t1);
    assert(t1[0] == '"');
    lemma_ws_none(t1);
    lemma_lit_miss(t1, "}"@, 0);
    lemma_lit_eats("\"latitude\""@, c4);
    assert(!is_ws_char(l.latitude[0]));
    lemma_colon_eats(l.latitude + c3);
    assert(c3[0] == ',');
    lemma_number_eats(l.latitude, c3);
    lemma_ws_none(c3);
    lemma_lit_eats(","@, t2);
    assert(t2[0] == '"');
    lemma_ws_none(t2);
    assert(t2.len() < t1.len());
    assert(t2[2] == 'o');
    lemma_lit_miss(t2, "\"latitude\""@, 2);
    lemma_lit_eats("\"longitude\""@, c2);
    assert(!is_ws_char(l.longitude[0]));
    lemma_colon_eats(l.longitude + c1);
    assert(c1[0] == '}');
    lemma_number_eats(l.longitude, c1);
    lemma_ws_none(c1);
    lemma_lit_miss(c1, ","@, 0);
    lemma_lit_eats("}"@, rest);
    assert(spec_location_members(t2, Some(l.latitude), None) == Some((l, rest)));
    assert(spec_location_members(t1, None, None) == Some((l, rest)));
    assert(spec_location(s) == Some((l, rest)));
}

#[verifier::rlimit(100)]
proof fn lemma_display_name_eats(d: DisplayNameView, rest: Seq<char>)
    ensures
        spec_display_name(spec_render_display_name(d) + rest) == Some((d, rest)),
{
    reveal_strlit("{");
    reveal_strlit("}");
    reveal_strlit(",");
    reveal_strlit("\"text\"");
    reveal_strlit("\"languageCode\"");
    let s = spec_render_display_name(d) + rest;
    match d.language_code {
        None => {
            let c1 = "}"@ + rest;
            let c2 = ":"@ + (spec_json_string(d.text) + c1);
            let t1 = "\"text\""@ + c2;
            assert(s =~= "{"@ + t1);
            lemma_lit_eats("{"@, t1);
            assert(t1[0] == '"');
            lemma_ws_none(t1);
            lemma_lit_miss(t1, "}"@, 0);
            lemma_lit_eats("\"text\""@, c2);
            lemma_colon_eats(spec_json_string(d.text) + c1);
            lemma_string_eats(d.text, c1);
            lemma_ws_none(c1);
            lemma_lit_miss(c1, ","@, 0);
            lemma_lit_eats("}"@, rest);
            assert(spec_display_name_members(t1, None, None) == Some((d, rest)));
            assert(spec_display_name(s) == Some((d, rest)));
        },
        Some(lc) => {
            let c1 = "}"@ + rest;
            let c2 = ":"@ + (spec_json_string(lc) + c1);
            let t2 = "\"languageCode\""@ + c2;
            let c3 = ","@ + t2;
            let c4 = ":"@ + (spec_json_string(d.text) + c3);
            let t1 = "\"text\""@ + c4;
            assert(s =~= "{"@ + t1);
            lemma_lit_eats("{"@, t1);
            assert(t1[0] == '"');
            lemma_ws_none(t1);
            lemma_lit_miss(t1, "}"@, 0);
            lemma_lit_eats("\"text\""@, c4);
            lemma_colon_eats(spec_json_string(d.text) + c3);
            lemma_string_eats(d.text, c3);
            assert(c3[0] == ',');
            lemma_ws_none(c3);
            lemma_lit_eats(","@, t2);
            assert(t2[0] == '"');
            lemma_ws_none(t2);
            assert(t2.len() < t1.len());
            assert(t2[1] == 'l');
            lemma_lit_miss(t2, "\"text\""@, 1);
            lemma_lit_eats("\"languageCode\""@, c2);
            lemma_colon_eats(spec_json_string(lc) + c1);
            lemma_json_string_not_null(lc, c1);
            lemma_string_eats(lc, c1);
            lemma_ws_none(c1);
            lemma_lit_miss(c1, ","@, 0);
            lemma_lit_eats("}"@, rest);
            assert(spec_display_name_members(t2, Some(d.text), None) == Some((d, rest)));
            assert(spec_display_name_members(t1, None, None) == Some((d, rest)));
            assert(spec_display_name(s) == Some((d, rest)));
        },
    }
}

proof fn lemma_place_eats(p: PlaceView, rest: Seq<char>)
    requires
        p.wf(),
    ensures
        spec_place(spec_render_place(p) + rest) == Some((p, rest)),
{
    if p.price_level is None {
        lemma_place_eats_no_price(p, rest);
    } else {
        lemma_place_eats_price(p, rest);
    }
}

#[verifier::rlimit(100)]
proof fn lemma_place_eats_no_price_tail(p: PlaceView, rest: Seq<char>)
    requires
        p.wf(),
        p.price_level is None,
    ensures
        ({
            let c0 = "}"@ + rest;
            let c1 = ":"@ + (spec_render_location(p.location) + c0);
            let t5 = "\"location\""@ + c1;
            let c2 = ","@ + t5;
            let c3 = ":"@ + (spec_render_display_name(p.display_name) + c2);
            let t4 = "\"displayName\""@ + c3;
            spec_place_members(t4, Some(p.id), Some(p.formatted_address), None, None, None)
                == Some((p, rest))
        }),
{
    reveal_strlit("{");
    reveal_strlit("}");
    reveal_strlit(",");
    reveal_strlit("\"id\"");
    reveal_strlit("\"formattedAddress\"");
    reveal_strlit("\"priceLevel\"");
    reveal_strlit("\"displayName\"");
    reveal_strlit("\"location\"");
    let c0 = "}"@ + rest;
    let c1 = ":"@ + (spec_render_location(p.location) + c0);
    let t5 = "\"location\""@ + c1;
    let c2 = ","@ + t5;
    let c3 = ":"@ + (spec_render_display_name(p.display_name) + c2);
    let t4 = "\"displayName\""@ + c3;
    lemma_display_name_eats(p.display_name, c2);
    lemma_location_eats(p.location, c0);
    assert(spec_render_display_name(p.display_name)[0] == '{');
    assert(spec_render_location(p.location)[0] == '{');
    assert(t4[1] == 'd');
    lemma_lit_miss(t4, "\"id\""@, 1);
    lemma_lit_miss(t4, "\"formattedAddress\""@, 1);
    lemma_lit_miss(t4, "\"priceLevel\""@, 1);
    lemma_lit_eats("\"displayName\""@, c3);
    lemma_colon_eats(spec_render_display_name(p.display_name) + c2);
    assert(c2[0] == ',');
    lemma_ws_none(c2);
    lemma_lit_eats(","@, t5);
    assert(t5[0] == '"');
    lemma_ws_none(t5);
    assert(t5[1] == 'l');
    lemma_lit_miss(t5, "\"id\""@, 1);
    lemma_lit_miss(t5, "\"formattedAddress\""@, 1);
    lemma_lit_miss(t5, "\"priceLevel\""@, 1);
    lemma_lit_miss(t5, "\"displayName\""@, 1);
    lemma_lit_eats("\"location\""@, c1);
    lemma_colon_eats(spec_render_location(p.location) + c0);
    lemma_ws_none(c0);
    lemma_lit_miss(c0, ","@, 0);
    lemma_lit_eats("}"@, rest);
    assert(t5.len() < t4.len());
    let id = Some(p.id);
    let fa = Some(p.formatted_address);
    assert(spec_place_member_step(t5, id, fa, None, Some(p.display_name), None) == Some(
        (id, fa, None::<Option<Seq<char>>>, Some(p.display_name), Some(p.location), c0),
    ));
    assert(spec_place_members(t5, id, fa, None, Some(p.display_name), None) == Some((p, rest)));
    assert(spec_place_member_step(t4, id, fa, None, None, None) == Some(
        (id, fa, None::<Option<Seq<char>>>, Some(p.display_name), None::<LocationView>, c2),
    ));
    assert(spec_place_members(t4, id, fa, None, None, None) == Some((p, rest)));
}

#[verifier::rlimit(100)]
proof fn lemma_place_eats_no_price(p: PlaceView, rest: Seq<char>)
    requires
        p.wf(),
        p.price_level is None,
    ensures
        spec_place(spec_render_place(p) + rest) == Some((p, rest)),
{
    reveal_strlit("{");
    reveal_strlit("}");
    reveal_strlit(",");
    reveal_strlit("\"id\"");
    reveal_strlit("\"formattedAddress\"");
    reveal_strlit("\"priceLevel\"");
    reveal_strlit("\"displayName\"");
    reveal_strlit("\"location\"");
    let s = spec_render_place(p) + rest;
    let c0 = "}"@ + rest;
    let c1 = ":"@ + (spec_render_location(p.location) + c0);
    let t5 = "\"location\""@ + c1;
    let c2 = ","@ + t5;
    let c3 = ":"@ + (spec_render_display_name(p.display_name) + c2);
    let t4 = "\"displayName\""@ + c3;
    let c4 = ","@ + t4;
    let c5 = ":"@ + (spec_json_string(p.formatted_address) + c4);
    let t2 = "\"formattedAddress\""@ + c5;
    let c6 = ","@ + t2;
    let c7 = ":"@ + (spec_json_string(p.id) + c6);
    let t1 = "\"id\""@ + c7;
    assert(s =~= "{"@ + t1);
    lemma_lit_eats("{"@, t1);
    assert(t1[0] == '"');
    lemma_ws_none(t1);
    lemma_lit_miss(t1, "}"@, 0);
    lemma_lit_eats("\"id\""@, c7);
    lemma_colon_eats(spec_json_string(p.id) + c6);
    lemma_string_eats(p.id, c6);
    assert(c6[0] == ',');
    lemma_ws_none(c6);
    lemma_lit_eats(","@, t2);
    assert(t2[0] == '"');
    lemma_ws_none(t2);
    assert(t2[1] == 'f');
    lemma_lit_miss(t2, "\"id\""@, 1);
    lemma_lit_eats("\"formattedAddress\""@, c5);
    lemma_colon_eats(spec_json_string(p.formatted_address) + c4);
    lemma_string_eats(p.formatted_address, c4);
    assert(c4[0] == ',');
    lemma_ws_none(c4);
    lemma_lit_eats(","@, t4);
    assert(t4[0] == '"');
    lemma_ws_none(t4);
    assert(t2.len() < t1.len());
    assert(t4.len() < t2.len());
    lemma_place_eats_no_price_tail(p, rest);
    let id = Some(p.id);
    let fa = Some(p.formatted_address);
    assert(spec_place_members(t4, id, fa, None, None, None) == Some((p, rest)));
    assert(spec_place_member_step(t2, id, None, None, None, None) == Some(
        (id, fa, None::<Option<Seq<char>>>, None::<DisplayNameView>, None::<LocationView>, c4),
    ));
    assert(spec_place_members(t2, id, None, None, None, None) == Some((p, rest)));
    assert(spec_place_member_step(t1, None, None, None, None, None) == Some(
        (id, None::<Seq<char>>, None::<Option<Seq<char>>>, None::<DisplayNameView>, None::<LocationView>, c6),
    ));
    assert(spec_place_members(t1, None, None, None, None, None) == Some((p, rest)));
    assert(spec_place(s) == Some((p, rest)));
}

#[verifier::rlimit(100)]
proof fn lemma_place_eats_price_tail(p: PlaceView, rest: Seq<char>)
    requires
        p.wf(),
        p.price_level is Some,
    ensures
        ({
            let c0 = "}"@ + rest;
            let c1 = ":"@ + (spec_render_location(p.location) + c0);
            let t5 = "\"location\""@ + c1;
            let c2 = ","@ + t5;
            let c3 = ":"@ + (spec_render_display_name(p.display_name) + c2);
            let t4 = "\"displayName\""@ + c3;
            let c4 = ","@ + t4;
            let c8 = ":"@ + (spec_json_string(p.price_level.unwrap()) + c4);
            let t3 = "\"priceLevel\""@ + c8;
            spec_place_members(t3, Some(p.id), Some(p.formatted_address), None, None, None)
                == Some((p, rest))
        }),
{
    reveal_strlit("{");
    reveal_strlit("}");
    reveal_strlit(",");
    reveal_strlit("\"id\"");
    reveal_strlit("\"formattedAddress\"");
    reveal_strlit("\"priceLevel\"");
    reveal_strlit("\"displayName\"");
    reveal_strlit("\"location\"");
    let pl = p.price_level.unwrap();
    let c0 = "}"@ + rest;
    let c1 = ":"@ + (spec_render_location(p.location) + c0);
    let t5 = "\"location\""@ + c1;
    let c2 = ","@ + t5;
    let c3 = ":"@ + (spec_render_display_name(p.display_name) + c2);
    let t4 = "\"displayName\""@ + c3;
    let c4 = ","@ + t4;
    let c8 = ":"@ + (spec_json_string(pl) + c4);
    let t3 = "\"priceLevel\""@ + c8;
    lemma_display_name_eats(p.display_name, c2);
    lemma_location_eats(p.location, c0);
    assert(spec_render_display_name(p.display_name)[0] == '{');
    assert(spec_render_location(p.location)[0] == '{');
    assert(t4[1] == 'd');
    lemma_lit_miss(t4, "\"id\""@, 1);
    lemma_lit_miss(t4, "\"formattedAddress\""@, 1);
    lemma_lit_miss(t4, "\"priceLevel\""@, 1);
    lemma_lit_eats("\"displayName\""@, c3);
    lemma_colon_eats(spec_render_display_name(p.display_name) + c2);
    assert(c2[0] == ',');
    lemma_ws_none(c2);
    lemma_lit_eats(","@, t5);
    assert(t5[0] == '"');
    lemma_ws_none(t5);
    assert(t5[1] == 'l');
    lemma_lit_miss(t5, "\"id\""@, 1);
    lemma_lit_miss(t5, "\"formattedAddress\""@, 1);
    lemma_lit_miss(t5, "\"priceLevel\""@, 1);
    lemma_lit_miss(t5, "\"displayName\""@, 1);
    lemma_lit_eats("\"location\""@, c1);
    lemma_colon_eats(spec_render_location(p.location) + c0);
    lemma_ws_none(c0);
    lemma_lit_miss(c0, ","@, 0);
    lemma_lit_eats("}"@, rest);
    assert(t3[0] == '"');
    assert(t3[1] == 'p');
    lemma_lit_miss(t3, "\"id\""@, 1);
    lemma_lit_miss(t3, "\"formattedAddress\""@, 1);
    lemma_lit_eats("\"priceLevel\""@, c8);
    lemma_colon_eats(spec_json_string(pl) + c4);
    lemma_json_string_not_null(pl, c4);
    lemma_string_eats(pl, c4);
    assert(c4[0] == ',');
    lemma_ws_none(c4);
    lemma_lit_eats(","@, t4);
    assert(t4[0] == '"');
    lemma_ws_none(t4);
    assert(t4.len() < t3.len());
    assert(t5.len() < t4.len());
    let id = Some(p.id);
    let fa = Some(p.formatted_address);
    let plo = Some(Some(pl));
    assert(p.price_level == Some(pl));
    assert(spec_place_member_step(t5, id, fa, plo, Some(p.display_name), None) == Some(
        (id, fa, plo, Some(p.display_name), Some(p.location), c0),
    ));
    assert(spec_place_members(t5, id, fa, plo, Some(p.display_name), None) == Some((p, rest)));
    assert(spec_place_member_step(t4, id, fa, plo, None, None) == Some(
        (id, fa, plo, Some(p.display_name), None::<LocationView>, c2),
    ));
    assert(spec_place_members(t4, id, fa, plo, None, None) == Some((p, rest)));
    assert(spec_place_member_step(t3, id, fa, None, None, None) == Some(
        (id, fa, plo, None::<DisplayNameView>, None::<LocationView>, c4),
    ));
    assert(spec_place_members(t3, id, fa, None, None, None) == Some((p, rest)));
}

#[verifier::rlimit(100)]
proof fn lemma_place_eats_price(p: PlaceView, rest: Seq<char>)
    requires
        p.wf(),
        p.price_level is Some,
    ensures
        spec_place(spec_render_place(p) + rest) == Some((p, rest)),
{
    reveal_strlit("{");
    reveal_strlit("}");
    reveal_strlit(",");
    reveal_strlit("\"id\"");
    reveal_strlit("\"formattedAddress\"");
    reveal_strlit("\"priceLevel\"");
    reveal_strlit("\"displayName\"");
    reveal_strlit("\"location\"");
    let pl = p.price_level.unwrap();
    let s = spec_render_place(p) + rest;
    let c0 = "}"@ + rest;
    let c1 = ":"@ + (spec_render_location(p.location) + c0);
    let t5 = "\"location\""@ + c1;
    let c2 = ","@ + t5;
    let c3 = ":"@ + (spec_render_display_name(p.display_name) + c2);
    let t4 = "\"displayName\""@ + c3;
    let c4 = ","@ + t4;
    let c8 = ":"@ + (spec_json_string(pl) + c4);
    let t3 = "\"priceLevel\""@ + c8;
    let c9 = ","@ + t3;
    let c5 = ":"@ + (spec_json_string(p.formatted_address) + c9);
    let t2 = "\"formattedAddress\""@ + c5;
    let c6 = ","@ + t2;
    let c7 = ":"@ + (spec_json_string(p.id) + c6);
    let t1 = "\"id\""@ + c7;
    assert(p.price_level == Some(pl));
    assert(s =~= "{"@ + t1);
    lemma_lit_eats("{"@, t1);
    assert(t1[0] == '"');
    lemma_ws_none(t1);
    lemma_lit_miss(t1, "}"@, 0);
    lemma_lit_eats("\"id\""@, c7);
    lemma_colon_eats(spec_json_string(p.id) + c6);
    lemma_string_eats(p.id, c6);
    assert(c6[0] == ',');
    lemma_ws_none(c6);
    lemma_lit_eats(","@, t2);
    assert(t2[0] == '"');
    lemma_ws_none(t2);
    assert(t2[1] == 'f');
    lemma_lit_miss(t2, "\"id\""@, 1);
    lemma_lit_eats("\"formattedAddress\""@, c5);
    lemma_colon_eats(spec_json_string(p.formatted_address) + c9);
    lemma_string_eats(p.formatted_address, c9);
    assert(c9[0] == ',');
    lemma_ws_none(c9);
    lemma_lit_eats(","@, t3);
    assert(t3[0] == '"');
    lemma_ws_none(t3);
    assert(t2.len() < t1.len());
    assert(t3.len() < t2.len());
    lemma_place_eats_price_tail(p, rest);
    let id = Some(p.id);
    let fa = Some(p.formatted_address);
    assert(spec_place_members(t3, id, fa, None, None, None) == Some((p, rest)));
    assert(spec_place_member_step(t2, id, None, None, None, None) == Some(
        (id, fa, None::<Option<Seq<char>>>, None::<DisplayNameView>, None::<LocationView>, c9),
    ));
    assert(spec_place_members(t2, id, None, None, None, None) == Some((p, rest)));
    assert(spec_place_member_step(t1, None, None, None, None, None) == Some(
        (id, None::<Seq<char>>, None::<Option<Seq<char>>>, None::<DisplayNameView>, None::<LocationView>, c6),
    ));
    assert(spec_place_members(t1, None, None, None, None, None) == Some((p, rest)));
    assert(spec_place(s) == Some((p, rest)));
}

proof fn lemma_place_items_eats(ps: Seq<PlaceView>, rest: Seq<char>)
    requires
        ps.len() >= 1,
        forall|i: int| 0 <= i < ps.len() ==> (#[trigger] ps[i]).wf(),
    ensures
        spec_place_items(spec_render_place_items(ps) + "]"@ + rest) == Some((ps, rest)),
    decreases ps.len(),
{
    if ps.len() == 1 {
        lemma_place_items_eats_last(ps, rest);
    } else {
        let tail = ps.subrange(1, ps.len() as int);
        lemma_place_items_eats(tail, rest);
        lemma_place_items_eats_step(ps, rest);
    }
}

#[verifier::rlimit(100)]
proof fn lemma_place_items_eats_last(ps: Seq<PlaceView>, rest: Seq<char>)
    requires
        ps.len() == 1,
        ps[0].wf(),
    ensures
        spec_place_items(spec_render_place_items(ps) + "]"@ + rest) == Some((ps, rest)),
{
    let cb = "]"@;
    let cm = ","@;
    let s = spec_render_place_items(ps) + cb + rest;
    reveal_strlit("]");
    reveal_strlit(",");
    assert(s =~= spec_render_place(ps[0]) + (cb + rest));
    lemma_place_eats(ps[0], cb + rest);
    assert((cb + rest)[0] == ']');
    lemma_ws_none(cb + rest);
    lemma_lit_miss(cb + rest, cm, 0);
    lemma_lit_eats(cb, rest);
    assert(seq![ps[0]] =~= ps);
}

/// A rendered place starts with its opening brace.
#[verifier::rlimit(100)]
proof fn lemma_render_place_head(p: PlaceView)
    ensures
        spec_render_place(p).len() > 0,
        spec_render_place(p)[0] == '{',
{
    reveal_strlit("{");
}

/// A rendered list of two or more places splits off its first element.
#[verifier::rlimit(100)]
proof fn lemma_items_split(ps: Seq<PlaceView>, rest: Seq<char>)
    requires
        ps.len() >= 2,
    ensures
        spec_render_place_items(ps) + "]"@ + rest == spec_render_place(ps[0]) + (","@ + (
        spec_render_place_items(ps.subrange(1, ps.len() as int)) + "]"@ + rest)),
{
    assert(spec_render_place_items(ps) + "]"@ + rest =~= spec_render_place(ps[0]) + (","@ + (
    spec_render_place_items(ps.subrange(1, ps.len() as int)) + "]"@ + rest)));
}

#[verifier::rlimit(100)]
proof fn lemma_place_items_eats_step(ps: Seq<PlaceView>, rest: Seq<char>)
    requires
        ps.len() >= 2,
        forall|i: int| 0 <= i < ps.len() ==> (#[trigger] ps[i]).wf(),
        spec_place_items(
            spec_render_place_items(ps.subrange(1, ps.len() as int)) + "]"@ + rest,
        ) == Some((ps.subrange(1, ps.len() as int), rest)),
    ensures
        spec_place_items(spec_render_place_items(ps) + "]"@ + rest) == Some((ps, rest)),
{
    let cb = "]"@;
    let cm = ","@;
    let s = spec_render_place_items(ps) + cb + rest;
    reveal_strlit("]");
    reveal_strlit(",");
    let tail = ps.subrange(1, ps.len() as int);
    let inner = spec_render_place_items(tail) + cb + rest;
    let r1 = cm + inner;
    lemma_items_split(ps, rest);
    lemma_place_eats(ps[0], r1);
    assert(r1[0] == ',');
    lemma_ws_none(r1);
    lemma_lit_eats(cm, inner);
    lemma_render_place_head(tail[0]);
    assert(spec_render_place_items(tail)[0] == '{');
    assert(spec_render_place_items(tail).len() > 0);
    assert(inner[0] == '{');
    lemma_ws_none(inner);
    assert(inner.len() < s.len());
    assert(seq![ps[0]] + tail =~= ps);
}

#[verifier::rlimit(100)]
proof fn lemma_places_doc_eats(doc: PlacesDocView, rest: Seq<char>)
    requires
        doc.wf(),
    ensures
        spec_places_doc(spec_render_places_doc(doc) + rest) == Some((doc, rest)),
{
    reveal_strlit("{");
    reveal_strlit("}");
    reveal_strlit(",");
    reveal_strlit("\"places\"");
    reveal_strlit("null");
    reveal_strlit("[");
    reveal_strlit("]");
    let s = spec_render_places_doc(doc) + rest;
    let c0 = "}"@ + rest;
    let c1 = ":"@ + (spec_render_places_value(doc.places) + c0);
    let t1 = "\"places\""@ + c1;
    assert(s =~= "{"@ + t1);
    lemma_lit_eats("{"@, t1);
    assert(t1[0] == '"');
    lemma_ws_none(t1);
    lemma_lit_miss(t1, "}"@, 0);
    lemma_lit_eats("\"places\""@, c1);
    lemma_ws_none(c0);
    lemma_lit_miss(c0, ","@, 0);
    lemma_lit_eats("}"@, rest);
    match doc.places {
        None => {
            lemma_colon_eats("null"@ + c0);
            lemma_lit_eats("null"@, c0);
            assert(spec_places_value("null"@ + c0) == Some((None::<Seq<PlaceView>>, c0)));
            assert(spec_places_doc_members(t1, None) == Some(
                (PlacesDocView { places: None }, rest),
            ));
            assert(PlacesDocView { places: None } == doc);
            assert(spec_places_doc(s) == Some((doc, rest)));
        },
        Some(items) => {
            let inner = spec_render_place_items(items) + ("]"@ + c0);
            let arr = "["@ + inner;
            assert(spec_render_places_value(doc.places) + c0 =~= arr);
            lemma_colon_eats(arr);
            assert(arr[0] == '[');
            lemma_lit_miss(arr, "null"@, 0);
            lemma_lit_eats("["@, inner);
            if items.len() == 0 {
                assert(inner =~= "]"@ + c0);
                assert(inner[0] == ']');
                lemma_ws_none(inner);
                lemma_lit_eats("]"@, c0);
                assert(spec_places_array(arr) == Some((Seq::<PlaceView>::empty(), c0)));
                assert(items =~= Seq::<PlaceView>::empty());
                assert(spec_places_value(arr) == Some((Some(items), c0)));
                assert(spec_places_doc_members(t1, None) == Some(
                    (PlacesDocView { places: Some(items) }, rest),
                ));
                assert(PlacesDocView { places: Some(items) } == doc);
                assert(spec_places_doc(s) == Some((doc, rest)));
            } else {
                assert(spec_render_place(items[0])[0] == '{');
                assert(inner[0] == '{');
                lemma_ws_none(inner);
                lemma_lit_miss(inner, "]"@, 0);
                assert(inner =~= spec_render_place_items(items) + "]"@ + c0);
                lemma_place_items_eats(items, c0);
                assert(spec_places_array(arr) == Some((items, c0)));
                assert(spec_places_value(arr) == Some((Some(items), c0)));
                assert(spec_places_doc_members(t1, None) == Some(
                    (PlacesDocView { places: Some(items) }, rest),
                ));
                assert(PlacesDocView { places: Some(items) } == doc);
                assert(spec_places_doc(s) == Some((doc, rest)));
            }
        },
    }
}

/// Round trip: a well-formed places document, rendered by the relay and
/// parsed back, is returned unchanged — the list and its order, every
/// field of every place, and the absence of any omitted optional field are
/// all preserved. An absent place list comes back absent, not as an error.
pub proof fn lemma_places_round_trip(doc: PlacesDocView)
    requires
        doc.wf(),
    ensures
        spec_parse_places(spec_render_places_doc(doc)) == Some(doc),
{
    reveal_strlit("{");
    let s = spec_render_places_doc(doc);
    assert(s[0] == '{');
    lemma_ws_none(s);
    lemma_places_doc_eats(doc, Seq::<char>::empty());
    assert(s + Seq::<char>::empty() =~= s);
    lemma_ws_none(Seq::<char>::empty());
}

} // verus!
