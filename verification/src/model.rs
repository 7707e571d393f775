//! The relay's value objects: per-request records with no identity beyond
//! the request. Numeric fields (coordinates, distances) are carried as the
//! decimal text the provider writes them in; the relay never interprets them
//! as quantities, it only moves them between documents.

use vstd::prelude::*;
use crate::json::is_number_token;

verus! {

/// A geographic coordinate, each component held as its number token.
pub struct Location {
    pub latitude: String,
    pub longitude: String,
}

pub struct LocationView {
    pub latitude: Seq<char>,
    pub longitude: Seq<char>,
}

impl View for Location {
    type V = LocationView;

    open spec fn view(&self) -> LocationView {
        LocationView { latitude: self.latitude@, longitude: self.longitude@ }
    }
}

impl LocationView {
    /// Both components have the shape of number tokens.
    pub open spec fn wf(self) -> bool {
        is_number_token(self.latitude) && is_number_token(self.longitude)
    }
}

/// A place's display name: text with an optional language tag.
pub struct DisplayName {
    pub text: String,
    pub language_code: Option<String>,
}

pub struct DisplayNameView {
    pub text: Seq<char>,
    pub language_code: Option<Seq<char>>,
}

impl View for DisplayName {
    type V = DisplayNameView;

    open spec fn view(&self) -> DisplayNameView {
        DisplayNameView {
            text: self.text@,
            language_code: match self.language_code {
                Some(ref s) => Some(s@),
                None => None,
            },
        }
    }
}

/// One place record of the provider's text-search response. The optional
/// price tier propagates the provider's omission rather than a default.
pub struct GooglePlace {
    pub id: String,
    pub formatted_address: String,
    pub price_level: Option<String>,
    pub display_name: DisplayName,
    pub location: Location,
}

pub struct PlaceView {
    pub id: Seq<char>,
    pub formatted_address: Seq<char>,
    pub price_level: Option<Seq<char>>,
    pub display_name: DisplayNameView,
    pub location: LocationView,
}

impl View for GooglePlace {
    type V = PlaceView;

    open spec fn view(&self) -> PlaceView {
        PlaceView {
            id: self.id@,
            formatted_address: self.formatted_address@,
            price_level: match self.price_level {
                Some(ref s) => Some(s@),
                None => None,
            },
            display_name: self.display_name@,
            location: self.location@,
        }
    }
}

impl PlaceView {
    pub open spec fn wf(self) -> bool {
        self.location.wf()
    }
}

/// The provider's text-search document: a list of places, or null for
/// zero results, which the relay preserves rather than treating as an error.
pub struct GooglePlacesReponse {
    pub places: Option<Vec<GooglePlace>>,
}

pub struct PlacesDocView {
    pub places: Option<Seq<PlaceView>>,
}

impl View for GooglePlacesReponse {
    type V = PlacesDocView;

    open spec fn view(&self) -> PlacesDocView {
        PlacesDocView {
            places: match self.places {
                Some(ref v) => Some(v@.map_values(|p: GooglePlace| p@)),
                None => None,
            },
        }
    }
}

impl PlacesDocView {
    pub open spec fn wf(self) -> bool {
        match self.places {
            Some(ps) => forall|i: int| 0 <= i < ps.len() ==> (#[trigger] ps[i]).wf(),
            None => true,
        }
    }
}

/// A client's place-search request: a free-text query.
pub struct GooglePlacesRequest {
    pub text_query: String,
}

/// A client's route request: origin, destination, departure timestamp.
/// The timestamp is passed along unparsed.
pub struct GetRouteRequestBody {
    pub origin_location: Location,
    pub destination_location: Location,
    pub departure_time: String,
}

pub struct RouteRequestView {
    pub origin_location: LocationView,
    pub destination_location: LocationView,
    pub departure_time: Seq<char>,
}

impl View for GetRouteRequestBody {
    type V = RouteRequestView;

    open spec fn view(&self) -> RouteRequestView {
        RouteRequestView {
            origin_location: self.origin_location@,
            destination_location: self.destination_location@,
            departure_time: self.departure_time@,
        }
    }
}

impl RouteRequestView {
    pub open spec fn wf(self) -> bool {
        self.origin_location.wf() && self.destination_location.wf()
    }
}

/// A route's polyline: the provider's opaque encoded string, not decoded.
pub struct Polyline {
    pub encoded_polyline: String,
}

impl View for Polyline {
    type V = Seq<char>;

    open spec fn view(&self) -> Seq<char> {
        self.encoded_polyline@
    }
}

/// One candidate route of the provider's compute-routes response: distance
/// token, provider-formatted duration, encoded polyline, all unchanged.
pub struct RoutesResponse {
    pub distance_meters: String,
    pub duration: String,
    pub polyline: Polyline,
}

pub struct RouteView {
    pub distance_meters: Seq<char>,
    pub duration: Seq<char>,
    pub encoded_polyline: Seq<char>,
}

impl View for RoutesResponse {
    type V = RouteView;

    open spec fn view(&self) -> RouteView {
        RouteView {
            distance_meters: self.distance_meters@,
            duration: self.duration@,
            encoded_polyline: self.polyline@,
        }
    }
}

impl RouteView {
    pub open spec fn wf(self) -> bool {
        is_number_token(self.distance_meters)
    }
}

/// The provider's compute-routes document: every candidate route, in the
/// provider's order.
pub struct GetRoutesReponse {
    pub routes: Vec<RoutesResponse>,
}

pub struct RoutesDocView {
    pub routes: Seq<RouteView>,
}

impl View for GetRoutesReponse {
    type V = RoutesDocView;

    open spec fn view(&self) -> RoutesDocView {
        RoutesDocView { routes: self.routes@.map_values(|r: RoutesResponse| r@) }
    }
}

impl RoutesDocView {
    pub open spec fn wf(self) -> bool {
        forall|i: int| 0 <= i < self.routes.len() ==> (#[trigger] self.routes[i]).wf()
    }
}

} // verus!
