//! Routes and the paths that stand for them.
//!
//! A path is taken as its segments: `/works/dm-seigaiha` is the two
//! segments `works` and `dm-seigaiha`, and `/` is no segment at all.

use vstd::prelude::*;
use crate::text::str_eq;
use crate::works::{lemma_slug_round_trip, Slug};

verus! {

/// Where a path leads.
#[derive(Clone, Copy, Debug, PartialEq, Eq, Structural)]
pub enum Route {
    /// `/`
    Home,
    /// `/works`, the index of the works
    Works,
    /// `/works/<slug>`
    Work { slug: Slug },
}

/// The characters of each segment.
pub open spec fn texts(segments: Seq<&str>) -> Seq<Seq<char>> {
    segments.map_values(|segment: &str| segment@)
}

impl Route {
    /// The segments of the path that stands for the route.
    pub open spec fn spec_encode(self) -> Seq<Seq<char>> {
        match self {
            Route::Home => seq![],
            Route::Works => seq!["works"@],
            Route::Work { slug } => seq!["works"@, slug.spec_segment()],
        }
    }

    /// The route that the path of these segments stands for, if it stands
    /// for one.
    pub open spec fn spec_decode(segments: Seq<Seq<char>>) -> Option<Route> {
        if segments.len() == 0 {
            Some(Route::Home)
        } else if segments.len() == 1 && segments[0] == "works"@ {
            Some(Route::Works)
        } else if segments.len() == 2 && segments[0] == "works"@ {
            match Slug::spec_from_segment(segments[1]) {
                Some(slug) => Some(Route::Work { slug }),
                None => None,
            }
        } else {
            None
        }
    }

    /// The segments of the path that stands for the route.
    pub fn encode(self) -> (segments: Vec<&'static str>)
        ensures
            texts(segments@) == self.spec_encode(),
    {
        let mut segments: Vec<&'static str> = Vec::new();
        match self {
            Route::Home => {},
            Route::Works => {
                segments.push("works");
            },
            Route::Work { slug } => {
                segments.push("works");
                segments.push(slug.into_string_segment());
            },
        }
        segments
    }

    /// The route that the path of these segments stands for; `None` for a
    /// path that leads nowhere: one with a first segment other than `works`,
    /// with a second segment that names no work, or with more than two
    /// segments.
    pub fn decode(segments: &[&str]) -> (route: Option<Route>)
        ensures
            route == Route::spec_decode(texts(segments@)),
    {
        if segments.len() == 0 {
            Some(Route::Home)
        } else if segments.len() > 2 || !str_eq(segments[0], "works") {
            None
        } else if segments.len() == 1 {
            Some(Route::Works)
        } else {
            match Slug::from_string_segment(segments[1]) {
                Some(slug) => Some(Route::Work { slug }),
                None => None,
            }
        }
    }
}

/// Decoding the path of a route gives the route back.
pub proof fn lemma_route_round_trip(route: Route)
    ensures
        Route::spec_decode(route.spec_encode()) == Some(route),
{
    match route {
        Route::Home => {},
        Route::Works => {},
        Route::Work { slug } => {
            lemma_slug_round_trip(slug);
        },
    }
}

/// A path that decodes to a route is the path of that route: no two paths
/// lead to the same place.
pub proof fn lemma_path_round_trip(segments: Seq<Seq<char>>)
    ensures
        Route::spec_decode(segments) matches Some(route) ==> route.spec_encode() == segments,
{
    match Route::spec_decode(segments) {
        Some(route) => {
            assert(route.spec_encode() =~= segments);
        },
        None => {},
    }
}

/// Two routes with the same path are the same route.
pub proof fn lemma_encode_injective(a: Route, b: Route)
    requires
        a.spec_encode() == b.spec_encode(),
    ensures
        a == b,
{
    lemma_route_round_trip(a);
    lemma_route_round_trip(b);
}

} // verus!
