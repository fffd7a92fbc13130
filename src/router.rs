//! Maps a request's method and path to an endpoint, and answers it.
use vstd::prelude::*;
use vstd::string::*;
use crate::handlers::{
    id_answer, name_answer, region_answer, all_answer, count_answer, all_regions_answer,
    random_answer, get_pokemon_by_id, get_pokemon_id_by_name, get_region, get_all_pokemon,
    number_of_pokemon, random_pokemon, get_all_regions,
};
use crate::response::{ApiResponse, ResponseView, not_found, not_found_view};
use crate::text::{has_prefix, same_text, after_prefix, holds_char};

verus! {

/// The endpoint a request is for, with its path parameter.
#[derive(Debug)]
pub enum Route {
    PokemonById(String),
    PokemonByName(String),
    AllPokemon,
    RandomPokemon,
    NumberOfPokemon,
    RegionByNumber(String),
    AllRegions,
    Unmatched,
}

pub enum RouteView {
    PokemonById(Seq<char>),
    PokemonByName(Seq<char>),
    AllPokemon,
    RandomPokemon,
    NumberOfPokemon,
    RegionByNumber(Seq<char>),
    AllRegions,
    Unmatched,
}

impl View for Route {
    type V = RouteView;

    open spec fn view(&self) -> RouteView {
        match self {
            Route::PokemonById(s) => RouteView::PokemonById(s@),
            Route::PokemonByName(s) => RouteView::PokemonByName(s@),
            Route::AllPokemon => RouteView::AllPokemon,
            Route::RandomPokemon => RouteView::RandomPokemon,
            Route::NumberOfPokemon => RouteView::NumberOfPokemon,
            Route::RegionByNumber(s) => RouteView::RegionByNumber(s@),
            Route::AllRegions => RouteView::AllRegions,
            Route::Unmatched => RouteView::Unmatched,
        }
    }
}

/// The path parameter after `prefix`: one segment, with no further `/`.
pub open spec fn segment_after(path: Seq<char>, prefix: Seq<char>) -> Option<Seq<char>> {
    if has_prefix(path, prefix) && !path.skip(prefix.len() as int).contains('/') {
        Some(path.skip(prefix.len() as int))
    } else {
        None
    }
}

/// The route of a request. Fixed paths come before parameterized ones, so
/// `/pokemon/region/all` lists the regions.
pub open spec fn route_of(method: Seq<char>, path: Seq<char>) -> RouteView {
    if method != "GET"@ {
        RouteView::Unmatched
    } else if path == "/pokemon/all"@ {
        RouteView::AllPokemon
    } else if path == "/pokemon/random"@ {
        RouteView::RandomPokemon
    } else if path == "/pokemon/number_of_pokemon"@ {
        RouteView::NumberOfPokemon
    } else if path == "/pokemon/region/all"@ {
        RouteView::AllRegions
    } else if segment_after(path, "/pokemon/id/"@) is Some {
        RouteView::PokemonById(segment_after(path, "/pokemon/id/"@)->Some_0)
    } else if segment_after(path, "/pokemon/name/"@) is Some {
        RouteView::PokemonByName(segment_after(path, "/pokemon/name/"@)->Some_0)
    } else if segment_after(path, "/pokemon/region/"@) is Some {
        RouteView::RegionByNumber(segment_after(path, "/pokemon/region/"@)->Some_0)
    } else {
        RouteView::Unmatched
    }
}

/// What answers a request on `route` may get: the random pick may answer any
/// entry, every other route has exactly one answer.
pub open spec fn answers(route: RouteView, r: ResponseView) -> bool {
    match route {
        RouteView::RandomPokemon => random_answer(r),
        _ => r == answer_of(route),
    }
}

/// The one answer of a route other than the random pick.
pub open spec fn answer_of(route: RouteView) -> ResponseView {
    match route {
        RouteView::PokemonById(raw) => id_answer(raw),
        RouteView::PokemonByName(raw) => name_answer(raw),
        RouteView::AllPokemon => all_answer(),
        RouteView::NumberOfPokemon => count_answer(),
        RouteView::RegionByNumber(raw) => region_answer(raw),
        RouteView::AllRegions => all_regions_answer(),
        _ => not_found_view(),
    }
}

fn segment<'a>(path: &'a str, prefix: &str) -> (r: Option<&'a str>)
    ensures
        r is Some <==> segment_after(path@, prefix@) is Some,
        r matches Some(t) ==> Some(t@) == segment_after(path@, prefix@),
{
    match after_prefix(path, prefix) {
        Some(rest) => {
            if holds_char(rest, '/') {
                None
            } else {
                Some(rest)
            }
        },
        None => None,
    }
}

/// Finds the endpoint of a request.
pub fn parse_route(method: &str, path: &str) -> (r: Route)
    ensures
        r@ == route_of(method@, path@),
{
    if !same_text(method, "GET") {
        return Route::Unmatched;
    }
    if same_text(path, "/pokemon/all") {
        return Route::AllPokemon;
    }
    if same_text(path, "/pokemon/random") {
        return Route::RandomPokemon;
    }
    if same_text(path, "/pokemon/number_of_pokemon") {
        return Route::NumberOfPokemon;
    }
    if same_text(path, "/pokemon/region/all") {
        return Route::AllRegions;
    }
    if let Some(raw) = segment(path, "/pokemon/id/") {
        return Route::PokemonById(String::from_str(raw));
    }
    if let Some(raw) = segment(path, "/pokemon/name/") {
        return Route::PokemonByName(String::from_str(raw));
    }
    if let Some(raw) = segment(path, "/pokemon/region/") {
        return Route::RegionByNumber(String::from_str(raw));
    }
    Route::Unmatched
}

/// The answer to a request that matches no route.
pub fn default_handler() -> (r: ApiResponse)
    ensures
        r@ == not_found_view(),
{
    not_found()
}

/// Answers a request on a route.
pub fn respond(route: &Route) -> (r: ApiResponse)
    ensures
        answers(route@, r@),
{
    match route {
        Route::PokemonById(raw) => get_pokemon_by_id(raw.as_str()),
        Route::PokemonByName(raw) => get_pokemon_id_by_name(raw.as_str()),
        Route::AllPokemon => get_all_pokemon(),
        Route::RandomPokemon => random_pokemon(),
        Route::NumberOfPokemon => number_of_pokemon(),
        Route::RegionByNumber(raw) => get_region(raw.as_str()),
        Route::AllRegions => get_all_regions(),
        Route::Unmatched => default_handler(),
    }
}

/// Answers a request given by its method and path.
pub fn handle(method: &str, path: &str) -> (r: ApiResponse)
    ensures
        answers(route_of(method@, path@), r@),
{
    let route = parse_route(method, path);
    respond(&route)
}

} // verus!
