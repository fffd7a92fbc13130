use pokemon_api::dataset::{does_pokemon_exist, does_region_exist, dataset_names};
use pokemon_api::handlers::{
    get_all_pokemon, get_all_regions, get_pokemon_by_id, get_pokemon_id_by_name, get_region,
    number_of_pokemon, random_pokemon,
};
use pokemon_api::response::{invalid_req, ApiResponse, Body, ErrorKind};
use pokemon_api::router::{handle, parse_route, Route};
use pokemon_api::text::{capitalize_first_letter, parse_number};

fn pokemon_of(r: &ApiResponse) -> (i32, String) {
    assert_eq!(r.status, 200);
    match &r.body {
        Body::Pokemon(p) => (p.id, p.name.clone()),
        other => panic!("not an entry: {:?}", other),
    }
}

fn error_of(r: &ApiResponse) -> (u16, ErrorKind, String) {
    match &r.body {
        Body::Error(e) => (r.status, e.error, e.message.clone()),
        other => panic!("not an error: {:?}", other),
    }
}

fn invalid(message: &str) -> (u16, ErrorKind, String) {
    (400, ErrorKind::InvalidArgument, message.to_string())
}

#[test]
fn capitalize_upper_cases_only_the_first_letter() {
    assert_eq!(capitalize_first_letter("pikachu".to_string()), "Pikachu");
    assert_eq!(capitalize_first_letter("mr. mime".to_string()), "Mr. mime");
    assert_eq!(capitalize_first_letter("Eevee".to_string()), "Eevee");
    assert_eq!(capitalize_first_letter("ßa".to_string()), "Sa");
    assert_eq!(capitalize_first_letter("x".to_string()), "X");
}

#[test]
fn parse_number_accepts_digits_only() {
    assert_eq!(parse_number("25"), Some(25));
    assert_eq!(parse_number("007"), Some(7));
    assert_eq!(parse_number("0"), Some(0));
    assert_eq!(parse_number(""), None);
    assert_eq!(parse_number("-1"), None);
    assert_eq!(parse_number("1a"), None);
    assert_eq!(parse_number("+3"), None);
    assert_eq!(parse_number("99999999999999999999999999"), None);
}

#[test]
fn by_id_answers_every_valid_id() {
    assert_eq!(pokemon_of(&get_pokemon_by_id("1")), (1, "Bulbasaur".to_string()));
    assert_eq!(pokemon_of(&get_pokemon_by_id("25")), (25, "Pikachu".to_string()));
    assert_eq!(pokemon_of(&get_pokemon_by_id("1008")), (1008, "Miraidon".to_string()));
    for id in 1..=1008 {
        let (got, name) = pokemon_of(&get_pokemon_by_id(&id.to_string()));
        assert_eq!(got, id);
        assert!(!name.is_empty());
    }
}

#[test]
fn by_id_rejects_out_of_range_and_non_numeric() {
    let message = "Given id must be a valid pokemon id";
    for raw in ["0", "1009", "abc", "", "-3", "99999999999999999999999"] {
        assert_eq!(error_of(&get_pokemon_by_id(raw)), invalid(message));
    }
}

#[test]
fn by_name_normalizes_the_first_letter() {
    assert_eq!(pokemon_of(&get_pokemon_id_by_name("pikachu")), (25, "Pikachu".to_string()));
    assert_eq!(pokemon_of(&get_pokemon_id_by_name("Pikachu")), (25, "Pikachu".to_string()));
    assert_eq!(pokemon_of(&get_pokemon_id_by_name("bulbasaur")), (1, "Bulbasaur".to_string()));
    assert_eq!(pokemon_of(&get_pokemon_id_by_name("miraidon")), (1008, "Miraidon".to_string()));
}

#[test]
fn by_name_round_trips_every_lowered_name() {
    for (i, name) in dataset_names().iter().enumerate() {
        let mut lowered: Vec<char> = name.chars().collect();
        lowered[0] = lowered[0].to_lowercase().next().unwrap();
        let raw: String = lowered.into_iter().collect();
        if capitalize_first_letter(raw.clone()) == *name {
            assert_eq!(pokemon_of(&get_pokemon_id_by_name(&raw)), (i as i32 + 1, name.clone()));
        }
    }
}

#[test]
fn by_name_rejects_unknown_names() {
    let message = "Pokemon does not exist";
    assert_eq!(error_of(&get_pokemon_id_by_name("Notarealpokemon")), invalid(message));
    assert_eq!(error_of(&get_pokemon_id_by_name("")), invalid(message));
    assert_eq!(error_of(&get_pokemon_id_by_name("pIKACHU")), invalid(message));
}

#[test]
fn region_lookup() {
    let region = |raw: &str| match get_region(raw).body {
        Body::Region(g) => (g.id, g.region_name),
        other => panic!("not a region: {:?}", other),
    };
    assert_eq!(region("1"), (1, "Kanto".to_string()));
    assert_eq!(region("9"), (9, "Paldea".to_string()));
    assert_eq!(get_region("4").status, 200);
    let message = "Region does not exist";
    for raw in ["0", "10", "x", "", "-1"] {
        assert_eq!(error_of(&get_region(raw)), invalid(message));
    }
}

#[test]
fn existence_checks() {
    assert!(does_pokemon_exist(&"Pikachu".to_string()));
    assert!(!does_pokemon_exist(&"pikachu".to_string()));
    assert!(!does_pokemon_exist(&"Notarealpokemon".to_string()));
    assert!(does_region_exist(&1));
    assert!(does_region_exist(&9));
    assert!(!does_region_exist(&0));
    assert!(!does_region_exist(&10));
}

#[test]
fn listing_length_matches_count() {
    let all = get_all_pokemon();
    assert_eq!(all.status, 200);
    let list = match all.body {
        Body::PokemonList(v) => v,
        other => panic!("not a list: {:?}", other),
    };
    let count = number_of_pokemon();
    assert_eq!(count.status, 200);
    let text = match count.body {
        Body::Count(s) => s,
        other => panic!("not a count: {:?}", other),
    };
    assert_eq!(text, "1008");
    assert_eq!(list.len(), text.parse::<usize>().unwrap());
    assert_eq!((list[0].id, list[0].name.as_str()), (1, "Bulbasaur"));
    assert_eq!((list[1007].id, list[1007].name.as_str()), (1008, "Miraidon"));
    for (i, p) in list.iter().enumerate() {
        assert_eq!(p.id, i as i32 + 1);
    }
}

#[test]
fn all_regions_lists_nine_in_order() {
    let r = get_all_regions();
    assert_eq!(r.status, 200);
    let list = match r.body {
        Body::RegionList(v) => v,
        other => panic!("not a list: {:?}", other),
    };
    let names: Vec<(i32, &str)> = list.iter().map(|g| (g.id, g.region_name.as_str())).collect();
    assert_eq!(
        names,
        vec![
            (1, "Kanto"),
            (2, "Johto"),
            (3, "Hoenn"),
            (4, "Sinnoh"),
            (5, "Unova"),
            (6, "Kalos"),
            (7, "Alola"),
            (8, "Galar"),
            (9, "Paldea"),
        ]
    );
}

#[test]
fn random_is_always_a_valid_entry() {
    for _ in 0..50 {
        let (id, name) = pokemon_of(&random_pokemon());
        assert!((1..=1008).contains(&id));
        assert_eq!(pokemon_of(&get_pokemon_by_id(&id.to_string())), (id, name));
    }
}

#[test]
fn unmatched_path_is_not_found() {
    let not_found = (404, ErrorKind::NotFound, "Invalid path".to_string());
    assert_eq!(error_of(&handle("GET", "/nonexistent/path")), not_found);
    assert_eq!(error_of(&handle("POST", "/pokemon/all")), not_found);
    assert_eq!(error_of(&handle("GET", "/pokemon/id/1/extra")), not_found);
    assert_eq!(error_of(&handle("GET", "/pokemon")), not_found);
}

#[test]
fn routes_reach_their_endpoints() {
    assert!(matches!(parse_route("GET", "/pokemon/all"), Route::AllPokemon));
    assert!(matches!(parse_route("GET", "/pokemon/random"), Route::RandomPokemon));
    assert!(matches!(parse_route("GET", "/pokemon/number_of_pokemon"), Route::NumberOfPokemon));
    assert!(matches!(parse_route("GET", "/pokemon/region/all"), Route::AllRegions));
    assert!(matches!(parse_route("GET", "/pokemon/id/7"), Route::PokemonById(s) if s == "7"));
    assert!(matches!(parse_route("GET", "/pokemon/name/eevee"), Route::PokemonByName(s) if s == "eevee"));
    assert!(matches!(parse_route("GET", "/pokemon/region/3"), Route::RegionByNumber(s) if s == "3"));
    assert!(matches!(parse_route("GET", "/pokemon/id/"), Route::PokemonById(s) if s.is_empty()));
    assert!(matches!(parse_route("DELETE", "/pokemon/id/7"), Route::Unmatched));
    assert_eq!(pokemon_of(&handle("GET", "/pokemon/id/133")), (133, "Eevee".to_string()));
    assert_eq!(pokemon_of(&handle("GET", "/pokemon/name/eevee")), (133, "Eevee".to_string()));
    assert_eq!(handle("GET", "/pokemon/region/2").status, 200);
    assert_eq!(
        error_of(&handle("GET", "/pokemon/id/abc")),
        invalid("Given id must be a valid pokemon id")
    );
}

#[test]
fn repeated_requests_answer_identically() {
    for path in [
        "/pokemon/id/25",
        "/pokemon/id/0",
        "/pokemon/name/pikachu",
        "/pokemon/name/Notarealpokemon",
        "/pokemon/region/3",
        "/pokemon/region/all",
        "/pokemon/all",
        "/pokemon/number_of_pokemon",
        "/nonexistent/path",
    ] {
        let first = format!("{:?}", handle("GET", path));
        let second = format!("{:?}", handle("GET", path));
        assert_eq!(first, second);
    }
}

#[test]
fn invalid_req_builds_a_bad_request() {
    let r = invalid_req("some text".to_string());
    assert_eq!(error_of(&r), invalid("some text"));
    assert_eq!(ErrorKind::InvalidArgument.as_str(), "InvalidArgument");
    assert_eq!(ErrorKind::NotFound.as_str(), "NotFound");
}
