//! One function per endpoint: validate the parameter, look it up, shape the
//! answer.
use vstd::prelude::*;
use vstd::string::*;
use crate::dataset::{
    DATASET_SIZE, REGION_COUNT, names_in, regions_in, first_position, locale, dataset_names,
    does_pokemon_exist, does_region_exist, name_by_id, id_by_name, random_name, region_name,
};
use crate::response::{
    ApiResponse, Body, BodyView, Record, ResponseView, PokemonResponse, RegionResponse, success,
    invalid_argument, ok, invalid_req, format_pokemon, format_region, format_count,
};
use crate::text::{parsed_number, parse_number, capitalized, capitalize_first_letter, decimal_text};

verus! {

/// The English names of the dataset.
pub open spec fn names() -> Seq<Seq<char>> {
    names_in(seq!['e', 'n'])
}

/// The English region names, region 1 first.
pub open spec fn regions() -> Seq<Seq<char>> {
    regions_in(seq!['e', 'n'])
}

/// The id of a name of the dataset: one more than its first position.
pub open spec fn id_of(name: Seq<char>) -> int {
    (choose|k: int| first_position(names(), name, k)) + 1
}

pub open spec fn id_message() -> Seq<char> {
    "Given id must be a valid pokemon id"@
}

pub open spec fn name_message() -> Seq<char> {
    "Pokemon does not exist"@
}

pub open spec fn region_message() -> Seq<char> {
    "Region does not exist"@
}

/// The answer for the entry of a name that the dataset holds.
pub open spec fn entry_answer(name: Seq<char>) -> ResponseView {
    success(BodyView::Pokemon((id_of(name), name)))
}

/// The answer to a lookup by id.
pub open spec fn id_answer(raw: Seq<char>) -> ResponseView {
    match parsed_number(raw) {
        Some(id) => if 1 <= id <= DATASET_SIZE {
            success(BodyView::Pokemon((id as int, names()[id - 1])))
        } else {
            invalid_argument(id_message())
        },
        None => invalid_argument(id_message()),
    }
}

/// The answer to a lookup by name: the first letter is upper-cased first.
pub open spec fn name_answer(raw: Seq<char>) -> ResponseView {
    if raw.len() > 0 && names().contains(capitalized(raw)) {
        entry_answer(capitalized(raw))
    } else {
        invalid_argument(name_message())
    }
}

/// The answer to a lookup by region number.
pub open spec fn region_answer(raw: Seq<char>) -> ResponseView {
    match parsed_number(raw) {
        Some(n) => if 1 <= n <= REGION_COUNT {
            success(BodyView::Region((n as int, regions()[n - 1])))
        } else {
            invalid_argument(region_message())
        },
        None => invalid_argument(region_message()),
    }
}

/// Every entry of the dataset, in dataset order.
pub open spec fn all_entries() -> Seq<Record> {
    Seq::new(names().len(), |i: int| (id_of(names()[i]), names()[i]))
}

pub open spec fn all_answer() -> ResponseView {
    success(BodyView::PokemonList(all_entries()))
}

pub open spec fn count_answer() -> ResponseView {
    success(BodyView::Count(decimal_text(names().len())))
}

/// Regions 1 to 9, in order.
pub open spec fn all_regions_answer() -> ResponseView {
    success(
        BodyView::RegionList(Seq::new(REGION_COUNT as nat, |i: int| (i + 1, regions()[i]))),
    )
}

/// What a random pick may answer: the entry of some name of the dataset.
pub open spec fn random_answer(r: ResponseView) -> bool {
    exists|name: Seq<char>| names().contains(name) && r == entry_answer(name)
}

/// The first position of a name is unique, so `id_of` finds it.
pub proof fn lemma_id_of(name: Seq<char>, k: int)
    requires
        first_position(names(), name, k),
    ensures
        id_of(name) == k + 1,
{
    let j = choose|j: int| first_position(names(), name, j);
    assert(first_position(names(), name, j));
    if j < k {
        assert(names()[j] == name);
    } else if k < j {
        assert(names()[k] == name);
    }
}

fn entry_of(name: String, id: usize) -> (r: ApiResponse)
    requires
        first_position(names(), name@, id - 1),
        1 <= id <= DATASET_SIZE,
    ensures
        r@ == entry_answer(name@),
{
    proof {
        lemma_id_of(name@, id - 1);
    }
    ok(Body::Pokemon(format_pokemon(id as i32, name)))
}

/// `GET /pokemon/id/{id}`.
pub fn get_pokemon_by_id(raw: &str) -> (r: ApiResponse)
    ensures
        r@ == id_answer(raw@),
        r@.body matches BodyView::Pokemon(p) ==> p.1.len() > 0,
{
    match parse_number(raw) {
        Some(id) => {
            if 1 <= id && id <= DATASET_SIZE {
                let name = name_by_id(id, locale());
                ok(Body::Pokemon(format_pokemon(id as i32, name)))
            } else {
                invalid_req(String::from_str("Given id must be a valid pokemon id"))
            }
        },
        None => invalid_req(String::from_str("Given id must be a valid pokemon id")),
    }
}

/// `GET /pokemon/name/{name}`.
pub fn get_pokemon_id_by_name(raw: &str) -> (r: ApiResponse)
    ensures
        r@ == name_answer(raw@),
{
    if raw.unicode_len() == 0 {
        return invalid_req(String::from_str("Pokemon does not exist"));
    }
    let name = capitalize_first_letter(String::from_str(raw));
    if !does_pokemon_exist(&name) {
        return invalid_req(String::from_str("Pokemon does not exist"));
    }
    let id = id_by_name(name.as_str(), locale());
    entry_of(name, id)
}

/// `GET /pokemon/region/{n}`.
pub fn get_region(raw: &str) -> (r: ApiResponse)
    ensures
        r@ == region_answer(raw@),
{
    match parse_number(raw) {
        Some(n) => {
            if does_region_exist(&n) {
                let name = region_name(n, locale());
                ok(Body::Region(format_region(n as i32, name)))
            } else {
                invalid_req(String::from_str("Region does not exist"))
            }
        },
        None => invalid_req(String::from_str("Region does not exist")),
    }
}

/// `GET /pokemon/all`.
pub fn get_all_pokemon() -> (r: ApiResponse)
    ensures
        r@ == all_answer(),
{
    let listed = dataset_names();
    let mut out: Vec<PokemonResponse> = Vec::new();
    let mut i: usize = 0;
    while i < listed.len()
        invariant
            0 <= i <= listed@.len(),
            listed@.len() == DATASET_SIZE,
            names().len() == listed@.len(),
            forall|k: int| 0 <= k < listed@.len() ==> #[trigger] listed@[k]@ == names()[k],
            out@.len() == i,
            forall|k: int| 0 <= k < i ==> (#[trigger] out@[k])@ == all_entries()[k],
        decreases listed@.len() - i,
    {
        let name = listed[i].clone();
        assert(names().contains(name@)) by {
            assert(names()[i as int] == name@);
        }
        let id = id_by_name(name.as_str(), locale());
        proof {
            lemma_id_of(name@, id - 1);
        }
        out.push(format_pokemon(id as i32, name));
        i = i + 1;
    }
    let body = Body::PokemonList(out);
    assert(body@ == BodyView::PokemonList(all_entries())) by {
        assert(out@.map_values(|p: PokemonResponse| p@) =~= all_entries());
    }
    ok(body)
}

/// `GET /pokemon/number_of_pokemon`.
pub fn number_of_pokemon() -> (r: ApiResponse)
    ensures
        r@ == count_answer(),
{
    let names = dataset_names();
    ok(format_count(names.len()))
}

/// `GET /pokemon/random`.
pub fn random_pokemon() -> (r: ApiResponse)
    ensures
        random_answer(r@),
        r@.body matches BodyView::Pokemon(p) && 1 <= p.0 <= DATASET_SIZE,
{
    let name = random_name(locale());
    let id = id_by_name(name.as_str(), locale());
    let ghost picked = name@;
    let r = entry_of(name, id);
    assert(names().contains(picked) && r@ == entry_answer(picked));
    r
}

/// `GET /pokemon/region/all`: regions 1 to 9, each looked up.
pub fn get_all_regions() -> (r: ApiResponse)
    ensures
        r@ == all_regions_answer(),
{
    let mut out: Vec<RegionResponse> = Vec::new();
    let mut n: usize = 1;
    while n <= REGION_COUNT
        invariant
            1 <= n <= REGION_COUNT + 1,
            out@.len() == n - 1,
            forall|k: int| 0 <= k < n - 1 ==> (#[trigger] out@[k])@ == (k + 1, regions()[k]),
        decreases REGION_COUNT + 1 - n,
    {
        let name = region_name(n, locale());
        out.push(format_region(n as i32, name));
        n = n + 1;
    }
    let body = Body::RegionList(out);
    assert(body@ == all_regions_answer().body) by {
        assert(out@.map_values(|g: RegionResponse| g@) =~= Seq::new(
            REGION_COUNT as nat,
            |i: int| (i + 1, regions()[i]),
        ));
    }
    ok(body)
}

} // verus!
