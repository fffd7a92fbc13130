//! Properties that relate the endpoints, proved over their contracts.
use vstd::prelude::*;
use crate::dataset::{DATASET_SIZE, REGION_COUNT, first_position};
use crate::handlers::{
    names, regions, id_of, id_message, name_message, region_message, entry_answer, id_answer,
    name_answer, region_answer, all_answer, count_answer, random_answer, lemma_id_of,
};
use crate::response::{BodyView, ResponseView, success, invalid_argument};
use crate::router::{RouteView, route_of, answers, answer_of};
use crate::text::{
    is_digit, digit_value, digit_char, is_numeric, decimal_value, decimal_text, parsed_number,
    capitalized, lemma_prefix_value,
};

verus! {

proof fn lemma_digit(d: nat)
    requires
        d < 10,
    ensures
        is_digit(digit_char(d)),
        digit_value(digit_char(d)) == d,
{
    let s = seq!['0', '1', '2', '3', '4', '5', '6', '7', '8', '9'];
    assert(s[0] == '0' && s[1] == '1' && s[2] == '2' && s[3] == '3' && s[4] == '4');
    assert(s[5] == '5' && s[6] == '6' && s[7] == '7' && s[8] == '8' && s[9] == '9');
}

/// Reading back the decimal text of a number gives the number.
pub proof fn lemma_decimal_round_trip(n: nat)
    ensures
        is_numeric(decimal_text(n)),
        decimal_value(decimal_text(n)) == n,
    decreases n,
{
    let s = decimal_text(n);
    if n < 10 {
        lemma_digit(n);
        assert(s.drop_last() =~= Seq::<char>::empty());
        assert(decimal_value(Seq::<char>::empty()) == 0);
        assert(decimal_value(s) == decimal_value(s.drop_last()) * 10 + digit_value(s.last()));
    } else {
        lemma_decimal_round_trip(n / 10);
        lemma_digit(n % 10);
        assert(s.drop_last() =~= decimal_text(n / 10));
        assert(decimal_value(s) == decimal_value(s.drop_last()) * 10 + digit_value(s.last()));
        assert((n / 10) * 10 + n % 10 == n);
        assert forall|i: int| 0 <= i < s.len() implies is_digit(#[trigger] s[i]) by {
            if i < s.len() - 1 {
                assert(s[i] == decimal_text(n / 10)[i]);
            }
        }
    }
}

/// A number that fits a `usize` parses back from its decimal text.
pub proof fn lemma_parse_decimal_text(n: usize)
    ensures
        parsed_number(decimal_text(n as nat)) == Some(n),
{
    lemma_decimal_round_trip(n as nat);
}

/// Every id of the dataset answers 200 with that id and the entry at its
/// position.
pub proof fn lemma_valid_id(id: usize)
    requires
        1 <= id <= DATASET_SIZE,
    ensures
        id_answer(decimal_text(id as nat)) == success(BodyView::Pokemon((id as int, names()[id - 1]))),
{
    lemma_parse_decimal_text(id);
}

/// A `GET` on `/pokemon/id/` followed by a valid id reaches the lookup by id,
/// and answers 200 with that id.
pub proof fn lemma_id_request(id: usize)
    requires
        1 <= id <= DATASET_SIZE,
    ensures
        route_of("GET"@, "/pokemon/id/"@ + decimal_text(id as nat))
            == RouteView::PokemonById(decimal_text(id as nat)),
        answer_of(route_of("GET"@, "/pokemon/id/"@ + decimal_text(id as nat)))
            == success(BodyView::Pokemon((id as int, names()[id - 1]))),
{
    reveal_strlit("/pokemon/id/");
    reveal_strlit("/pokemon/all");
    reveal_strlit("/pokemon/random");
    reveal_strlit("/pokemon/number_of_pokemon");
    reveal_strlit("/pokemon/region/all");
    let prefix = "/pokemon/id/"@;
    let digits = decimal_text(id as nat);
    let path = prefix + digits;
    lemma_decimal_round_trip(id as nat);
    assert(path[9] == 'i');
    assert(path != "/pokemon/all"@) by {
        assert("/pokemon/all"@[9] == 'a');
    }
    assert(path != "/pokemon/random"@) by {
        assert("/pokemon/random"@[9] == 'r');
    }
    assert(path != "/pokemon/number_of_pokemon"@) by {
        assert("/pokemon/number_of_pokemon"@[9] == 'n');
    }
    assert(path != "/pokemon/region/all"@) by {
        assert("/pokemon/region/all"@[9] == 'r');
    }
    assert(path.take(prefix.len() as int) =~= prefix);
    assert(path.skip(prefix.len() as int) =~= digits);
    assert(!digits.contains('/')) by {
        if digits.contains('/') {
            let i = choose|i: int| 0 <= i < digits.len() && digits[i] == '/';
            assert(is_digit(digits[i]));
        }
    }
    lemma_valid_id(id);
}

/// An id that is not numeric, or outside `1..=DATASET_SIZE`, answers 400
/// with the invalid-id message.
pub proof fn lemma_invalid_id(raw: Seq<char>)
    requires
        !is_numeric(raw) || decimal_value(raw) < 1 || decimal_value(raw) > DATASET_SIZE,
    ensures
        id_answer(raw) == invalid_argument(id_message()),
{
    if is_numeric(raw) {
        lemma_prefix_value(raw, 0);
    }
}

/// A name whose first letter, upper-cased, gives a name of the dataset answers
/// 200 with the canonical name and its id.
pub proof fn lemma_name_any_first_case(raw: Seq<char>, name: Seq<char>)
    requires
        names().contains(name),
        raw.len() > 0,
        capitalized(raw) == name,
    ensures
        name_answer(raw) == success(BodyView::Pokemon((id_of(name), name))),
{
}

/// A name that is not in the dataset after normalization answers 400 with
/// the unknown-name message.
pub proof fn lemma_unknown_name(raw: Seq<char>)
    requires
        raw.len() == 0 || !names().contains(capitalized(raw)),
    ensures
        name_answer(raw) == invalid_argument(name_message()),
{
}

/// A known region answers 200 with its name; any other parameter answers 400
/// with the unknown-region message.
pub proof fn lemma_region(raw: Seq<char>)
    ensures
        is_numeric(raw) && 1 <= decimal_value(raw) <= REGION_COUNT ==> region_answer(raw)
            == success(BodyView::Region((decimal_value(raw), regions()[decimal_value(raw) - 1]))),
        !(is_numeric(raw) && 1 <= decimal_value(raw) <= REGION_COUNT) ==> region_answer(raw)
            == invalid_argument(region_message()),
{
    if is_numeric(raw) {
        lemma_prefix_value(raw, 0);
    }
}

/// The listing has as many entries as the count reports.
pub proof fn lemma_count_matches_listing()
    ensures
        all_answer().body matches BodyView::PokemonList(list)
            && count_answer().body matches BodyView::Count(count)
            && is_numeric(count) && decimal_value(count) == list.len(),
{
    lemma_decimal_round_trip(names().len());
}

proof fn lemma_first_position_exists(name: Seq<char>, k: int)
    requires
        0 <= k < names().len(),
        names()[k] == name,
    ensures
        exists|j: int| first_position(names(), name, j),
    decreases k,
{
    if exists|j: int| 0 <= j < k && names()[j] == name {
        let j = choose|j: int| 0 <= j < k && names()[j] == name;
        lemma_first_position_exists(name, j);
    } else {
        assert(first_position(names(), name, k));
    }
}

/// A random pick answers 200 with an entry whose id lies in the dataset's
/// range.
pub proof fn lemma_random_in_range(r: ResponseView)
    requires
        random_answer(r),
    ensures
        r.status == 200,
        r.body matches BodyView::Pokemon(p) && 1 <= p.0 <= names().len() && names()[p.0 - 1] == p.1,
{
    let name = choose|name: Seq<char>| names().contains(name) && r == entry_answer(name);
    let k = choose|k: int| 0 <= k < names().len() && names()[k] == name;
    lemma_first_position_exists(name, k);
    let j = choose|j: int| first_position(names(), name, j);
    lemma_id_of(name, j);
}

/// Two answers to the same request agree, unless it asks for a random pick.
pub proof fn lemma_same_request_same_answer(
    method: Seq<char>,
    path: Seq<char>,
    r1: ResponseView,
    r2: ResponseView,
)
    requires
        !(route_of(method, path) is RandomPokemon),
        answers(route_of(method, path), r1),
        answers(route_of(method, path), r2),
    ensures
        r1 == r2,
{
}

} // verus!
