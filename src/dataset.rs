//! The dataset collaborator: calls into `pokemon_rs`, and the existence checks
//! that validation relies on.
use vstd::prelude::*;

verus! {

/// Number of entries in the English dataset; valid ids are `1..=DATASET_SIZE`.
pub const DATASET_SIZE: usize = 1008;

/// Number of regions; valid region numbers are `1..=REGION_COUNT`.
pub const REGION_COUNT: usize = 9;

/// The names of the dataset in the given locale, in dataset order.
pub uninterp spec fn names_in(locale: Seq<char>) -> Seq<Seq<char>>;

/// The region names in the given locale, region 1 first.
pub uninterp spec fn regions_in(locale: Seq<char>) -> Seq<Seq<char>>;

/// The locale the service answers in.
pub open spec fn english(locale: Seq<char>) -> bool {
    locale == seq!['e', 'n']
}

/// `k` is the first position of `name` in `names`.
pub open spec fn first_position(names: Seq<Seq<char>>, name: Seq<char>, k: int) -> bool {
    &&& 0 <= k < names.len()
    &&& names[k] == name
    &&& forall|j: int| 0 <= j < k ==> names[j] != name
}

/// Relies on pokemon_rs::get_all: the whole list of the locale, in order; the
/// English list holds 1008 non-empty names.
#[verifier::external_body]
fn all_names(locale: &str) -> (r: Vec<String>)
    requires
        english(locale@),
    ensures
        r@.len() == DATASET_SIZE,
        names_in(locale@).len() == r@.len(),
        forall|i: int| 0 <= i < r@.len() ==> #[trigger] r@[i]@ == names_in(locale@)[i],
        forall|i: int| 0 <= i < r@.len() ==> (#[trigger] r@[i]@).len() > 0,
{
    pokemon_rs::get_all(Some(locale)).into_iter().map(|s| s.to_string()).collect()
}

/// Relies on pokemon_rs::get_by_id: the entry at position `id - 1` of the list.
#[verifier::external_body]
pub(crate) fn name_by_id(id: usize, locale: &str) -> (r: String)
    requires
        english(locale@),
        1 <= id <= DATASET_SIZE,
    ensures
        r@ == names_in(locale@)[id - 1],
        r@.len() > 0,
{
    pokemon_rs::get_by_id(id, Some(locale)).to_string()
}

/// Relies on pokemon_rs::get_id_by_name: one more than the first position of a
/// name that the list holds.
#[verifier::external_body]
pub(crate) fn id_by_name(name: &str, locale: &str) -> (r: usize)
    requires
        english(locale@),
        names_in(locale@).contains(name@),
    ensures
        first_position(names_in(locale@), name@, r - 1),
        1 <= r <= DATASET_SIZE,
{
    pokemon_rs::get_id_by_name(name, Some(locale))
}

/// Relies on pokemon_rs::random: some entry of the list, chosen at random.
#[verifier::external_body]
pub(crate) fn random_name(locale: &str) -> (r: String)
    requires
        english(locale@),
    ensures
        names_in(locale@).contains(r@),
{
    pokemon_rs::random(Some(locale))
}

/// Relies on pokemon_rs::get_region: the name of region `number`, for 1 to 9.
#[verifier::external_body]
pub(crate) fn region_name(number: usize, locale: &str) -> (r: String)
    requires
        english(locale@),
        1 <= number <= REGION_COUNT,
    ensures
        r@ == regions_in(locale@)[number - 1],
{
    pokemon_rs::get_region(number, Some(locale))
}

/// Relies on pokemon_rs::get_all_regions: the names of regions 1 to 9, in order.
#[verifier::external_body]
fn all_region_names(locale: &str) -> (r: Vec<String>)
    requires
        english(locale@),
    ensures
        r@.len() == REGION_COUNT,
        regions_in(locale@).len() == r@.len(),
        forall|i: int| 0 <= i < r@.len() ==> #[trigger] r@[i]@ == regions_in(locale@)[i],
{
    pokemon_rs::get_all_regions(Some(locale))
}

/// The locale of every lookup.
pub fn locale() -> (r: &'static str)
    ensures
        english(r@),
{
    let r = "en";
    proof {
        reveal_strlit("en");
    }
    assert(r@ =~= seq!['e', 'n']);
    r
}

/// The English names of the whole dataset, in dataset order.
pub fn dataset_names() -> (r: Vec<String>)
    ensures
        r@.len() == DATASET_SIZE,
        names_in(seq!['e', 'n']).len() == r@.len(),
        forall|i: int| 0 <= i < r@.len() ==> #[trigger] r@[i]@ == names_in(seq!['e', 'n'])[i],
        forall|i: int| 0 <= i < r@.len() ==> (#[trigger] r@[i]@).len() > 0,
{
    all_names(locale())
}

/// Whether the dataset holds an entry of exactly this name.
pub fn does_pokemon_exist(name: &String) -> (r: bool)
    ensures
        names_in(seq!['e', 'n']).len() == DATASET_SIZE,
        r == names_in(seq!['e', 'n']).contains(name@),
{
    let names = dataset_names();
    let mut i: usize = 0;
    while i < names.len()
        invariant
            0 <= i <= names@.len(),
            names@.len() == DATASET_SIZE,
            names_in(seq!['e', 'n']).len() == names@.len(),
            forall|k: int| 0 <= k < names@.len() ==> #[trigger] names@[k]@ == names_in(seq!['e', 'n'])[k],
            forall|k: int| 0 <= k < i ==> names_in(seq!['e', 'n'])[k] != name@,
        decreases names@.len() - i,
    {
        if names[i].eq(name) {
            assert(names_in(seq!['e', 'n'])[i as int] == name@);
            return true;
        }
        i = i + 1;
    }
    false
}

/// Whether `number` names a region of the dataset.
pub fn does_region_exist(number: &usize) -> (r: bool)
    ensures
        regions_in(seq!['e', 'n']).len() == REGION_COUNT,
        r == (1 <= *number <= REGION_COUNT),
{
    let regions = all_region_names(locale());
    1 <= *number && *number <= regions.len()
}

} // verus!
