//! Institutions looked up in the place search: the queries sent, and what is kept of
//! the places that come back.

use vstd::prelude::*;
use crate::dto::util_dto::{GetInstitutionDetailItem, GetInstitutionsItem};
use crate::listing::text_opt;
use crate::models::{string_or_default, text_or_empty};
use crate::service::UtilService;
use crate::text::{append_str, contains_text, holds_text};

verus! {

/// A place that the search returned, with those of its fields that are texts.
#[derive(Debug, Clone)]
pub struct PlaceResult {
    pub name: Option<String>,
    pub formatted_address: Option<String>,
    pub place_id: Option<String>,
}

/// A part of a place's address: its kinds (such as `country`) and its full name where
/// it is a text.
#[derive(Debug, Clone)]
pub struct AddressComponent {
    pub types: Vec<String>,
    pub long_name: Option<String>,
}

/// The details that the search gives of a place, with those of its fields that are
/// texts; all missing where the search failed.
#[derive(Debug, Clone)]
pub struct PlaceDetail {
    pub name: Option<String>,
    pub formatted_address: Option<String>,
    pub international_phone_number: Option<String>,
    pub address_components: Vec<AddressComponent>,
}

/// The most places that a search keeps.
pub const MAX_INSTITUTIONS: usize = 10;

/// The institutions among the places, in order: those with a name, each with its
/// address and place id (empty where missing).
pub open spec fn named_places(results: Seq<PlaceResult>) -> Seq<(Seq<char>, Seq<char>, Seq<char>)>
    decreases results.len(),
{
    if results.len() == 0 {
        Seq::empty()
    } else {
        let front = named_places(results.drop_last());
        match results.last().name {
            Some(n) => front.push(
                (n@, text_or_empty(results.last().formatted_address), text_or_empty(results.last().place_id)),
            ),
            None => front,
        }
    }
}

/// The full name of the last address part of one of the kinds, where there is one.
pub open spec fn part_named(parts: Seq<AddressComponent>, kinds: Seq<Seq<char>>) -> Option<Seq<char>>
    decreases parts.len(),
{
    if parts.len() == 0 {
        None
    } else if exists|k: int| 0 <= k < kinds.len() && holds_text(parts.last().types@, #[trigger] kinds[k]) {
        text_opt(parts.last().long_name)
    } else {
        part_named(parts.drop_last(), kinds)
    }
}

/// An institution as its name, address and place id.
pub open spec fn item_view(item: GetInstitutionsItem) -> (Seq<char>, Seq<char>, Seq<char>) {
    (item.name@, item.formatted_address@, item.place_id@)
}

fn copy_text(t: &Option<String>) -> (c: Option<String>)
    ensures
        text_opt(c) == text_opt(*t),
{
    match t {
        Some(s) => Some(s.clone()),
        None => None,
    }
}

/// The full name of the last address part of one of the kinds.
fn find_part(parts: &Vec<AddressComponent>, kinds: &Vec<&str>) -> (r: Option<String>)
    ensures
        text_opt(r) == part_named(parts@, kinds@.map_values(|k: &str| k@)),
{
    let ghost kv = kinds@.map_values(|k: &str| k@);
    let mut found: Option<String> = None;
    let mut i: usize = 0;
    proof {
        assert(parts@.take(0) =~= Seq::<AddressComponent>::empty());
    }
    while i < parts.len()
        invariant
            kv == kinds@.map_values(|k: &str| k@),
            i <= parts@.len(),
            text_opt(found) == part_named(parts@.take(i as int), kv),
        decreases parts.len() - i,
    {
        let part = &parts[i];
        let mut matched = false;
        let mut k: usize = 0;
        while k < kinds.len()
            invariant
                kv == kinds@.map_values(|k: &str| k@),
                k <= kinds@.len(),
                matched == exists|j: int| 0 <= j < k && holds_text(part.types@, #[trigger] kv[j]),
            decreases kinds.len() - k,
        {
            if contains_text(&part.types, kinds[k]) {
                matched = true;
            }
            proof {
                assert(kv[k as int] == kinds@[k as int]@);
            }
            k = k + 1;
        }
        proof {
            assert(parts@.take(i + 1).drop_last() =~= parts@.take(i as int));
            assert(parts@.take(i + 1).last() == *part);
        }
        if matched {
            found = copy_text(&part.long_name);
        }
        i = i + 1;
    }
    proof {
        assert(parts@.take(parts@.len() as int) =~= parts@);
    }
    found
}

impl UtilService {
    /// The text search for places of a kind that match the query.
    pub fn institutions_search_url(search_type: &str, key: &str, query: &str) -> (url: String)
        ensures
            url@ == "https://maps.googleapis.com/maps/api/place/textsearch/json?type="@ + search_type@ + "&key="@
                + key@ + "&query="@ + query@,
    {
        let mut url = String::from_str("https://maps.googleapis.com/maps/api/place/textsearch/json?type=");
        append_str(&mut url, search_type);
        append_str(&mut url, "&key=");
        append_str(&mut url, key);
        append_str(&mut url, "&query=");
        append_str(&mut url, query);
        url
    }

    /// The details request for a place.
    pub fn institution_detail_url(key: &str, place_id: &str) -> (url: String)
        ensures
            url@ == "https://maps.googleapis.com/maps/api/place/details/json?key="@ + key@ + "&placeid="@
                + place_id@,
    {
        let mut url = String::from_str("https://maps.googleapis.com/maps/api/place/details/json?key=");
        append_str(&mut url, key);
        append_str(&mut url, "&placeid=");
        append_str(&mut url, place_id);
        url
    }

    /// The institutions among the first ten places that the search returned: those with
    /// a name, in order, each with its address and place id (empty where missing).
    pub fn institutions_from_results(results: &Vec<PlaceResult>) -> (items: Vec<GetInstitutionsItem>)
        ensures
            items@.map_values(|i: GetInstitutionsItem| item_view(i)) == named_places(
                results@.take(if results@.len() < MAX_INSTITUTIONS {
                    results@.len() as int
                } else {
                    MAX_INSTITUTIONS as int
                }),
            ),
    {
        let n: usize = if results.len() < MAX_INSTITUTIONS {
            results.len()
        } else {
            MAX_INSTITUTIONS
        };
        let mut items: Vec<GetInstitutionsItem> = Vec::new();
        let mut i: usize = 0;
        proof {
            assert(results@.take(0) =~= Seq::<PlaceResult>::empty());
        }
        while i < n
            invariant
                n <= results@.len(),
                i <= n,
                items@.map_values(|i: GetInstitutionsItem| item_view(i)) == named_places(results@.take(i as int)),
            decreases n - i,
        {
            let r = &results[i];
            proof {
                assert(results@.take(i + 1).drop_last() =~= results@.take(i as int));
                assert(results@.take(i + 1).last() == *r);
            }
            let ghost before = items@;
            if let Some(name) = &r.name {
                items.push(
                    GetInstitutionsItem {
                        name: name.clone(),
                        formatted_address: string_or_default(&r.formatted_address),
                        place_id: string_or_default(&r.place_id),
                    },
                );
                proof {
                    assert(items@.map_values(|i: GetInstitutionsItem| item_view(i)) =~= before.map_values(
                        |i: GetInstitutionsItem| item_view(i),
                    ).push((name@, text_or_empty(r.formatted_address), text_or_empty(r.place_id))));
                }
            }
            i = i + 1;
        }
        items
    }

    /// What is shown of a place: its name and address (empty where missing), the place id
    /// asked for, and the full names of the last address parts that are a country, a city
    /// (a locality or a postal town) and a postal code.
    pub fn institution_detail(place_id: String, detail: &PlaceDetail) -> (item: GetInstitutionDetailItem)
        ensures
            item.name@ == text_or_empty(detail.name),
            item.formatted_address@ == text_or_empty(detail.formatted_address),
            item.place_id@ == place_id@,
            text_opt(item.country) == part_named(detail.address_components@, seq!["country"@]),
            text_opt(item.city) == part_named(detail.address_components@, seq!["locality"@, "postal_town"@]),
            text_opt(item.postal_code) == part_named(detail.address_components@, seq!["postal_code"@]),
            text_opt(item.international_phone_number) == text_opt(detail.international_phone_number),
    {
        let country_kinds: Vec<&str> = vec!["country"];
        let city_kinds: Vec<&str> = vec!["locality", "postal_town"];
        let postal_kinds: Vec<&str> = vec!["postal_code"];
        let country = find_part(&detail.address_components, &country_kinds);
        let city = find_part(&detail.address_components, &city_kinds);
        let postal_code = find_part(&detail.address_components, &postal_kinds);
        assert(country_kinds@.map_values(|k: &str| k@) =~= seq!["country"@]);
        assert(city_kinds@.map_values(|k: &str| k@) =~= seq!["locality"@, "postal_town"@]);
        assert(postal_kinds@.map_values(|k: &str| k@) =~= seq!["postal_code"@]);
        GetInstitutionDetailItem {
            name: string_or_default(&detail.name),
            formatted_address: string_or_default(&detail.formatted_address),
            place_id,
            country,
            city,
            postal_code,
            international_phone_number: copy_text(&detail.international_phone_number),
        }
    }
}

} // verus!
