use nerdnuggets::calendar::{datetime_to_string, format_us_date, generate_doi_identifier, CalendarDate};
use nerdnuggets::places::{AddressComponent, PlaceDetail, PlaceResult};
use nerdnuggets::service::UtilService;

fn date(year: i32, month: u32, day: u32) -> CalendarDate {
    CalendarDate { year, month, day }
}

#[test]
fn dates_are_written_as_month_day_year() {
    assert_eq!(format_us_date(&date(2025, 3, 7)), "03/07/2025");
    assert_eq!(format_us_date(&date(987, 12, 31)), "12/31/0987");
    assert_eq!(format_us_date(&date(12345, 1, 1)), "01/01/+12345");
    assert_eq!(format_us_date(&date(-44, 3, 15)), "03/15/-0044");
}

#[test]
fn long_dates() {
    assert_eq!(datetime_to_string(Some(date(2025, 3, 7))), "Mar 07, 2025");
    assert_eq!(datetime_to_string(Some(date(2024, 12, 25))), "Dec 25, 2024");
    assert_eq!(datetime_to_string(None), "");
}

#[test]
fn doi_identifiers() {
    assert_eq!(generate_doi_identifier(Some(date(2025, 4, 2)), date(2000, 1, 1), "NB20251234A"), "202504.20251234");
    assert_eq!(generate_doi_identifier(None, date(2024, 11, 30), "NB7A"), "202411.7");
    for proposal in ["20251234", "", "x-y", "提案"] {
        let article = nerdnuggets::commons::get_article_id_from_proposal_id(proposal);
        assert_eq!(generate_doi_identifier(Some(date(2025, 3, 9)), date(2000, 1, 1), &article), format!("202503.{proposal}"));
    }
    assert_eq!(generate_doi_identifier(None, date(2024, 11, 30), "é12A"), "202411.12");
}

fn place(name: Option<&str>, addr: Option<&str>, id: Option<&str>) -> PlaceResult {
    PlaceResult {
        name: name.map(|s| s.to_string()),
        formatted_address: addr.map(|s| s.to_string()),
        place_id: id.map(|s| s.to_string()),
    }
}

#[test]
fn institutions_keep_named_places_among_the_first_ten() {
    let mut results = vec![place(Some("MIT"), Some("Cambridge"), Some("p1")), place(None, Some("x"), Some("p2")), place(Some("ETH"), None, None)];
    let items = UtilService::institutions_from_results(&results);
    assert_eq!(items.len(), 2);
    assert_eq!((items[0].name.as_str(), items[0].formatted_address.as_str(), items[0].place_id.as_str()), ("MIT", "Cambridge", "p1"));
    assert_eq!((items[1].name.as_str(), items[1].formatted_address.as_str(), items[1].place_id.as_str()), ("ETH", "", ""));
    for i in 0..12 {
        results.push(place(Some(&format!("U{i}")), None, None));
    }
    let items = UtilService::institutions_from_results(&results);
    assert_eq!(items.len(), 9);
    assert_eq!(items.last().unwrap().name, "U6");
}

fn part(kinds: &[&str], name: Option<&str>) -> AddressComponent {
    AddressComponent { types: kinds.iter().map(|k| k.to_string()).collect(), long_name: name.map(|s| s.to_string()) }
}

#[test]
fn institution_details_take_the_last_matching_parts() {
    let detail = PlaceDetail {
        name: Some("ETH Zurich".to_string()),
        formatted_address: None,
        international_phone_number: Some("+41".to_string()),
        address_components: vec![
            part(&["country", "political"], Some("Germany")),
            part(&["postal_town"], Some("Zurich")),
            part(&["postal_code"], Some("8092")),
            part(&["country"], Some("Switzerland")),
        ],
    };
    let item = UtilService::institution_detail("pid".to_string(), &detail);
    assert_eq!(item.name, "ETH Zurich");
    assert_eq!(item.formatted_address, "");
    assert_eq!(item.place_id, "pid");
    assert_eq!(item.country.as_deref(), Some("Switzerland"));
    assert_eq!(item.city.as_deref(), Some("Zurich"));
    assert_eq!(item.postal_code.as_deref(), Some("8092"));
    assert_eq!(item.international_phone_number.as_deref(), Some("+41"));
    let empty = PlaceDetail { name: None, formatted_address: None, international_phone_number: None, address_components: vec![] };
    let item = UtilService::institution_detail("q".to_string(), &empty);
    assert_eq!((item.name.as_str(), item.country.is_none(), item.city.is_none()), ("", true, true));
}

#[test]
fn place_search_urls() {
    assert_eq!(
        UtilService::institutions_search_url("university", "KEY", "mit"),
        "https://maps.googleapis.com/maps/api/place/textsearch/json?type=university&key=KEY&query=mit"
    );
    assert_eq!(
        UtilService::institution_detail_url("KEY", "abc"),
        "https://maps.googleapis.com/maps/api/place/details/json?key=KEY&placeid=abc"
    );
}

#[test]
fn category_names_are_trimmed() {
    let names = UtilService::category_names(&vec!["  Physics ".to_string(), "\tAI\n".to_string(), "Bio Tech".to_string(), "   ".to_string()]);
    assert_eq!(names, vec!["Physics", "AI", "Bio Tech", ""]);
    assert!(UtilService::found_category(None).is_err());
}

#[test]
fn calendar_dates_exist() {
    assert_eq!(CalendarDate::from_ymd(2024, 2, 29), Some(CalendarDate { year: 2024, month: 2, day: 29 }));
    assert_eq!(CalendarDate::from_ymd(2023, 2, 29), None);
    assert_eq!(CalendarDate::from_ymd(1900, 2, 29), None);
    assert_eq!(CalendarDate::from_ymd(2000, 2, 29), Some(CalendarDate { year: 2000, month: 2, day: 29 }));
    assert_eq!(CalendarDate::from_ymd(-4, 2, 29), Some(CalendarDate { year: -4, month: 2, day: 29 }));
    assert_eq!(CalendarDate::from_ymd(-100, 2, 29), None);
    assert_eq!(CalendarDate::from_ymd(2025, 4, 31), None);
    assert_eq!(CalendarDate::from_ymd(2025, 13, 1), None);
    assert_eq!(CalendarDate::from_ymd(2025, 1, 0), None);
    assert_eq!(CalendarDate::from_ymd(262143, 1, 1), None);
    assert_eq!(CalendarDate::from_ymd(-262143, 1, 1), Some(CalendarDate { year: -262143, month: 1, day: 1 }));
}
