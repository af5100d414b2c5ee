use citum_core::reference::contributor::{Contributor, StructuredName};
use citum_core::reference::conversion::{contributor_from_names, edtf_from_date, format_interviewer_note};
use citum_core::reference::csl_json::{CslDate, CslName, CslReference, StringOrNumber};
use citum_core::reference::types::{MultilingualString, Title};
use citum_core::reference::InputReference;

fn name(family: &str, given: &str) -> CslName {
    CslName {
        family: Some(family.to_string()),
        given: Some(given.to_string()),
        ..Default::default()
    }
}

fn csl(id: &str, kind: &str) -> CslReference {
    CslReference {
        id: id.to_string(),
        ref_type: kind.to_string(),
        ..Default::default()
    }
}

#[test]
fn test_parse_csl_json() {
    let mut legacy = csl("kuhn1962", "book");
    legacy.author = Some(vec![name("Kuhn", "Thomas S.")]);
    legacy.title = Some("The Structure of Scientific Revolutions".to_string());
    legacy.issued = Some(CslDate { date_parts: Some(vec![vec![1962]]), literal: None });
    legacy.publisher = Some("University of Chicago Press".to_string());
    legacy.publisher_place = Some("Chicago".to_string());

    let reference = InputReference::from_csl(legacy);
    assert_eq!(reference.id().unwrap(), "kuhn1962");
    assert_eq!(reference.ref_type(), "book");

    if let Some(Contributor::ContributorList(list)) = reference.author() {
        if let Contributor::StructuredName(name) = &list.0[0] {
            assert_eq!(name.family, MultilingualString::Simple("Kuhn".to_string()));
        }
    }
}

#[test]
fn test_book_fields_carry_over() {
    let mut legacy = csl("kuhn1962", "book");
    legacy.title = Some("Revolutions".to_string());
    legacy.issued = Some(CslDate { date_parts: Some(vec![vec![1962]]), literal: None });
    legacy.publisher = Some("University of Chicago Press".to_string());
    legacy.publisher_place = Some("Chicago".to_string());
    legacy.edition = Some(StringOrNumber::Number(2));
    let reference = InputReference::from_csl(legacy);
    assert_eq!(reference.title(), Some(Title::Single("Revolutions".to_string())));
    assert_eq!(reference.issued().unwrap().0, "1962");
    assert_eq!(reference.publisher_place(), Some("Chicago".to_string()));
    assert_eq!(reference.edition(), Some("2".to_string()));
}

#[test]
fn test_place_without_publisher_is_dropped() {
    let mut legacy = csl("p1", "book");
    legacy.publisher_place = Some("Chicago".to_string());
    let reference = InputReference::from_csl(legacy);
    assert_eq!(reference.publisher_place(), None);
}

#[test]
fn test_article_becomes_serial_component() {
    let mut legacy = csl("a1", "article-journal");
    legacy.container_title = Some("Nature".to_string());
    legacy.volume = Some(StringOrNumber::String("12".to_string()));
    legacy.page = Some("1-10".to_string());
    let reference = InputReference::from_csl(legacy);
    assert!(matches!(reference, InputReference::SerialComponent(_)));
    assert_eq!(reference.ref_type(), "article-journal");
    assert_eq!(reference.container_title(), Some(Title::Single("Nature".to_string())));
}

#[test]
fn test_chapter_becomes_collection_component() {
    let reference = InputReference::from_csl(csl("c1", "chapter"));
    assert!(matches!(reference, InputReference::CollectionComponent(_)));
    assert_eq!(reference.ref_type(), "chapter");
}

#[test]
fn test_url_is_normalized_by_the_url_crate() {
    let mut legacy = csl("w1", "webpage");
    legacy.url = Some("https://example.com".to_string());
    let reference = InputReference::from_csl(legacy);
    match reference {
        InputReference::Monograph(m) => assert_eq!(m.url, Some("https://example.com/".to_string())),
        _ => panic!("a webpage converts to a monograph"),
    }
}

#[test]
fn test_relative_url_is_dropped() {
    let mut legacy = csl("w2", "webpage");
    legacy.url = Some("not a url".to_string());
    let reference = InputReference::from_csl(legacy);
    match reference {
        InputReference::Monograph(m) => assert_eq!(m.url, None),
        _ => panic!("a webpage converts to a monograph"),
    }
}

#[test]
fn test_date_parts_are_padded() {
    let date = CslDate { date_parts: Some(vec![vec![2023, 5, 7]]), literal: None };
    assert_eq!(edtf_from_date(date).0, "2023-05-07");
    let date = CslDate { date_parts: Some(vec![vec![987, 11]]), literal: None };
    assert_eq!(edtf_from_date(date).0, "0987-11");
}

#[test]
fn test_literal_date_wins() {
    let date = CslDate { date_parts: Some(vec![vec![2023]]), literal: Some("Spring 2023".to_string()) };
    assert_eq!(edtf_from_date(date).0, "Spring 2023");
    let date = CslDate { date_parts: Some(vec![]), literal: None };
    assert_eq!(edtf_from_date(date).0, "");
}

#[test]
fn test_names_become_a_list() {
    let c = contributor_from_names(vec![name("Doe", "Jane"), name("Roe", "Richard")]);
    match c {
        Contributor::ContributorList(list) => {
            assert_eq!(list.0.len(), 2);
            match &list.0[1] {
                Contributor::StructuredName(StructuredName { family, given, .. }) => {
                    assert_eq!(*family, MultilingualString::Simple("Roe".to_string()));
                    assert_eq!(*given, MultilingualString::Simple("Richard".to_string()));
                },
                _ => panic!("a family name gives a structured name"),
            }
        },
        _ => panic!("names give a list"),
    }
}

#[test]
fn test_interviewer_note() {
    let note = format_interviewer_note(&vec![name("Smith", "Ann"), name("Jones", "Bob")]);
    assert_eq!(note, Some("A. Smith, B. Jones, Interviewer".to_string()));
    assert_eq!(format_interviewer_note(&vec![]), None);
}

#[test]
fn test_month_and_date_texts() {
    let months: Vec<String> = ["January", "February", "March"].iter().map(|m| m.to_string()).collect();
    assert_eq!(citum_core::reference::date::EdtfString::month_to_string(2, &months), "February");
    assert_eq!(citum_core::reference::date::EdtfString::month_to_string(0, &months), "");
    assert_eq!(citum_core::reference::date::EdtfString::month_to_string(4, &months), "");
    assert_eq!(citum_core::reference::date::EdtfString::compose_year_month("March", "2024"), "March 2024");
    assert_eq!(citum_core::reference::date::EdtfString::compose_year_month("", "2024"), "");
    assert_eq!(citum_core::reference::date::EdtfString::compose_month_day("March", Some(15)), "March 15");
    assert_eq!(citum_core::reference::date::EdtfString::compose_month_day("", Some(15)), "");
    assert_eq!(citum_core::reference::date::EdtfString::compose_month_day("March", None), "");
}

#[test]
fn test_url_getter_returns_the_parsed_url() {
    let mut legacy = csl("a1", "article-journal");
    legacy.url = Some("HTTPS://Example.com/path".to_string());
    let reference = InputReference::from_csl(legacy);
    assert_eq!(reference.url(), Some("https://example.com/path".to_string()));
    let plain = InputReference::from_csl(csl("a2", "article-journal"));
    assert_eq!(plain.url(), None);
}
