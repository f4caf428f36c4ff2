use trip_browser::query::{FetchRequest, SearchQuery};
use trip_browser::trip::{GetByDestinationInput, GetByPriceRangeInput};

fn by_price(page: u32, per_page: u32) -> SearchQuery {
    SearchQuery::ByPriceRange {
        min: "10".to_string(),
        max: "200".to_string(),
        page,
        per_page,
    }
}

fn by_destination(page: u32, per_page: u32) -> SearchQuery {
    SearchQuery::ByDestination { destination_id: "236".to_string(), page, per_page }
}

#[test]
fn request_of_a_lookup_by_identifier() {
    let query = SearchQuery::ByIndex { index: "17".to_string() };
    assert_eq!(query.to_request(), FetchRequest::Index("17".to_string()));
}

#[test]
fn request_of_a_price_search() {
    assert_eq!(
        by_price(3, 10).to_request(),
        FetchRequest::PriceRange(GetByPriceRangeInput {
            min: "10".to_string(),
            max: "200".to_string(),
            pages: "3".to_string(),
            per_page: "10".to_string(),
        })
    );
}

#[test]
fn request_of_a_destination_search() {
    assert_eq!(
        by_destination(12, 50).to_request(),
        FetchRequest::Destination(GetByDestinationInput {
            destination: "236".to_string(),
            pages: "12".to_string(),
            per_page: "50".to_string(),
        })
    );
}

#[test]
fn text_goes_through_as_entered() {
    let query = SearchQuery::ByPriceRange {
        min: " 1e3 ".to_string(),
        max: "abc".to_string(),
        page: 1,
        per_page: 5,
    };
    match query.to_request() {
        FetchRequest::PriceRange(input) => {
            assert_eq!(input.min, " 1e3 ");
            assert_eq!(input.max, "abc");
            assert_eq!(input.pages, "1");
            assert_eq!(input.per_page, "5");
        }
        other => panic!("unexpected request {:?}", other),
    }
}

#[test]
fn page_of_each_kind_of_search() {
    assert_eq!(SearchQuery::ByIndex { index: "1".to_string() }.page(), 1);
    assert_eq!(by_price(4, 10).page(), 4);
    assert_eq!(by_destination(9, 10).page(), 9);
}

#[test]
fn only_searches_are_paged() {
    assert!(!SearchQuery::ByIndex { index: "1".to_string() }.is_paged());
    assert!(by_price(1, 10).is_paged());
    assert!(by_destination(1, 10).is_paged());
}

#[test]
fn changing_the_page_keeps_the_rest() {
    assert_eq!(by_price(1, 10).with_page(6), by_price(6, 10));
    assert_eq!(by_destination(2, 20).with_page(1), by_destination(1, 20));
    let lookup = SearchQuery::ByIndex { index: "8".to_string() };
    assert_eq!(lookup.with_page(5), lookup);
}

#[test]
fn pages_and_sizes_count_from_one() {
    assert!(by_price(1, 1).is_well_formed());
    assert!(!by_price(0, 10).is_well_formed());
    assert!(!by_price(1, 0).is_well_formed());
    assert!(by_destination(7, 5).is_well_formed());
    assert!(!by_destination(0, 5).is_well_formed());
    assert!(!by_destination(3, 0).is_well_formed());
    assert!(SearchQuery::ByIndex { index: String::new() }.is_well_formed());
}
