use trip_browser::client::{
    destination_query, destination_url, index_url, is_success, price_range_url, status_name,
    FetchError, URL,
};
use trip_browser::trip::GetByDestinationInput;

#[test]
fn address_of_one_record() {
    assert_eq!(
        index_url("42"),
        "https://backend-rust-277582128315.us-central1.run.app/trip/42"
    );
    assert_eq!(index_url(""), format!("{}trip/", URL));
    assert_eq!(index_url("not a number"), format!("{}trip/not a number", URL));
}

#[test]
fn address_of_the_price_search() {
    assert_eq!(
        price_range_url(),
        "https://backend-rust-277582128315.us-central1.run.app/trip/price"
    );
}

#[test]
fn address_of_a_destination_search() {
    assert_eq!(
        destination_url("236"),
        "https://backend-rust-277582128315.us-central1.run.app/trip/destination/236"
    );
    assert_eq!(destination_url("x/y"), format!("{}trip/destination/x/y", URL));
}

#[test]
fn destination_parameters_leave_the_zone_out() {
    let input = GetByDestinationInput {
        destination: "236".to_string(),
        pages: "3".to_string(),
        per_page: "5".to_string(),
    };
    let query = destination_query(&input);
    assert_eq!(query.pages, "3");
    assert_eq!(query.per_page, "5");
}

#[test]
fn transport_failure_speaks_for_itself() {
    let error = FetchError::Transport("connection refused".to_string());
    assert_eq!(error.message(), "connection refused");
}

#[test]
fn decode_failure_speaks_for_itself() {
    let error = FetchError::Decode("missing field `page`".to_string());
    assert_eq!(error.message(), "missing field `page`");
}

#[test]
fn missing_record_names_the_status() {
    let error = FetchError::NotFound { status: 404 };
    assert_eq!(error.message(), "Error: Status 404 Not Found");
}

#[test]
fn rejected_search_names_status_and_body() {
    let error = FetchError::RemoteRejected {
        status: 400,
        body: Some("min must be a number".to_string()),
    };
    assert_eq!(error.message(), "Error 400 Bad Request: min must be a number");
    let empty = FetchError::RemoteRejected {
        status: 500,
        body: Some(String::new()),
    };
    assert_eq!(empty.message(), "Error 500 Internal Server Error: ");
}

#[test]
fn rejected_search_without_readable_body() {
    let error = FetchError::RemoteRejected { status: 502, body: None };
    assert_eq!(error.message(), "Error 502 Bad Gateway: Error desconocido");
}

#[test]
fn success_is_the_two_hundreds() {
    for code in 0u16..1200 {
        assert_eq!(is_success(code), (200..300).contains(&code));
    }
    assert!(is_success(200));
    assert!(is_success(204));
    assert!(is_success(299));
    assert!(!is_success(199));
    assert!(!is_success(300));
    assert!(!is_success(404));
    assert!(!is_success(u16::MAX));
}

#[test]
fn status_is_named_with_its_reason() {
    assert_eq!(status_name(200), "200 OK");
    assert_eq!(status_name(404), "404 Not Found");
    assert_eq!(status_name(500), "500 Internal Server Error");
    assert_eq!(status_name(299), "299 <unknown status code>");
}

#[test]
fn number_that_is_no_status_is_named_bare() {
    assert_eq!(status_name(0), "0");
    assert_eq!(status_name(99), "99");
    assert_eq!(status_name(1000), "1000");
    assert_eq!(status_name(u16::MAX), "65535");
    let error = FetchError::NotFound { status: 42 };
    assert_eq!(error.message(), "Error: Status 42");
}

#[test]
fn one_slash_stands_between_service_and_route() {
    for url in [index_url("42"), price_range_url(), destination_url("236")] {
        let rest = url.strip_prefix("https://").expect("scheme");
        assert!(!rest.contains("//"));
        assert!(rest.contains(".run.app/trip/"));
    }
    assert!(URL.ends_with('/'));
}
