use trip_browser::display::{format_date, found_line, has_date_cut};
use trip_browser::trip::Trip;

#[test]
fn date_of_a_timestamp() {
    assert_eq!(format_date("2020-01-01 00:28:15"), "2020-01-01");
    assert_eq!(format_date("2020-01-01T00:28:15Z"), "2020-01-01");
}

#[test]
fn exactly_a_date_stays() {
    assert_eq!(format_date("2020-01-01"), "2020-01-01");
}

#[test]
fn shorter_text_stays_whole() {
    assert_eq!(format_date("2020-01"), "2020-01");
    assert_eq!(format_date(""), "");
    assert_eq!(format_date("añoño"), "añoño");
}

#[test]
fn cut_falls_between_characters() {
    assert!(has_date_cut("2020-01-01 00:28:15"));
    assert!(has_date_cut("short"));
    assert!(has_date_cut("12345678ñ"));
    assert!(has_date_cut("12345678ñx"));
    assert!(!has_date_cut("123456789ñ"));
    assert!(!has_date_cut("123456789ñx"));
    assert_eq!(format_date("12345678ñx"), "12345678ñ");
}

#[test]
fn found_record_is_announced() {
    let trip = Trip {
        vendor_id: "2".to_string(),
        tpep_pickup_datetime: "2020-01-01 00:28:15".to_string(),
        tpep_dropoff_datetime: "2020-01-01 00:33:03".to_string(),
        passenger_count: "1".to_string(),
        trip_distance: "1.20".to_string(),
        ratecode_id: "1".to_string(),
        store_and_fwd_flag: "N".to_string(),
        pu_location_id: "238".to_string(),
        do_location_id: "239".to_string(),
        payment_type: "1".to_string(),
        fare_amount: "6".to_string(),
        extra: "3".to_string(),
        mta_tax: "0.5".to_string(),
        tip_amount: "1.47".to_string(),
        tolls_amount: "0".to_string(),
        improvement_surcharge: "0.3".to_string(),
        total_amount: "11.27".to_string(),
        congestion_surcharge: "2.5".to_string(),
        index: "1".to_string(),
    };
    assert_eq!(
        found_line(&trip),
        "Viaje encontrado: Origen 238 → Destino 239, Distancia: 1.20, Importe: $6 USD"
    );
}
