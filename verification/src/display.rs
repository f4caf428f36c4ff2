//! Shortening of stored text for display. The stored text is never changed.

use vstd::prelude::*;
use vstd::string::*;
use vstd::utf8::{encode_utf8, is_char_boundary};
use crate::trip::Trip;

verus! {

/// The bytes of the date in a timestamp: its first ten, or all of them
/// where there are fewer.
pub open spec fn date_bytes(bytes: Seq<u8>) -> Seq<u8> {
    if bytes.len() >= 10 {
        bytes.subrange(0, 10)
    } else {
        bytes
    }
}

/// Whether the date can be cut out of a timestamp: a cut after ten bytes
/// must not fall inside a character.
pub open spec fn date_can_be_cut(text: Seq<char>) -> bool {
    encode_utf8(text).len() >= 10 ==> is_char_boundary(encode_utf8(text), 10)
}

/// Whether the date can be cut out of `date_str`.
pub fn has_date_cut(date_str: &str) -> (ok: bool)
    ensures
        ok == date_can_be_cut(date_str@),
{
    date_str.as_bytes().len() < 10 || date_str.is_char_boundary(10)
}

/// Cuts the date out of a timestamp such as `2020-01-01 00:28:15`.
pub fn format_date(date_str: &str) -> (date: String)
    requires
        date_can_be_cut(date_str@),
    ensures
        encode_utf8(date@) == date_bytes(encode_utf8(date_str@)),
{
    if date_str.as_bytes().len() >= 10 {
        let (head, _) = date_str.split_at(10);
        String::from_str(head)
    } else {
        String::from_str(date_str)
    }
}

/// The line that announces a record that was found: where it went from and
/// to, how far, and the fare, each as the service sent it.
pub open spec fn found_entry(
    origin: Seq<char>,
    destination: Seq<char>,
    distance: Seq<char>,
    fare: Seq<char>,
) -> Seq<char> {
    "Viaje encontrado: Origen "@ + origin + " → Destino "@ + destination + ", Distancia: "@
        + distance + ", Importe: $"@ + fare + " USD"@
}

/// Writes the line that announces `trip`.
pub fn found_line(trip: &Trip) -> (line: String)
    ensures
        line@ == found_entry(
            trip.pu_location_id@,
            trip.do_location_id@,
            trip.trip_distance@,
            trip.fare_amount@,
        ),
{
    let mut line = String::from_str("Viaje encontrado: Origen ");
    line.append(trip.pu_location_id.as_str());
    line.append(" → Destino ");
    line.append(trip.do_location_id.as_str());
    line.append(", Distancia: ");
    line.append(trip.trip_distance.as_str());
    line.append(", Importe: $");
    line.append(trip.fare_amount.as_str());
    line.append(" USD");
    line
}

} // verus!
