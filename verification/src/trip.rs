//! The records of the dataset and the wire form of the paged queries.

use vstd::prelude::*;
use vstd::string::*;

verus! {

/// One trip observation. Every field is carried as the text the service
/// sent, whatever it looks like: nothing here is parsed or reformatted.
#[derive(Debug, Clone, PartialEq, Eq)]
pub struct Trip {
    pub vendor_id: String,
    pub tpep_pickup_datetime: String,
    pub tpep_dropoff_datetime: String,
    pub passenger_count: String,
    pub trip_distance: String,
    pub ratecode_id: String,
    pub store_and_fwd_flag: String,
    pub pu_location_id: String,
    pub do_location_id: String,
    pub payment_type: String,
    pub fare_amount: String,
    pub extra: String,
    pub mta_tax: String,
    pub tip_amount: String,
    pub tolls_amount: String,
    pub improvement_surcharge: String,
    pub total_amount: String,
    pub congestion_surcharge: String,
    pub index: String,
}

/// A trip as plain text.
pub struct TripView {
    pub vendor_id: Seq<char>,
    pub tpep_pickup_datetime: Seq<char>,
    pub tpep_dropoff_datetime: Seq<char>,
    pub passenger_count: Seq<char>,
    pub trip_distance: Seq<char>,
    pub ratecode_id: Seq<char>,
    pub store_and_fwd_flag: Seq<char>,
    pub pu_location_id: Seq<char>,
    pub do_location_id: Seq<char>,
    pub payment_type: Seq<char>,
    pub fare_amount: Seq<char>,
    pub extra: Seq<char>,
    pub mta_tax: Seq<char>,
    pub tip_amount: Seq<char>,
    pub tolls_amount: Seq<char>,
    pub improvement_surcharge: Seq<char>,
    pub total_amount: Seq<char>,
    pub congestion_surcharge: Seq<char>,
    pub index: Seq<char>,
}

impl View for Trip {
    type V = TripView;

    open spec fn view(&self) -> TripView {
        TripView {
            vendor_id: self.vendor_id@,
            tpep_pickup_datetime: self.tpep_pickup_datetime@,
            tpep_dropoff_datetime: self.tpep_dropoff_datetime@,
            passenger_count: self.passenger_count@,
            trip_distance: self.trip_distance@,
            ratecode_id: self.ratecode_id@,
            store_and_fwd_flag: self.store_and_fwd_flag@,
            pu_location_id: self.pu_location_id@,
            do_location_id: self.do_location_id@,
            payment_type: self.payment_type@,
            fare_amount: self.fare_amount@,
            extra: self.extra@,
            mta_tax: self.mta_tax@,
            tip_amount: self.tip_amount@,
            tolls_amount: self.tolls_amount@,
            improvement_surcharge: self.improvement_surcharge@,
            total_amount: self.total_amount@,
            congestion_surcharge: self.congestion_surcharge@,
            index: self.index@,
        }
    }
}

/// The parameters of a search by price range, as they go on the wire.
#[derive(Debug, Clone, PartialEq, Eq)]
pub struct GetByPriceRangeInput {
    pub min: String,
    pub max: String,
    pub pages: String,
    pub per_page: String,
}

/// What a price-range query says, as plain text.
pub struct PriceRangeInputView {
    pub min: Seq<char>,
    pub max: Seq<char>,
    pub pages: Seq<char>,
    pub per_page: Seq<char>,
}

impl View for GetByPriceRangeInput {
    type V = PriceRangeInputView;

    open spec fn view(&self) -> PriceRangeInputView {
        PriceRangeInputView {
            min: self.min@,
            max: self.max@,
            pages: self.pages@,
            per_page: self.per_page@,
        }
    }
}

/// The parameters of a search by destination zone, as they go on the wire.
#[derive(Debug, Clone, PartialEq, Eq)]
pub struct GetByDestinationInput {
    pub destination: String,
    pub pages: String,
    pub per_page: String,
}

/// What a destination query says, as plain text.
pub struct DestinationInputView {
    pub destination: Seq<char>,
    pub pages: Seq<char>,
    pub per_page: Seq<char>,
}

impl View for GetByDestinationInput {
    type V = DestinationInputView;

    open spec fn view(&self) -> DestinationInputView {
        DestinationInputView {
            destination: self.destination@,
            pages: self.pages@,
            per_page: self.per_page@,
        }
    }
}

/// One page of results, with the service's own account of where it stands.
#[derive(Debug, Clone, PartialEq, Eq)]
pub struct GetByPriceRangeOutput {
    pub items: Vec<Trip>,
    pub page: u32,
    pub pages: u32,
    pub per_page: u32,
    pub time_ms: u32,
    pub total: u32,
}

/// One page of results as plain values.
pub struct ResultPageView {
    pub items: Seq<TripView>,
    pub page: u32,
    pub pages: u32,
    pub per_page: u32,
    pub time_ms: u32,
    pub total: u32,
}

impl View for GetByPriceRangeOutput {
    type V = ResultPageView;

    open spec fn view(&self) -> ResultPageView {
        ResultPageView {
            items: self.items@.map_values(|trip: Trip| trip@),
            page: self.page,
            pages: self.pages,
            per_page: self.per_page,
            time_ms: self.time_ms,
            total: self.total,
        }
    }
}

impl ResultPageView {
    /// The page that stands for one record found by its identifier: the
    /// only page there is, holding that record.
    pub open spec fn single(trip: TripView) -> ResultPageView {
        ResultPageView { items: seq![trip], page: 1, pages: 1, per_page: 1, time_ms: 0, total: 1 }
    }
}

impl GetByPriceRangeOutput {
    /// The result of a lookup that found one record: a single page holding it.
    pub fn single(trip: Trip) -> (result: GetByPriceRangeOutput)
        ensures
            result@ == ResultPageView::single(trip@),
    {
        let mut items: Vec<Trip> = Vec::new();
        items.push(trip);
        let result = GetByPriceRangeOutput {
            items,
            page: 1,
            pages: 1,
            per_page: 1,
            time_ms: 0,
            total: 1,
        };
        assert(result@.items =~= seq![trip@]);
        result
    }
}

} // verus!
