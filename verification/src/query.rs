//! The three kinds of search, and the request each one turns into.

use vstd::prelude::*;
use vstd::string::*;
use crate::text::{decimal, decimal_text};
use crate::trip::{
    DestinationInputView, GetByDestinationInput, GetByPriceRangeInput, PriceRangeInputView,
};

verus! {

/// What the user asks for. Text fields are kept exactly as entered.
#[derive(Debug, Clone, PartialEq, Eq)]
pub enum SearchQuery {
    ByIndex { index: String },
    ByPriceRange { min: String, max: String, page: u32, per_page: u32 },
    ByDestination { destination_id: String, page: u32, per_page: u32 },
}

/// A search as plain values.
pub enum QueryView {
    ByIndex { index: Seq<char> },
    ByPriceRange { min: Seq<char>, max: Seq<char>, page: u32, per_page: u32 },
    ByDestination { destination_id: Seq<char>, page: u32, per_page: u32 },
}

/// The request that the client is to perform for a search.
#[derive(Debug, Clone, PartialEq, Eq)]
pub enum FetchRequest {
    Index(String),
    PriceRange(GetByPriceRangeInput),
    Destination(GetByDestinationInput),
}

/// A request as plain values.
pub enum RequestView {
    Index(Seq<char>),
    PriceRange(PriceRangeInputView),
    Destination(DestinationInputView),
}

impl View for FetchRequest {
    type V = RequestView;

    open spec fn view(&self) -> RequestView {
        match self {
            FetchRequest::Index(index) => RequestView::Index(index@),
            FetchRequest::PriceRange(input) => RequestView::PriceRange(input@),
            FetchRequest::Destination(input) => RequestView::Destination(input@),
        }
    }
}

impl QueryView {
    /// Whether the search is served page by page.
    pub open spec fn is_paged(self) -> bool {
        !(self is ByIndex)
    }

    /// The page asked for. A lookup by identifier has one page, the first.
    pub open spec fn page(self) -> u32 {
        match self {
            QueryView::ByIndex { .. } => 1,
            QueryView::ByPriceRange { page, .. } => page,
            QueryView::ByDestination { page, .. } => page,
        }
    }

    /// The same search, asking for page `n`. A lookup by identifier has no
    /// page to change.
    pub open spec fn with_page(self, n: u32) -> QueryView {
        match self {
            QueryView::ByIndex { index } => QueryView::ByIndex { index },
            QueryView::ByPriceRange { min, max, page, per_page } => QueryView::ByPriceRange {
                min,
                max,
                page: n,
                per_page,
            },
            QueryView::ByDestination { destination_id, page, per_page } => {
                QueryView::ByDestination { destination_id, page: n, per_page }
            },
        }
    }

    /// Pages and page sizes count from one.
    pub open spec fn well_formed(self) -> bool {
        match self {
            QueryView::ByIndex { .. } => true,
            QueryView::ByPriceRange { page, per_page, .. } => page >= 1 && per_page >= 1,
            QueryView::ByDestination { page, per_page, .. } => page >= 1 && per_page >= 1,
        }
    }

    /// The request for this search: text as entered, numbers in decimal.
    pub open spec fn request(self) -> RequestView {
        match self {
            QueryView::ByIndex { index } => RequestView::Index(index),
            QueryView::ByPriceRange { min, max, page, per_page } => RequestView::PriceRange(
                PriceRangeInputView {
                    min,
                    max,
                    pages: decimal(page as nat),
                    per_page: decimal(per_page as nat),
                },
            ),
            QueryView::ByDestination { destination_id, page, per_page } => {
                RequestView::Destination(
                    DestinationInputView {
                        destination: destination_id,
                        pages: decimal(page as nat),
                        per_page: decimal(per_page as nat),
                    },
                )
            },
        }
    }
}

impl View for SearchQuery {
    type V = QueryView;

    open spec fn view(&self) -> QueryView {
        match self {
            SearchQuery::ByIndex { index } => QueryView::ByIndex { index: index@ },
            SearchQuery::ByPriceRange { min, max, page, per_page } => QueryView::ByPriceRange {
                min: min@,
                max: max@,
                page: *page,
                per_page: *per_page,
            },
            SearchQuery::ByDestination { destination_id, page, per_page } => {
                QueryView::ByDestination {
                    destination_id: destination_id@,
                    page: *page,
                    per_page: *per_page,
                }
            },
        }
    }
}

impl SearchQuery {
    /// Whether pages and page sizes count from one.
    pub fn is_well_formed(&self) -> (ok: bool)
        ensures
            ok == self@.well_formed(),
    {
        match self {
            SearchQuery::ByIndex { .. } => true,
            SearchQuery::ByPriceRange { page, per_page, .. } => *page >= 1 && *per_page >= 1,
            SearchQuery::ByDestination { page, per_page, .. } => *page >= 1 && *per_page >= 1,
        }
    }

    /// Whether the search is served page by page.
    pub fn is_paged(&self) -> (paged: bool)
        ensures
            paged == self@.is_paged(),
    {
        match self {
            SearchQuery::ByIndex { .. } => false,
            _ => true,
        }
    }

    /// The page asked for.
    pub fn page(&self) -> (page: u32)
        ensures
            page == self@.page(),
    {
        match self {
            SearchQuery::ByIndex { .. } => 1,
            SearchQuery::ByPriceRange { page, .. } => *page,
            SearchQuery::ByDestination { page, .. } => *page,
        }
    }

    /// The same search, asking for page `n`.
    pub fn with_page(&self, n: u32) -> (query: SearchQuery)
        ensures
            query@ == self@.with_page(n),
    {
        match self {
            SearchQuery::ByIndex { index } => SearchQuery::ByIndex { index: index.clone() },
            SearchQuery::ByPriceRange { min, max, page: _, per_page } => {
                SearchQuery::ByPriceRange {
                    min: min.clone(),
                    max: max.clone(),
                    page: n,
                    per_page: *per_page,
                }
            },
            SearchQuery::ByDestination { destination_id, page: _, per_page } => {
                SearchQuery::ByDestination {
                    destination_id: destination_id.clone(),
                    page: n,
                    per_page: *per_page,
                }
            },
        }
    }

    /// Builds the request for this search. Text goes through as entered;
    /// it is for the service to reject what it cannot read.
    pub fn to_request(&self) -> (request: FetchRequest)
        ensures
            request@ == self@.request(),
    {
        match self {
            SearchQuery::ByIndex { index } => FetchRequest::Index(index.clone()),
            SearchQuery::ByPriceRange { min, max, page, per_page } => FetchRequest::PriceRange(
                GetByPriceRangeInput {
                    min: min.clone(),
                    max: max.clone(),
                    pages: decimal_text(*page as u64),
                    per_page: decimal_text(*per_page as u64),
                },
            ),
            SearchQuery::ByDestination { destination_id, page, per_page } => {
                FetchRequest::Destination(
                    GetByDestinationInput {
                        destination: destination_id.clone(),
                        pages: decimal_text(*page as u64),
                        per_page: decimal_text(*per_page as u64),
                    },
                )
            },
        }
    }
}

} // verus!
