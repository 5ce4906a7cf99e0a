//! Pull-request values supplied by the code-hosting side. The engine only reads them.

use vstd::prelude::*;

verus! {

/// One review left on a pull request.
#[derive(Debug, Clone)]
pub struct Review {
    pub author: String,
    pub state: String,
    pub body: String,
}

/// The text of a review's fields.
pub struct ReviewView {
    pub author: Seq<char>,
    pub state: Seq<char>,
    pub body: Seq<char>,
}

impl View for Review {
    type V = ReviewView;

    open spec fn view(&self) -> ReviewView {
        ReviewView { author: self.author@, state: self.state@, body: self.body@ }
    }
}

/// One row of the list of open pull requests.
#[derive(Debug, Clone)]
pub struct PrSummary {
    pub number: u64,
    pub author: String,
    pub title: String,
    pub state: String,
    pub url: String,
    pub updated_at: String,
}

/// The text of a pull-request row.
pub struct PrSummaryView {
    pub number: u64,
    pub author: Seq<char>,
    pub title: Seq<char>,
    pub state: Seq<char>,
    pub url: Seq<char>,
    pub updated_at: Seq<char>,
}

impl View for PrSummary {
    type V = PrSummaryView;

    open spec fn view(&self) -> PrSummaryView {
        PrSummaryView {
            number: self.number,
            author: self.author@,
            title: self.title@,
            state: self.state@,
            url: self.url@,
            updated_at: self.updated_at@,
        }
    }
}

/// A pull request with its description and reviews.
#[derive(Debug, Clone)]
pub struct PrInfo {
    pub number: u64,
    pub author: String,
    pub title: String,
    pub state: String,
    pub url: String,
    pub updated_at: String,
    pub body: String,
    pub reviews: Vec<Review>,
}

/// The text of a pull request, reviews in their given order.
pub struct PrInfoView {
    pub number: u64,
    pub author: Seq<char>,
    pub title: Seq<char>,
    pub state: Seq<char>,
    pub url: Seq<char>,
    pub updated_at: Seq<char>,
    pub body: Seq<char>,
    pub reviews: Seq<ReviewView>,
}

impl View for PrInfo {
    type V = PrInfoView;

    open spec fn view(&self) -> PrInfoView {
        PrInfoView {
            number: self.number,
            author: self.author@,
            title: self.title@,
            state: self.state@,
            url: self.url@,
            updated_at: self.updated_at@,
            body: self.body@,
            reviews: self.reviews@.map_values(|r: Review| r@),
        }
    }
}

} // verus!
