//! The units of remote work.
use vstd::prelude::*;
use core::cmp::Ordering;
use std::sync::Arc;
use crate::image::{Image, ImageView};

verus! {

/// One fetch that the scheduler can be asked for.
#[derive(Debug)]
pub enum Query {
    /// The catalog's chart, which stands in for the results of the empty
    /// search.
    ItunesChart,
    /// The catalog's answer to a search.
    ItunesSearch { query: String },
    /// What the catalog holds of one channel, by the channel's id.
    ItunesLookup { pk: String },
    /// The feed of the channel `pk`, at `url`.
    Rss { pk: String, url: String },
    /// An image. `associated_query` is the sequence number of the search
    /// whose results show the image, where it was asked for on behalf of
    /// one.
    Image { image: Arc<Image>, associated_query: Option<usize> },
}

/// The mathematical value of a [`Query`].
pub enum QueryView {
    ItunesChart,
    ItunesSearch { query: Seq<char> },
    ItunesLookup { pk: Seq<char> },
    Rss { pk: Seq<char>, url: Seq<char> },
    Image { image: ImageView, associated_query: Option<usize> },
}

impl QueryView {
    /// The priority class of the query. A higher number is served first:
    /// feeds before lookups, lookups before a search, a search before the
    /// chart, all of them before images, and an image that is not loaded
    /// before one that is.
    pub open spec fn priority(self) -> usize {
        match self {
            QueryView::Rss { .. } => 3000,
            QueryView::ItunesLookup { .. } => 2000,
            QueryView::ItunesSearch { .. } => 1001,
            QueryView::ItunesChart => 1000,
            QueryView::Image { image, .. } => if image.loaded() {
                1
            } else {
                500
            },
        }
    }

    /// Whether the query's answer replaces the search results: the chart
    /// and a search do.
    pub open spec fn is_search(self) -> bool {
        self is ItunesSearch || self is ItunesChart
    }
}

impl View for Query {
    type V = QueryView;

    open spec fn view(&self) -> QueryView {
        match *self {
            Query::ItunesChart => QueryView::ItunesChart,
            Query::ItunesSearch { query } => QueryView::ItunesSearch { query: query@ },
            Query::ItunesLookup { pk } => QueryView::ItunesLookup { pk: pk@ },
            Query::Rss { pk, url } => QueryView::Rss { pk: pk@, url: url@ },
            Query::Image { image, associated_query } => QueryView::Image {
                image: image@,
                associated_query,
            },
        }
    }
}

impl Query {
    /// The priority class of the query; a higher number is served first.
    pub fn priority(&self) -> (priority: usize)
        ensures
            priority == self@.priority(),
    {
        match self {
            Query::Rss { .. } => 3000,
            Query::ItunesLookup { .. } => 2000,
            Query::ItunesSearch { .. } => 1001,
            Query::ItunesChart => 1000,
            Query::Image { image, .. } => if image.loaded() {
                1
            } else {
                500
            },
        }
    }

    /// Whether the query's answer replaces the search results.
    pub fn is_search(&self) -> (r: bool)
        ensures
            r == self@.is_search(),
    {
        match self {
            Query::ItunesSearch { .. } => true,
            Query::ItunesChart => true,
            _ => false,
        }
    }
}

impl PartialEq for Query {
    /// Queries are equal when their priorities are.
    fn eq(&self, other: &Query) -> (same: bool) {
        self.priority() == other.priority()
    }
}

impl vstd::std_specs::cmp::PartialEqSpecImpl for Query {
    open spec fn obeys_eq_spec() -> bool {
        true
    }

    open spec fn eq_spec(&self, other: &Query) -> bool {
        self@.priority() == other@.priority()
    }
}

impl Eq for Query {

}

impl PartialOrd for Query {
    /// Queries are ordered by their priorities.
    fn partial_cmp(&self, other: &Query) -> (order: Option<Ordering>) {
        let mine: usize = self.priority();
        let theirs: usize = other.priority();
        if mine < theirs {
            Some(Ordering::Less)
        } else if mine == theirs {
            Some(Ordering::Equal)
        } else {
            Some(Ordering::Greater)
        }
    }
}

impl vstd::std_specs::cmp::PartialOrdSpecImpl for Query {
    open spec fn obeys_partial_cmp_spec() -> bool {
        true
    }

    open spec fn partial_cmp_spec(&self, other: &Query) -> Option<Ordering> {
        if self@.priority() < other@.priority() {
            Some(Ordering::Less)
        } else if self@.priority() == other@.priority() {
            Some(Ordering::Equal)
        } else {
            Some(Ordering::Greater)
        }
    }
}

} // verus!
