//! What can go wrong around the engine.

use vstd::prelude::*;

verus! {

/// A failure of one of the services the feed depends on.
#[derive(Debug, PartialEq, Eq)]
pub enum FeedError {
    /// The store did not become ready within the retry budget.
    StoreUnavailable,
    /// The store failed to answer a query; carries its message.
    StoreQueryError(String),
    /// The catalog search failed; carries the provider's message.
    SearchProviderError(String),
    /// Every mirror of the detail service failed; carries the message that
    /// sums the attempt up.
    DetailFetchExhausted(String),
}

/// A `FeedError` as plain values.
pub enum FeedErrorView {
    StoreUnavailable,
    StoreQueryError(Seq<char>),
    SearchProviderError(Seq<char>),
    DetailFetchExhausted(Seq<char>),
}

impl View for FeedError {
    type V = FeedErrorView;

    open spec fn view(&self) -> FeedErrorView {
        match self {
            FeedError::StoreUnavailable => FeedErrorView::StoreUnavailable,
            FeedError::StoreQueryError(message) => FeedErrorView::StoreQueryError(message@),
            FeedError::SearchProviderError(message) => FeedErrorView::SearchProviderError(
                message@,
            ),
            FeedError::DetailFetchExhausted(message) => FeedErrorView::DetailFetchExhausted(
                message@,
            ),
        }
    }
}

impl Clone for FeedError {
    fn clone(&self) -> (copy: Self)
        ensures
            copy@ == self@,
    {
        match self {
            FeedError::StoreUnavailable => FeedError::StoreUnavailable,
            FeedError::StoreQueryError(message) => FeedError::StoreQueryError(message.clone()),
            FeedError::SearchProviderError(message) => FeedError::SearchProviderError(
                message.clone(),
            ),
            FeedError::DetailFetchExhausted(message) => FeedError::DetailFetchExhausted(
                message.clone(),
            ),
        }
    }
}

} // verus!
