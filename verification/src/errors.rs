//! The error taxonomy shared by every provider and by the router.

use vstd::prelude::*;

verus! {

/// Why a market-data request produced no result.
#[derive(Clone, Debug, PartialEq, Eq)]
pub enum MarketDataError {
    /// The request exceeded its deadline.
    Timeout { provider: String },
    /// The provider's quota is exhausted.
    RateLimited { provider: String },
    /// The provider answered with an error status or a malformed payload.
    ProviderError { provider: String, message: String },
    /// The provider has no data for the symbol.
    SymbolNotFound(String),
    /// The instrument is of a kind that the provider does not serve.
    UnsupportedAssetType(String),
    /// A historical query left no usable row.
    NoDataForRange,
    /// A mandatory field failed validation.
    ValidationFailed { message: String },
    /// No registered provider can serve the request.
    NoProvidersAvailable,
}

/// A `MarketDataError` with its texts as sequences of characters.
pub enum ErrorView {
    Timeout { provider: Seq<char> },
    RateLimited { provider: Seq<char> },
    ProviderError { provider: Seq<char>, message: Seq<char> },
    SymbolNotFound(Seq<char>),
    UnsupportedAssetType(Seq<char>),
    NoDataForRange,
    ValidationFailed { message: Seq<char> },
    NoProvidersAvailable,
}

/// How the router treats a failure when it chooses the error to surface.
#[derive(Clone, Copy, Debug, PartialEq, Eq, Structural)]
pub enum ErrorClass {
    /// The provider may well answer the next request.
    Transient,
    /// The provider answered, and has nothing.
    NotFound,
    /// The provider or its payload is at fault.
    Hard,
}

impl View for MarketDataError {
    type V = ErrorView;

    open spec fn view(&self) -> ErrorView {
        match *self {
            MarketDataError::Timeout { provider } => ErrorView::Timeout { provider: provider@ },
            MarketDataError::RateLimited { provider } => ErrorView::RateLimited {
                provider: provider@,
            },
            MarketDataError::ProviderError { provider, message } => ErrorView::ProviderError {
                provider: provider@,
                message: message@,
            },
            MarketDataError::SymbolNotFound(message) => ErrorView::SymbolNotFound(message@),
            MarketDataError::UnsupportedAssetType(message) => ErrorView::UnsupportedAssetType(
                message@,
            ),
            MarketDataError::NoDataForRange => ErrorView::NoDataForRange,
            MarketDataError::ValidationFailed { message } => ErrorView::ValidationFailed {
                message: message@,
            },
            MarketDataError::NoProvidersAvailable => ErrorView::NoProvidersAvailable,
        }
    }
}

impl ErrorView {
    /// Timeouts and exhausted quotas are transient; a missing symbol, an
    /// unsupported kind and an empty range are answers; the rest are faults.
    pub open spec fn class(self) -> ErrorClass {
        match self {
            ErrorView::Timeout { .. } | ErrorView::RateLimited { .. } => ErrorClass::Transient,
            ErrorView::SymbolNotFound(_)
            | ErrorView::UnsupportedAssetType(_)
            | ErrorView::NoDataForRange => ErrorClass::NotFound,
            ErrorView::ProviderError { .. }
            | ErrorView::ValidationFailed { .. }
            | ErrorView::NoProvidersAvailable => ErrorClass::Hard,
        }
    }
}

impl MarketDataError {
    pub fn class(&self) -> (r: ErrorClass)
        ensures
            r == self@.class(),
    {
        match self {
            MarketDataError::Timeout { .. } | MarketDataError::RateLimited { .. } => {
                ErrorClass::Transient
            },
            MarketDataError::SymbolNotFound(_)
            | MarketDataError::UnsupportedAssetType(_)
            | MarketDataError::NoDataForRange => ErrorClass::NotFound,
            MarketDataError::ProviderError { .. }
            | MarketDataError::ValidationFailed { .. }
            | MarketDataError::NoProvidersAvailable => ErrorClass::Hard,
        }
    }
}

} // verus!
