use vstd::prelude::*;

verus! {

/// Status and message of an error response from the moderation service.
#[derive(Debug, Clone)]
pub struct APILayerError {
    pub status: u16,
    pub message: String,
}

/// Every failure the library reports.
#[derive(Debug, Clone)]
pub enum Error {
    /// A pagination parameter is not a valid unsigned integer.
    ParseError,
    /// `start` or `end` is absent from the query parameters.
    MissingParameters,
    /// The moderation endpoint or its credential is not configured.
    ConfigurationError,
    /// The exchange with the moderation service failed without a response,
    /// after the retry budget was spent.
    TransportError,
    /// The moderation service rejected the request (status 4xx).
    UpstreamClientError(APILayerError),
    /// The moderation service failed (any other non-success status).
    UpstreamServerError(APILayerError),
    /// A response body does not have the expected shape.
    ResponseDecodeError,
}

} // verus!
