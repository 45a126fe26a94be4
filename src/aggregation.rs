//! Combining a cat fact and a cat image url into one response, fail-fast.
use vstd::prelude::*;
use vstd::string::StringExecFns;

verus! {

/// Why an upstream provider gave no value.
#[derive(Clone, Debug, PartialEq, Eq)]
pub enum FetchError {
    /// The request could not be made or completed; the transport's message.
    RequestFailed(String),
    /// The response could not be decoded; the decoder's message.
    InvalidResponse(String),
    /// The provider answered with an empty list of results.
    EmptyResults,
}

/// Which upstream provider failed, and why.
#[derive(Clone, Debug, PartialEq, Eq)]
pub enum AggregationError {
    FactSourceFailed(FetchError),
    ImageSourceFailed(FetchError),
}

/// The response of the aggregation endpoint.
#[derive(Clone, Debug, PartialEq, Eq)]
pub struct CatFactAndPicture {
    pub fact: String,
    pub image_url: String,
}

/// Status of a successful response.
pub const STATUS_OK: u16 = 200;

/// Status of a response to a failed aggregation.
pub const STATUS_INTERNAL_SERVER_ERROR: u16 = 500;

/// The result of aggregating a fact source's and an image source's results:
/// the fact source's failure comes first, then the image source's, and two
/// values are combined as they are.
pub open spec fn aggregated(
    fact: Result<String, FetchError>,
    image: Result<String, FetchError>,
) -> Result<CatFactAndPicture, AggregationError> {
    match fact {
        Err(e) => Err(AggregationError::FactSourceFailed(e)),
        Ok(f) => match image {
            Err(e) => Err(AggregationError::ImageSourceFailed(e)),
            Ok(u) => Ok(CatFactAndPicture { fact: f, image_url: u }),
        },
    }
}

impl FetchError {
    pub open spec fn message_spec(&self) -> Seq<char> {
        match self {
            FetchError::RequestFailed(cause) => "Failed to make request: "@ + cause@,
            FetchError::InvalidResponse(cause) => "Invalid response returned: "@ + cause@,
            FetchError::EmptyResults => "Empty array of results returned"@,
        }
    }

    /// A human-readable description of the failure.
    pub fn message(&self) -> (r: String)
        ensures
            r@ == self.message_spec(),
    {
        match self {
            FetchError::RequestFailed(cause) => "Failed to make request: ".to_owned().concat(
                cause.as_str(),
            ),
            FetchError::InvalidResponse(cause) => "Invalid response returned: ".to_owned().concat(
                cause.as_str(),
            ),
            FetchError::EmptyResults => "Empty array of results returned".to_owned(),
        }
    }
}

impl AggregationError {
    pub open spec fn message_spec(&self) -> Seq<char> {
        match self {
            AggregationError::FactSourceFailed(e) => "Failed to get a cat fact: "@
                + e.message_spec(),
            AggregationError::ImageSourceFailed(e) => "Failed to get a cat image url: "@
                + e.message_spec(),
        }
    }

    /// A human-readable description of the failure, naming the provider.
    pub fn message(&self) -> (r: String)
        ensures
            r@ == self.message_spec(),
    {
        match self {
            AggregationError::FactSourceFailed(e) => {
                let cause = e.message();
                "Failed to get a cat fact: ".to_owned().concat(cause.as_str())
            },
            AggregationError::ImageSourceFailed(e) => {
                let cause = e.message();
                "Failed to get a cat image url: ".to_owned().concat(cause.as_str())
            },
        }
    }
}

/// First stage of an aggregation: a failed fact source ends it, and the image
/// source need not be asked.
pub fn with_fact(fact: Result<String, FetchError>) -> (r: Result<String, AggregationError>)
    ensures
        r == match fact {
            Ok(f) => Ok::<String, AggregationError>(f),
            Err(e) => Err(AggregationError::FactSourceFailed(e)),
        },
{
    match fact {
        Ok(f) => Ok(f),
        Err(e) => Err(AggregationError::FactSourceFailed(e)),
    }
}

/// Second stage of an aggregation, once the fact is known.
pub fn with_image(fact: String, image: Result<String, FetchError>) -> (r: Result<
    CatFactAndPicture,
    AggregationError,
>)
    ensures
        r == aggregated(Ok(fact), image),
{
    match image {
        Ok(image_url) => Ok(CatFactAndPicture { fact, image_url }),
        Err(e) => Err(AggregationError::ImageSourceFailed(e)),
    }
}

/// Combines the results of the two sources. A failed fact source is reported
/// whatever the image source returned; otherwise a failed image source is
/// reported; otherwise both values are returned verbatim.
pub fn aggregate(fact: Result<String, FetchError>, image: Result<String, FetchError>) -> (r: Result<
    CatFactAndPicture,
    AggregationError,
>)
    ensures
        r == aggregated(fact, image),
        fact is Err ==> r == Err::<CatFactAndPicture, AggregationError>(
            AggregationError::FactSourceFailed(fact->Err_0),
        ),
{
    match with_fact(fact) {
        Ok(f) => with_image(f, image),
        Err(e) => Err(e),
    }
}

/// The HTTP status the aggregation endpoint answers with.
pub fn response_status(r: &Result<CatFactAndPicture, AggregationError>) -> (status: u16)
    ensures
        r is Ok ==> status == STATUS_OK,
        r is Err ==> status == STATUS_INTERNAL_SERVER_ERROR,
{
    match r {
        Ok(_) => STATUS_OK,
        Err(_) => STATUS_INTERNAL_SERVER_ERROR,
    }
}

} // verus!
