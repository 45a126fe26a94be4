//! The two upstream providers: where to ask them, and what to make of a
//! decoded answer. Sending the request and decoding the body is the caller's.
use reqwest_middleware::ClientWithMiddleware;
use vstd::prelude::*;
use vstd::string::StringExecFns;

use crate::aggregation::FetchError;

verus! {

/// The HTTP client, with its middleware, that requests to the providers go
/// through. Only carried here, never looked into.
#[verifier::external_type_specification]
#[verifier::external_body]
pub struct ExClientWithMiddleware(ClientWithMiddleware);

/// The provider of cat facts.
pub struct CatFactsApi {
    client: ClientWithMiddleware,
    base_url: String,
}

/// The provider of cat images.
pub struct CatImagesApi {
    client: ClientWithMiddleware,
    base_url: String,
}

impl CatFactsApi {
    pub closed spec fn base_url_spec(&self) -> Seq<char> {
        self.base_url@
    }

    pub closed spec fn client_spec(&self) -> ClientWithMiddleware {
        self.client
    }

    pub fn new(base_url: String, client: ClientWithMiddleware) -> (r: Self)
        ensures
            r.base_url_spec() == base_url@,
            r.client_spec() == client,
    {
        CatFactsApi { client, base_url }
    }

    /// The client that requests to this provider go through.
    pub fn client(&self) -> (r: &ClientWithMiddleware)
        ensures
            *r == self.client_spec(),
    {
        &self.client
    }

    /// The url a fact is fetched from.
    pub fn fact_url(&self) -> (r: String)
        ensures
            r@ == self.base_url_spec() + "/fact"@,
    {
        self.base_url.clone().concat("/fact")
    }
}

impl CatImagesApi {
    pub closed spec fn base_url_spec(&self) -> Seq<char> {
        self.base_url@
    }

    pub closed spec fn client_spec(&self) -> ClientWithMiddleware {
        self.client
    }

    pub fn new(base_url: String, client: ClientWithMiddleware) -> (r: Self)
        ensures
            r.base_url_spec() == base_url@,
            r.client_spec() == client,
    {
        CatImagesApi { client, base_url }
    }

    /// The client that requests to this provider go through.
    pub fn client(&self) -> (r: &ClientWithMiddleware)
        ensures
            *r == self.client_spec(),
    {
        &self.client
    }

    /// The url images are searched at.
    pub fn search_url(&self) -> (r: String)
        ensures
            r@ == self.base_url_spec() + "/v1/images/search"@,
    {
        self.base_url.clone().concat("/v1/images/search")
    }

    /// The url of the first image of a search's results, in the order the
    /// provider listed them; an empty list is a failure of its own.
    pub fn first_image_url(urls: Vec<String>) -> (r: Result<String, FetchError>)
        ensures
            urls@.len() == 0 ==> r == Err::<String, FetchError>(FetchError::EmptyResults),
            urls@.len() > 0 ==> r == Ok::<String, FetchError>(urls@[0]),
    {
        if urls.len() == 0 {
            Err(FetchError::EmptyResults)
        } else {
            let mut urls = urls;
            Ok(urls.swap_remove(0))
        }
    }
}

} // verus!
