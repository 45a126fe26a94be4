use cat_server::{
    aggregate, response_status, with_fact, with_image, AggregationError, CatFactAndPicture,
    CatImagesApi, FetchError,
};

fn ok(s: &str) -> Result<String, FetchError> {
    Ok(s.to_string())
}

#[test]
fn both_sources_succeed_values_are_combined_verbatim() {
    let r = aggregate(ok("Cats are great."), ok("http://example.com/cat.jpg"));
    assert_eq!(
        r,
        Ok(CatFactAndPicture {
            fact: "Cats are great.".to_string(),
            image_url: "http://example.com/cat.jpg".to_string(),
        })
    );
    assert_eq!(response_status(&r), 200);
}

#[test]
fn failed_fact_source_is_reported_even_if_image_succeeds() {
    let cause = FetchError::RequestFailed("connection refused".to_string());
    let r = aggregate(Err(cause.clone()), ok("http://example.com/cat.jpg"));
    assert_eq!(r, Err(AggregationError::FactSourceFailed(cause)));
    assert_eq!(response_status(&r), 500);
}

#[test]
fn fact_failure_wins_when_both_fail() {
    let r = aggregate(
        Err(FetchError::InvalidResponse("missing field `fact`".to_string())),
        Err(FetchError::EmptyResults),
    );
    assert_eq!(
        r,
        Err(AggregationError::FactSourceFailed(FetchError::InvalidResponse(
            "missing field `fact`".to_string()
        )))
    );
}

#[test]
fn empty_image_set_surfaces_as_image_source_failure() {
    let image = CatImagesApi::first_image_url(vec![]);
    assert_eq!(image, Err(FetchError::EmptyResults));
    let r = aggregate(ok("Cats sleep a lot."), image);
    assert_eq!(r, Err(AggregationError::ImageSourceFailed(FetchError::EmptyResults)));
    assert_eq!(response_status(&r), 500);
}

#[test]
fn staged_aggregation_stops_after_a_failed_fact() {
    let cause = FetchError::RequestFailed("timeout".to_string());
    assert_eq!(with_fact(Err(cause.clone())), Err(AggregationError::FactSourceFailed(cause)));
    assert_eq!(with_fact(ok("f")), Ok("f".to_string()));
    assert_eq!(
        with_image("f".to_string(), Err(FetchError::EmptyResults)),
        Err(AggregationError::ImageSourceFailed(FetchError::EmptyResults))
    );
    assert_eq!(
        with_image("f".to_string(), ok("u")),
        Ok(CatFactAndPicture { fact: "f".to_string(), image_url: "u".to_string() })
    );
}

#[test]
fn error_messages_name_the_failed_source_and_cause() {
    assert_eq!(
        AggregationError::FactSourceFailed(FetchError::RequestFailed("refused".to_string()))
            .message(),
        "Failed to get a cat fact: Failed to make request: refused"
    );
    assert_eq!(
        AggregationError::ImageSourceFailed(FetchError::EmptyResults).message(),
        "Failed to get a cat image url: Empty array of results returned"
    );
    assert_eq!(
        FetchError::InvalidResponse("bad json".to_string()).message(),
        "Invalid response returned: bad json"
    );
}
