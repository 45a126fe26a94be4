use cat_server::{load_config, CatFactsApi, CatImagesApi, FetchError};

fn client() -> reqwest_middleware::ClientWithMiddleware {
    reqwest_middleware::ClientBuilder::new(reqwest::Client::new()).build()
}

#[test]
fn fact_url_is_below_the_base_url() {
    let api = CatFactsApi::new("https://catfact.ninja".to_string(), client());
    assert_eq!(api.fact_url(), "https://catfact.ninja/fact");
}

#[test]
fn search_url_is_below_the_base_url() {
    let api = CatImagesApi::new("http://127.0.0.1:8080".to_string(), client());
    assert_eq!(api.search_url(), "http://127.0.0.1:8080/v1/images/search");
}

#[test]
fn first_image_url_takes_the_first_result() {
    let urls = vec!["http://a/1.jpg".to_string(), "http://b/2.jpg".to_string()];
    assert_eq!(CatImagesApi::first_image_url(urls), Ok("http://a/1.jpg".to_string()));
    assert_eq!(CatImagesApi::first_image_url(vec![]), Err(FetchError::EmptyResults));
}

#[test]
fn configuration_has_the_default_endpoints() {
    let config = load_config();
    assert_eq!(config.host, "127.0.0.1");
    assert_eq!(config.port, 12345);
    assert_eq!(config.cat_images_api_base_url, "https://api.thecatapi.com");
    assert_eq!(config.cat_facts_api_base_url, "https://catfact.ninja");
}
