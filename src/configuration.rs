use vstd::prelude::*;

verus! {

/// Where the service listens and where its two upstream providers live.
#[derive(Clone)]
pub struct Configuration {
    pub host: String,
    pub port: u16,
    pub cat_images_api_base_url: String,
    pub cat_facts_api_base_url: String,
}

/// The static configuration the service starts with.
pub fn load_config() -> (r: Configuration)
    ensures
        r.host@ == "127.0.0.1"@,
        r.port == 12345,
        r.cat_images_api_base_url@ == "https://api.thecatapi.com"@,
        r.cat_facts_api_base_url@ == "https://catfact.ninja"@,
{
    Configuration {
        host: "127.0.0.1".to_owned(),
        port: 12345,
        cat_images_api_base_url: "https://api.thecatapi.com".to_owned(),
        cat_facts_api_base_url: "https://catfact.ninja".to_owned(),
    }
}

} // verus!
