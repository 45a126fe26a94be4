//! A small service that combines a cat fact and a cat image url from two
//! upstream providers, and the bounded retry state machine used to wait for
//! an asynchronous condition within a time budget.

pub mod configuration;

pub use configuration::{load_config, Configuration};
pub mod retry;

pub use retry::{
    AttemptError, RetryAction, RetryBudget, RetryCampaign, RetryEvent, RetryOutcome,
    RetryTimeoutError,
};
pub mod aggregation;

pub use aggregation::{
    aggregate, response_status, with_fact, with_image, AggregationError, CatFactAndPicture,
    FetchError,
};
pub mod data_sources;

pub use data_sources::{CatFactsApi, CatImagesApi};
