//! Driver provisioning and scrape orchestration for marketplace product
//! listings: the decisions are verified here, the browser and the network
//! are driven by the caller.

pub mod chrome;
pub mod chromedriver;
pub mod fetch;
pub mod install;
pub mod models;
pub mod patch;
pub mod platforms;
pub mod scraper;
pub mod session;
pub mod system;
pub mod text;
pub mod version;

pub use models::{Product, QueryResult, ShopResults};
