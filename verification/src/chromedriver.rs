//! Everything that provides the driver, under one roof: finding the browser,
//! installing a driver that fits it, and patching the driver.

pub use crate::chrome::{find_chrome_executable, get_chrome_version};
pub use crate::install::{ensure_chromedriver, redownload_chromedriver};
pub use crate::patch::patch_driver;
