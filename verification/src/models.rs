//! The endpoints of the service, each as a description of the call to make.

pub mod catalog_items;
pub mod kiosk;
pub mod listings;
pub mod product_pricing;
pub mod sellers;
