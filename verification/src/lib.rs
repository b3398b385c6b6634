//! A client library for a cloud provider's droplet API: configuration
//! resolution, the authenticated request pipeline, and the wire data model.

pub mod account;
pub mod client;
pub mod common;
pub mod config;
pub mod decimal;
pub mod droplet;
pub mod error;
pub mod json;
pub mod urls;

pub use account::Account;
pub use account::AccountResponse;
pub use account::Team;
pub use client::Client;
pub use client::Method;
pub use client::PreparedRequest;
pub use common::Action;
pub use common::ErrorDetail;
pub use common::ErrorResponse;
pub use common::Links;
pub use common::ListResponse;
pub use common::Meta;
pub use common::Pages;
pub use common::Region;
pub use common::Size;
pub use config::Config;
pub use droplet::CreateDropletRequest;
pub use droplet::CreateDropletResponse;
pub use droplet::Droplet;
pub use droplet::DropletResponse;
pub use droplet::DropletsResponse;
pub use droplet::Image;
pub use droplet::Kernel;
pub use droplet::Networks;
pub use droplet::NetworkV4;
pub use droplet::NetworkV6;
pub use error::Error;
