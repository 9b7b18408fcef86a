pub mod cache;
pub mod error;
pub mod json;
pub mod text;
pub mod util;
pub mod session;
pub mod order;
pub mod digest;
pub mod token;
pub mod config;
pub mod discover;
pub mod model;
pub mod admin;
pub mod random;
pub mod sms;
pub mod wxpay;
pub mod wxauth;
pub mod builder;
pub mod protocol;
pub mod transaction;
