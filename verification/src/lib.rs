//! A minimal client library for the Telegram bot HTTP API.
//!
//! The library builds the request that each API call sends (URL and form
//! fields), interprets the JSON envelope that the service answers with, and
//! decodes the polling read's response into typed updates. The HTTP transport
//! itself is left to the caller: it sends what the library prepares and hands
//! the outcome back for the library to decide the result.

pub mod api;
pub mod json;
pub mod methods;
pub mod model;

pub use api::{ApiError, PreparedRequest, TeleApi};
pub use model::{Chat, Message, Update, User};
