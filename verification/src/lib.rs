//! Login and model catalog logic for the ShengSuanYun model router.
//!
//! - `options`, `authorize`: what a login starts with, and where the browser is sent.
//! - `bind`: binding the port on which the browser calls back.
//! - `request`, `token`: what is answered to a request, and how a code becomes tokens.
//! - `message`, `server`: what is sent, and when the login ends.
//! - `auth`, `account`: credentials in storage, and the account that is shown.
//! - `models`: the catalog of models.
//! - `percent`, `query`, `text`, `list`, `error`: what the others are made of.
pub mod account;
pub mod auth;
pub mod authorize;
pub mod bind;
pub mod error;
pub mod list;
pub mod message;
pub mod models;
pub mod options;
pub mod percent;
pub mod query;
pub mod request;
pub mod server;
pub mod text;
pub mod token;
