//! The account that a status display shows.
use vstd::prelude::*;

verus! {

/// The account with which a user is logged in, as it is shown.
#[derive(Debug, Clone, PartialEq, Eq)]
pub enum StatusAccountDisplay {
    ShengSuanYun { name: Option<String>, plan: Option<String> },
    ChatGpt { email: Option<String>, plan: Option<String> },
    ApiKey,
}

} // verus!
