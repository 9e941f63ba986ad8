//! A question-and-answer service's verified core: the content-moderation
//! client's decisions (configuration, request, retry policy, response
//! classification), query-parameter pagination, and the account types.

pub mod account;
pub mod error;
pub mod pagination;
pub mod profanity;
pub mod retry;
