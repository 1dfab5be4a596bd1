//! The store of challenges and solves behind the commands, as the library
//! sees it: the queries it is asked, and what their answers mean.

pub mod graphql_provider;
pub mod graphql_types;
