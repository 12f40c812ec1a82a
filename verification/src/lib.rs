//! A small GraphQL client core: it builds the request that carries a query,
//! reads the answer of the server as one of the shapes a GraphQL server may
//! send, and reports failures as structured errors. Sending the request is
//! left to the caller.

pub mod json;
pub mod error;
pub mod response;
pub mod headers;
pub mod client;

pub use client::{GQLClient, Request};
pub use error::{
    GraphQLError, GraphQLErrorLocation, GraphQLErrorMessage, GraphQLErrorPathParam,
};
pub use response::{conclude, read_response, GraphQLResponse};
