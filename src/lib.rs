//! A GraphQL gateway for issue management: typed requests become documents for the
//! upstream GraphQL API, and the upstream replies are mapped back to typed records.
//!
//! - [`request`] holds what a request for the upstream API is and how it is encoded;
//! - [`reply`] maps upstream replies to records or to errors that name the operation;
//! - [`handler`] holds each operation's builder and mapper, on [`Query`] and [`Mutation`];
//! - [`json`] states what the serde_json calls of the library do;
//! - [`laws`] states properties that relate builders and mappers.

pub mod handler;
pub mod json;
pub mod laws;
pub mod reply;
pub mod request;
pub mod schema;

pub use handler::{Mutation, Query, DEFAULT_ISSUE_LIMIT, DEFAULT_LABEL_LIMIT};
pub use reply::{ErrorKind, Operation, OperationError};
pub use request::{UpstreamRequest, VarValue};
pub use schema::{
    AddLabelsToLabelable, ClientMutationId, CreateIssue, DeleteIssue, FetchIssue, GraphQLQuery,
    Issue, IssueNode, IssueQuery, Repository, RepositoryDetail, RepositoryIssue, UpdateIssue,
};
