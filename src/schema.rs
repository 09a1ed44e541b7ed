//! The records that flow through the gateway.
use vstd::prelude::*;

verus! {

/// The characters of an optional string, if it is present.
pub open spec fn opt_text(o: Option<String>) -> Option<Seq<char>> {
    match o {
        Some(s) => Some(s@),
        None => None,
    }
}

/// Addresses one issue of one repository.
#[derive(Debug)]
pub struct Repository {
    pub owner: String,
    pub reponame: String,
    pub issuenumber: String,
}

/// Addresses a repository, with how many of its most recent issues to list.
#[derive(Debug)]
pub struct RepositoryDetail {
    pub owner: String,
    pub reponame: String,
    pub last: usize,
}

/// A request body that holds a document alone, with no variables.
#[derive(Debug)]
pub struct IssueQuery {
    pub query: String,
}

/// Input of the create-issue mutation.
#[derive(Debug)]
pub struct CreateIssue {
    pub title: String,
    pub repositoryid: String,
    pub body: String,
}

/// Input of the update-issue mutation; an absent field is left as it is upstream.
#[derive(Debug)]
pub struct UpdateIssue {
    pub newtitle: Option<String>,
    pub issueid: String,
    pub newbody: Option<String>,
}

/// Acknowledgement of a mutation, holding a status string.
#[derive(Clone, Debug)]
pub struct ClientMutationId {
    pub client_mutation_id: String,
}

/// Input of the delete-issue mutation.
#[derive(Debug)]
pub struct DeleteIssue {
    pub issue_id: String,
}

/// An issue as the upstream API describes it; any field may be missing.
#[derive(Clone, Debug)]
pub struct Issue {
    pub id: Option<String>,
    pub title: Option<String>,
    pub state: Option<String>,
    pub body: Option<String>,
    pub url: Option<String>,
}

/// The mathematical value of an [`Issue`].
pub struct IssueModel {
    pub id: Option<Seq<char>>,
    pub title: Option<Seq<char>>,
    pub state: Option<Seq<char>>,
    pub body: Option<Seq<char>>,
    pub url: Option<Seq<char>>,
}

impl View for Issue {
    type V = IssueModel;

    open spec fn view(&self) -> IssueModel {
        IssueModel {
            id: opt_text(self.id),
            title: opt_text(self.title),
            state: opt_text(self.state),
            body: opt_text(self.body),
            url: opt_text(self.url),
        }
    }
}

/// The list of issues under a repository's `issues` field.
#[derive(Debug)]
pub struct IssueNode {
    pub nodes: Vec<Issue>,
}

/// A repository's `issues` connection.
#[derive(Debug)]
pub struct RepositoryIssue {
    pub issues: IssueNode,
}

/// A request body that holds a document alone.
#[derive(Debug)]
pub struct GraphQLQuery {
    pub query: String,
}

/// Input that names one issue (fetch and close).
#[derive(Debug)]
pub struct FetchIssue {
    pub issue_id: String,
}

/// Input of the add-labels mutation.
#[derive(Debug)]
pub struct AddLabelsToLabelable {
    pub issue_id: String,
    pub label_ids: Vec<String>,
}

} // verus!
