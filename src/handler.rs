//! The gateway's operations. For each, a builder turns the typed input into the request
//! for the upstream API, and a mapper turns the upstream reply (HTTP status and body)
//! into the operation's result.
use vstd::prelude::*;

use crate::json::{
    distinct_names, entries_map, entry_views, json_view, object_value, parse_json, parsed_json,
    text_value, JsonModel,
};
use crate::reply::{
    check_status, failure, failure_message, issue_outcome, issue_reply, issue_result_view,
    malformed, malformed_failure, nodes_outcome, nodes_reply, nodes_result_view, rejection,
    status_ok, ErrorKind, ErrorModel, Operation, OperationError,
};
use crate::request::{
    check_decimal, escape_graphql, escaped, is_decimal, RequestModel, UpstreamRequest, VarValue,
};
use crate::schema::{
    AddLabelsToLabelable, ClientMutationId, CreateIssue, DeleteIssue, FetchIssue, Issue,
    IssueQuery, Repository, RepositoryDetail, UpdateIssue,
};

verus! {

/// The mutations of the gateway.
pub struct Mutation;

/// The queries of the gateway.
pub struct Query;

/// How many of a repository's most recent issues are listed unless the caller says.
pub const DEFAULT_ISSUE_LIMIT: usize = 10;

/// How many of a repository's labels are listed unless the caller says.
pub const DEFAULT_LABEL_LIMIT: usize = 20;

/// The create-issue mutation; it returns the new issue.
pub const CREATE_ISSUE_DOCUMENT: &'static str = "mutation CreateIssue($repositoryId: ID!, $title: String!, $body: String) {
  createIssue(input: {repositoryId: $repositoryId, title: $title, body: $body}) {
    issue {
      id
      title
      body
      state
      url
    }
  }
}";

/// The update-issue mutation; it returns the updated issue.
pub const UPDATE_ISSUE_DOCUMENT: &'static str = "mutation UpdateIssue($id: ID!, $title: String, $body: String) {
  updateIssue(input: {id: $id, title: $title, body: $body}) {
    issue {
      id
      title
      body
      state
      url
    }
  }
}";

/// The delete-issue mutation.
pub const DELETE_ISSUE_DOCUMENT: &'static str = "mutation DeleteIssue($issueId: ID!) {
  deleteIssue(input: {issueId: $issueId}) {
    clientMutationId
  }
}";

/// The close-issue mutation.
pub const CLOSE_ISSUE_DOCUMENT: &'static str = "mutation CloseIssue($issueId: ID!) {
  closeIssue(input: {issueId: $issueId}) {
    clientMutationId
  }
}";

/// The mutation that adds labels to an issue.
pub const ADD_LABELS_DOCUMENT: &'static str = "mutation AddLabels($labelableId: ID!, $labelIds: [ID!]!) {
  addLabelsToLabelable(input: {labelableId: $labelableId, labelIds: $labelIds}) {
    labelable {
      ... on Issue {
        id
        title
        labels(first: 5) {
          nodes {
            name
          }
        }
      }
    }
  }
}";

/// The query that lists the most recent issues of a repository.
pub const LIST_ISSUES_DOCUMENT: &'static str = "query GetIssues($owner: String!, $repoName: String!, $last: Int!) {
  repository(owner: $owner, name: $repoName) {
    issues(last: $last) {
      nodes {
        id
        title
        body
        state
        createdAt
        updatedAt
        closedAt
        url
      }
    }
  }
}";

/// The query that lists the labels of a repository.
pub const LIST_LABELS_DOCUMENT: &'static str = "query GetLabels($owner: String!, $repoName: String!, $first: Int!) {
  repository(owner: $owner, name: $repoName) {
    labels(first: $first) {
      nodes {
        id
        name
        description
      }
    }
  }
}";

/// The text of the issue-fetching document up to the owner.
pub const GET_ISSUE_HEAD: &'static str = "query {\n  repository(owner: \"";

/// The text between the owner and the repository name.
pub const GET_ISSUE_NAME: &'static str = "\", name: \"";

/// The text between the repository name and the issue number.
pub const GET_ISSUE_NUMBER: &'static str = "\") {\n    issue(number: ";

/// The text after the issue number.
pub const GET_ISSUE_TAIL: &'static str = ") {\n      id\n      body\n      title\n      state\n      url\n    }\n  }\n}";

/// The document that fetches issue `number` of repository `owner/name`; both names are
/// quoted and escaped.
pub open spec fn issue_document(owner: Seq<char>, name: Seq<char>, number: Seq<char>) -> Seq<char> {
    GET_ISSUE_HEAD@ + escaped(owner) + GET_ISSUE_NAME@ + escaped(name) + GET_ISSUE_NUMBER@
        + number + GET_ISSUE_TAIL@
}

/// What an issue number that is not a run of decimal digits reports.
pub open spec fn bad_number_detail() -> Seq<char> {
    "the issue number must be a run of decimal digits"@
}

/// The JSON body that carries a document with no variables.
pub open spec fn document_json(query: Seq<char>) -> JsonModel {
    JsonModel::Object(map!["query"@ => JsonModel::Str(query)])
}

impl IssueQuery {
    /// The JSON body that carries this document.
    pub fn to_json(&self) -> (r: serde_json::Value)
        ensures
            json_view(r) == document_json(self.query@),
    {
        let mut body: Vec<(String, serde_json::Value)> = Vec::new();
        body.push((String::from_str("query"), text_value(self.query.clone())));
        proof {
            let ev = entry_views(body@);
            assert(ev =~= seq![("query"@, JsonModel::Str(self.query@))]);
            assert(ev.drop_last() =~= Seq::<(Seq<char>, JsonModel)>::empty());
            assert(entries_map(ev) == entries_map(ev.drop_last()).insert(
                "query"@,
                JsonModel::Str(self.query@),
            ));
            assert(entries_map(ev) =~= map!["query"@ => JsonModel::Str(self.query@)]);
        }
        object_value(body)
    }
}

/// A variable that holds a text.
fn text_var(name: &str, value: &String) -> (r: (String, VarValue))
    ensures
        r.0@ == name@,
        r.1 == VarValue::Text(r.1->Text_0),
        r.1->Text_0@ == value@,
{
    (String::from_str(name), VarValue::Text(value.clone()))
}

/// A variable that holds a text if there is one, and null otherwise.
fn optional_var(name: &str, value: &Option<String>) -> (r: (String, VarValue))
    ensures
        r.0@ == name@,
        match value {
            Some(s) => r.1 is Text && r.1->Text_0@ == s@,
            None => r.1 is Null,
        },
{
    match value {
        Some(s) => (String::from_str(name), VarValue::Text(s.clone())),
        None => (String::from_str(name), VarValue::Null),
    }
}

/// A variable that holds a count.
fn count_var(name: &str, value: usize) -> (r: (String, VarValue))
    ensures
        r.0@ == name@,
        r.1 == VarValue::Count(value as u64),
{
    (String::from_str(name), VarValue::Count(value as u64))
}

/// Three variables with pairwise different names have distinct names.
proof fn lemma_three_distinct(vars: Seq<(Seq<char>, JsonModel)>)
    requires
        vars.len() == 3,
        vars[0].0 != vars[1].0,
        vars[0].0 != vars[2].0,
        vars[1].0 != vars[2].0,
    ensures
        distinct_names(vars),
{
}

/// Two variables with different names have distinct names.
proof fn lemma_two_distinct(vars: Seq<(Seq<char>, JsonModel)>)
    requires
        vars.len() == 2,
        vars[0].0 != vars[1].0,
    ensures
        distinct_names(vars),
{
}

/// The variables of the create-issue mutation.
pub open spec fn create_issue_vars(input: CreateIssue) -> Seq<(Seq<char>, JsonModel)> {
    seq![
        ("repositoryId"@, JsonModel::Str(input.repositoryid@)),
        ("title"@, JsonModel::Str(input.title@)),
        ("body"@, JsonModel::Str(input.body@)),
    ]
}

/// A text that may be missing, as a variable value: null where it is missing.
pub open spec fn optional_json(o: Option<String>) -> JsonModel {
    match o {
        Some(s) => JsonModel::Str(s@),
        None => JsonModel::Null,
    }
}

/// The variables of the update-issue mutation.
pub open spec fn update_issue_vars(input: UpdateIssue) -> Seq<(Seq<char>, JsonModel)> {
    seq![
        ("id"@, JsonModel::Str(input.issueid@)),
        ("title"@, optional_json(input.newtitle)),
        ("body"@, optional_json(input.newbody)),
    ]
}

/// The variables of a mutation that names one issue.
pub open spec fn issue_id_vars(id: Seq<char>) -> Seq<(Seq<char>, JsonModel)> {
    seq![("issueId"@, JsonModel::Str(id))]
}

/// The variables of the add-labels mutation.
pub open spec fn add_labels_vars(input: AddLabelsToLabelable) -> Seq<(Seq<char>, JsonModel)> {
    seq![
        ("labelableId"@, JsonModel::Str(input.issue_id@)),
        ("labelIds"@, JsonModel::Array(input.label_ids@.map_values(|s: String| JsonModel::Str(s@)))),
    ]
}

/// The variables of a query over a repository, with `limit_name` bound to `limit`.
pub open spec fn repository_vars(
    owner: Seq<char>,
    name: Seq<char>,
    limit_name: Seq<char>,
    limit: usize,
) -> Seq<(Seq<char>, JsonModel)> {
    seq![
        ("owner"@, JsonModel::Str(owner)),
        ("repoName"@, JsonModel::Str(name)),
        (limit_name, JsonModel::Number(Some(limit as int))),
    ]
}

/// Where the created issue stands in the reply.
pub open spec fn create_issue_path() -> Seq<Seq<char>> {
    seq!["data"@, "createIssue"@, "issue"@]
}

/// Where the updated issue stands in the reply.
pub open spec fn update_issue_path() -> Seq<Seq<char>> {
    seq!["data"@, "updateIssue"@, "issue"@]
}

/// Where the fetched issue stands in the reply.
pub open spec fn get_issue_path() -> Seq<Seq<char>> {
    seq!["data"@, "repository"@, "issue"@]
}

/// Where the listed issues stand in the reply.
pub open spec fn list_issues_path() -> Seq<Seq<char>> {
    seq!["data"@, "repository"@, "issues"@, "nodes"@]
}

/// Where the listed labels stand in the reply.
pub open spec fn list_labels_path() -> Seq<Seq<char>> {
    seq!["data"@, "repository"@, "labels"@, "nodes"@]
}

/// What a mutation that acknowledges returns for a reply: `done` on a success status
/// (whose body must be JSON where `needs_json` holds), else the upstream body.
pub open spec fn ack_outcome(
    op: Operation,
    status: u16,
    body: Seq<char>,
    needs_json: bool,
    done: Seq<char>,
) -> Result<Seq<char>, ErrorModel> {
    if !status_ok(status) {
        Err(rejection(op, body))
    } else if needs_json && parsed_json(body) is None {
        Err(malformed(op))
    } else {
        Ok(done)
    }
}

/// The mathematical value of an acknowledgement result.
pub open spec fn ack_result_view(
    r: Result<String, OperationError>,
) -> Result<Seq<char>, ErrorModel> {
    match r {
        Ok(s) => Ok(s@),
        Err(e) => Err(e@),
    }
}

impl Mutation {
    /// The request that creates an issue.
    pub fn create_issue_request(&self, input: &CreateIssue) -> (r: UpstreamRequest)
        ensures
            r@ == (RequestModel { query: CREATE_ISSUE_DOCUMENT@, variables: create_issue_vars(*input) }),
            r@.wf(),
    {
        let mut variables: Vec<(String, VarValue)> = Vec::new();
        variables.push(text_var("repositoryId", &input.repositoryid));
        variables.push(text_var("title", &input.title));
        variables.push(text_var("body", &input.body));
        let r = UpstreamRequest { query: String::from_str(CREATE_ISSUE_DOCUMENT), variables };
        proof {
            reveal_strlit("repositoryId");
            reveal_strlit("title");
            reveal_strlit("body");
            assert(r@.variables =~= create_issue_vars(*input));
            assert("repositoryId"@.len() != "title"@.len());
            assert("repositoryId"@.len() != "body"@.len());
            assert("title"@.len() != "body"@.len());
            lemma_three_distinct(r@.variables);
        }
        r
    }

    /// Maps the reply to the create-issue mutation.
    pub fn create_issue_reply(&self, status: u16, body: &str) -> (r: Result<Issue, OperationError>)
        ensures
            issue_result_view(r) == issue_outcome(
                Operation::CreateIssue,
                create_issue_path(),
                status,
                body@,
            ),
    {
        let path: [&str; 3] = ["data", "createIssue", "issue"];
        let r = issue_reply(Operation::CreateIssue, path.as_slice(), status, body);
        assert(crate::reply::path_view(path@) =~= create_issue_path());
        r
    }

    /// The request that updates an issue; a missing title or body is sent as null.
    pub fn update_issue_request(&self, input: &UpdateIssue) -> (r: UpstreamRequest)
        ensures
            r@ == (RequestModel { query: UPDATE_ISSUE_DOCUMENT@, variables: update_issue_vars(*input) }),
            r@.wf(),
    {
        let mut variables: Vec<(String, VarValue)> = Vec::new();
        variables.push(text_var("id", &input.issueid));
        variables.push(optional_var("title", &input.newtitle));
        variables.push(optional_var("body", &input.newbody));
        let r = UpstreamRequest { query: String::from_str(UPDATE_ISSUE_DOCUMENT), variables };
        proof {
            reveal_strlit("id");
            reveal_strlit("title");
            reveal_strlit("body");
            assert(r@.variables =~= update_issue_vars(*input));
            assert("id"@.len() != "title"@.len());
            assert("id"@.len() != "body"@.len());
            assert("title"@.len() != "body"@.len());
            lemma_three_distinct(r@.variables);
        }
        r
    }

    /// Maps the reply to the update-issue mutation.
    pub fn update_issue_reply(&self, status: u16, body: &str) -> (r: Result<Issue, OperationError>)
        ensures
            issue_result_view(r) == issue_outcome(
                Operation::UpdateIssue,
                update_issue_path(),
                status,
                body@,
            ),
    {
        let path: [&str; 3] = ["data", "updateIssue", "issue"];
        let r = issue_reply(Operation::UpdateIssue, path.as_slice(), status, body);
        assert(crate::reply::path_view(path@) =~= update_issue_path());
        r
    }

    /// The request that deletes an issue; its id is bound as a variable.
    pub fn delete_issue_request(&self, input: &DeleteIssue) -> (r: UpstreamRequest)
        ensures
            r@ == (RequestModel { query: DELETE_ISSUE_DOCUMENT@, variables: issue_id_vars(input.issue_id@) }),
            r@.wf(),
    {
        let mut variables: Vec<(String, VarValue)> = Vec::new();
        variables.push(text_var("issueId", &input.issue_id));
        let r = UpstreamRequest { query: String::from_str(DELETE_ISSUE_DOCUMENT), variables };
        assert(r@.variables =~= issue_id_vars(input.issue_id@));
        r
    }

    /// Maps the reply to the delete-issue mutation: on success, the status `deleted`.
    pub fn delete_issue_reply(
        &self,
        status: u16,
        body: &str,
    ) -> (r: Result<ClientMutationId, OperationError>)
        ensures
            status_ok(status) ==> r is Ok && r->Ok_0.client_mutation_id@ == "deleted"@,
            !status_ok(status) ==> r is Err && r->Err_0@ == rejection(
                Operation::DeleteIssue,
                body@,
            ),
    {
        check_status(Operation::DeleteIssue, status, body)?;
        Ok(ClientMutationId { client_mutation_id: String::from_str("deleted") })
    }

    /// The request that closes an issue.
    pub fn close_issue_request(&self, input: &FetchIssue) -> (r: UpstreamRequest)
        ensures
            r@ == (RequestModel { query: CLOSE_ISSUE_DOCUMENT@, variables: issue_id_vars(input.issue_id@) }),
            r@.wf(),
    {
        let mut variables: Vec<(String, VarValue)> = Vec::new();
        variables.push(text_var("issueId", &input.issue_id));
        let r = UpstreamRequest { query: String::from_str(CLOSE_ISSUE_DOCUMENT), variables };
        assert(r@.variables =~= issue_id_vars(input.issue_id@));
        r
    }

    /// Maps the reply to the close-issue mutation.
    pub fn close_issue_reply(&self, status: u16, body: &str) -> (r: Result<String, OperationError>)
        ensures
            ack_result_view(r) == ack_outcome(
                Operation::CloseIssue,
                status,
                body@,
                false,
                "Issue closed successfully"@,
            ),
    {
        check_status(Operation::CloseIssue, status, body)?;
        Ok(String::from_str("Issue closed successfully"))
    }

    /// The request that adds labels to an issue; every label id is bound as a variable.
    pub fn add_label_to_issue_request(&self, input: &AddLabelsToLabelable) -> (r: UpstreamRequest)
        ensures
            r@ == (RequestModel { query: ADD_LABELS_DOCUMENT@, variables: add_labels_vars(*input) }),
            r@.wf(),
    {
        let mut variables: Vec<(String, VarValue)> = Vec::new();
        variables.push(text_var("labelableId", &input.issue_id));
        variables.push((String::from_str("labelIds"), VarValue::TextList(input.label_ids.clone())));
        let r = UpstreamRequest { query: String::from_str(ADD_LABELS_DOCUMENT), variables };
        proof {
            reveal_strlit("labelableId");
            reveal_strlit("labelIds");
            assert(r@.variables =~= add_labels_vars(*input));
            assert("labelableId"@.len() != "labelIds"@.len());
            lemma_two_distinct(r@.variables);
        }
        r
    }

    /// Maps the reply to the add-labels mutation; a successful reply must be JSON.
    pub fn add_label_to_issue_reply(
        &self,
        status: u16,
        body: &str,
    ) -> (r: Result<String, OperationError>)
        ensures
            ack_result_view(r) == ack_outcome(
                Operation::AddLabel,
                status,
                body@,
                true,
                "Add label successfully"@,
            ),
    {
        check_status(Operation::AddLabel, status, body)?;
        match parse_json(body) {
            Some(_) => Ok(String::from_str("Add label successfully")),
            None => Err(malformed_failure(Operation::AddLabel)),
        }
    }
}

impl Query {
    /// The request that fetches one issue. The owner and repository name are quoted and
    /// escaped into the document; an issue number that is not a run of decimal digits is
    /// refused, so that no input changes the document's shape.
    pub fn get_issue_id_request(
        &self,
        repository: &Repository,
    ) -> (r: Result<IssueQuery, OperationError>)
        ensures
            is_decimal(repository.issuenumber@) ==> r is Ok && r->Ok_0.query@ == issue_document(
                repository.owner@,
                repository.reponame@,
                repository.issuenumber@,
            ),
            !is_decimal(repository.issuenumber@) ==> r is Err && r->Err_0@ == (ErrorModel {
                kind: ErrorKind::InvalidInput,
                message: failure_message(Operation::GetIssue, bad_number_detail()),
            }),
    {
        if !check_decimal(repository.issuenumber.as_str()) {
            return Err(
                failure(
                    ErrorKind::InvalidInput,
                    Operation::GetIssue,
                    "the issue number must be a run of decimal digits",
                ),
            );
        }
        let mut query = String::from_str(GET_ISSUE_HEAD);
        let owner = escape_graphql(repository.owner.as_str());
        query.append(owner.as_str());
        query.append(GET_ISSUE_NAME);
        let name = escape_graphql(repository.reponame.as_str());
        query.append(name.as_str());
        query.append(GET_ISSUE_NUMBER);
        query.append(repository.issuenumber.as_str());
        query.append(GET_ISSUE_TAIL);
        Ok(IssueQuery { query })
    }

    /// Maps the reply to the issue-fetching query.
    pub fn get_issue_id_reply(&self, status: u16, body: &str) -> (r: Result<Issue, OperationError>)
        ensures
            issue_result_view(r) == issue_outcome(
                Operation::GetIssue,
                get_issue_path(),
                status,
                body@,
            ),
    {
        let path: [&str; 3] = ["data", "repository", "issue"];
        let r = issue_reply(Operation::GetIssue, path.as_slice(), status, body);
        assert(crate::reply::path_view(path@) =~= get_issue_path());
        r
    }

    /// The request that lists the last `detail.last` issues of a repository.
    pub fn get_repository_issues_request(&self, detail: &RepositoryDetail) -> (r: UpstreamRequest)
        ensures
            r@ == (RequestModel {
                query: LIST_ISSUES_DOCUMENT@,
                variables: repository_vars(detail.owner@, detail.reponame@, "last"@, detail.last),
            }),
            r@.wf(),
    {
        let mut variables: Vec<(String, VarValue)> = Vec::new();
        variables.push(text_var("owner", &detail.owner));
        variables.push(text_var("repoName", &detail.reponame));
        variables.push(count_var("last", detail.last));
        let r = UpstreamRequest { query: String::from_str(LIST_ISSUES_DOCUMENT), variables };
        proof {
            reveal_strlit("owner");
            reveal_strlit("repoName");
            reveal_strlit("last");
            assert(r@.variables =~= repository_vars(detail.owner@, detail.reponame@, "last"@, detail.last));
            assert("owner"@.len() != "repoName"@.len());
            assert("owner"@.len() != "last"@.len());
            assert("repoName"@.len() != "last"@.len());
            lemma_three_distinct(r@.variables);
        }
        r
    }

    /// Maps the reply to the issue-listing query: the issue nodes as upstream sent them.
    pub fn get_repository_issues_reply(
        &self,
        status: u16,
        body: &str,
    ) -> (r: Result<Vec<serde_json::Value>, OperationError>)
        ensures
            nodes_result_view(r) == nodes_outcome(
                Operation::ListIssues,
                list_issues_path(),
                status,
                body@,
            ),
    {
        let path: [&str; 4] = ["data", "repository", "issues", "nodes"];
        let r = nodes_reply(Operation::ListIssues, path.as_slice(), status, body);
        assert(crate::reply::path_view(path@) =~= list_issues_path());
        r
    }

    /// The request that lists the first `first` labels of repository `owner/name`.
    pub fn get_labels_request(
        &self,
        owner: &String,
        name: &String,
        first: usize,
    ) -> (r: UpstreamRequest)
        ensures
            r@ == (RequestModel {
                query: LIST_LABELS_DOCUMENT@,
                variables: repository_vars(owner@, name@, "first"@, first),
            }),
            r@.wf(),
    {
        let mut variables: Vec<(String, VarValue)> = Vec::new();
        variables.push(text_var("owner", owner));
        variables.push(text_var("repoName", name));
        variables.push(count_var("first", first));
        let r = UpstreamRequest { query: String::from_str(LIST_LABELS_DOCUMENT), variables };
        proof {
            reveal_strlit("owner");
            reveal_strlit("repoName");
            reveal_strlit("first");
            assert(r@.variables =~= repository_vars(owner@, name@, "first"@, first));
            assert("owner"@[0] != "first"@[0]);
            assert("owner"@.len() != "repoName"@.len());
            assert("repoName"@.len() != "first"@.len());
            lemma_three_distinct(r@.variables);
        }
        r
    }

    /// Maps the reply to the label-listing query: the label nodes as upstream sent them.
    pub fn get_labels_reply(
        &self,
        status: u16,
        body: &str,
    ) -> (r: Result<Vec<serde_json::Value>, OperationError>)
        ensures
            nodes_result_view(r) == nodes_outcome(
                Operation::ListLabels,
                list_labels_path(),
                status,
                body@,
            ),
    {
        let path: [&str; 4] = ["data", "repository", "labels", "nodes"];
        let r = nodes_reply(Operation::ListLabels, path.as_slice(), status, body);
        assert(crate::reply::path_view(path@) =~= list_labels_path());
        r
    }
}

} // verus!
