//! Properties that relate the builders and mappers of the gateway.
use vstd::prelude::*;

use crate::handler::{
    ack_outcome, create_issue_path, create_issue_vars, list_issues_path, update_issue_vars,
    CREATE_ISSUE_DOCUMENT, UPDATE_ISSUE_DOCUMENT,
};
use crate::json::{distinct_names, entries_map, json_at, parsed_json, JsonModel};
use crate::reply::{
    contains, issue_outcome, nodes_outcome, nodes_result_view, op_label, rejection, status_ok,
    Operation, OperationError,
};
use crate::request::{request_json, RequestModel};
use crate::schema::{CreateIssue, IssueModel, UpdateIssue};

verus! {

/// The body of a create-issue request binds exactly three variables, `repositoryId`,
/// `title` and `body`, each to the input's value unchanged.
pub proof fn create_issue_binds_exactly_its_input(input: CreateIssue)
    ensures
        (RequestModel { query: CREATE_ISSUE_DOCUMENT@, variables: create_issue_vars(input) }).wf(),
        request_json(RequestModel { query: CREATE_ISSUE_DOCUMENT@, variables: create_issue_vars(input) })
            == JsonModel::Object(
            map![
                "query"@ => JsonModel::Str(CREATE_ISSUE_DOCUMENT@),
                "variables"@ => JsonModel::Object(map![
                    "repositoryId"@ => JsonModel::Str(input.repositoryid@),
                    "title"@ => JsonModel::Str(input.title@),
                    "body"@ => JsonModel::Str(input.body@),
                ]),
            ],
        ),
{
    reveal_strlit("repositoryId");
    reveal_strlit("title");
    reveal_strlit("body");
    let vars = create_issue_vars(input);
    assert("repositoryId"@.len() != "title"@.len());
    assert("repositoryId"@.len() != "body"@.len());
    assert("title"@.len() != "body"@.len());
    lemma_entries_map_three(vars);
}

/// An update-issue request with neither a new title nor a new body is still a request
/// with distinct variables: the id, and null for the title and the body.
pub proof fn update_without_changes_sends_nulls(input: UpdateIssue)
    requires
        input.newtitle is None,
        input.newbody is None,
    ensures
        (RequestModel { query: UPDATE_ISSUE_DOCUMENT@, variables: update_issue_vars(input) }).wf(),
        request_json(RequestModel { query: UPDATE_ISSUE_DOCUMENT@, variables: update_issue_vars(input) })
            == JsonModel::Object(
            map![
                "query"@ => JsonModel::Str(UPDATE_ISSUE_DOCUMENT@),
                "variables"@ => JsonModel::Object(map![
                    "id"@ => JsonModel::Str(input.issueid@),
                    "title"@ => JsonModel::Null,
                    "body"@ => JsonModel::Null,
                ]),
            ],
        ),
{
    reveal_strlit("id");
    reveal_strlit("title");
    reveal_strlit("body");
    let vars = update_issue_vars(input);
    assert("id"@.len() != "title"@.len());
    assert("id"@.len() != "body"@.len());
    assert("title"@.len() != "body"@.len());
    lemma_entries_map_three(vars);
}

/// Three entries with pairwise different names make the object of those three members.
proof fn lemma_entries_map_three(vars: Seq<(Seq<char>, JsonModel)>)
    requires
        vars.len() == 3,
        vars[0].0 != vars[1].0,
        vars[0].0 != vars[2].0,
        vars[1].0 != vars[2].0,
    ensures
        distinct_names(vars),
        entries_map(vars) == map![
            vars[0].0 => vars[0].1,
            vars[1].0 => vars[1].1,
            vars[2].0 => vars[2].1,
        ],
{
    let v2 = vars.drop_last();
    let v1 = v2.drop_last();
    assert(v1.drop_last() =~= Seq::<(Seq<char>, JsonModel)>::empty());
    assert(entries_map(v1) == entries_map(v1.drop_last()).insert(vars[0].0, vars[0].1));
    assert(entries_map(v2) == entries_map(v1).insert(vars[1].0, vars[1].1));
    assert(entries_map(vars) == entries_map(v2).insert(vars[2].0, vars[2].1));
    assert(entries_map(vars) =~= map![
        vars[0].0 => vars[0].1,
        vars[1].0 => vars[1].1,
        vars[2].0 => vars[2].1,
    ]);
}

/// A member of an issue object that is absent, null or a string.
pub open spec fn text_or_missing(m: Map<Seq<char>, JsonModel>, key: Seq<char>) -> bool {
    !m.contains_key(key) || m[key] is Null || m[key] is Str
}

/// The string held by a member of an issue object, if it holds one.
pub open spec fn member_text(m: Map<Seq<char>, JsonModel>, key: Seq<char>) -> Option<Seq<char>> {
    if m.contains_key(key) && m[key] is Str {
        Some(m[key]->Str_0)
    } else {
        None
    }
}

/// A successful reply `{"data":{"createIssue":{"issue": ...}}}` whose issue members are
/// each absent, null or a string maps to the issue with exactly those strings; a
/// missing or null member becomes an absent field.
pub proof fn created_issue_decodes_from_reply(
    status: u16,
    body: Seq<char>,
    issue: Map<Seq<char>, JsonModel>,
)
    requires
        status_ok(status),
        parsed_json(body) == Some(
            JsonModel::Object(
                map![
                    "data"@ => JsonModel::Object(map![
                        "createIssue"@ => JsonModel::Object(map![
                            "issue"@ => JsonModel::Object(issue),
                        ]),
                    ]),
                ],
            ),
        ),
        text_or_missing(issue, "id"@),
        text_or_missing(issue, "title"@),
        text_or_missing(issue, "state"@),
        text_or_missing(issue, "body"@),
        text_or_missing(issue, "url"@),
    ensures
        issue_outcome(Operation::CreateIssue, create_issue_path(), status, body) == Ok::<
            IssueModel,
            crate::reply::ErrorModel,
        >(
            IssueModel {
                id: member_text(issue, "id"@),
                title: member_text(issue, "title"@),
                state: member_text(issue, "state"@),
                body: member_text(issue, "body"@),
                url: member_text(issue, "url"@),
            },
        ),
{
    let path = create_issue_path();
    assert(path.drop_first() =~= seq!["createIssue"@, "issue"@]);
    assert(path.drop_first().drop_first() =~= seq!["issue"@]);
    assert(path.drop_first().drop_first().drop_first() =~= Seq::<Seq<char>>::empty());
    let inner = JsonModel::Object(map!["issue"@ => JsonModel::Object(issue)]);
    let data = JsonModel::Object(map!["createIssue"@ => inner]);
    let root = JsonModel::Object(map!["data"@ => data]);
    assert(json_at(JsonModel::Object(issue), Seq::<Seq<char>>::empty()) == Some(JsonModel::Object(issue)));
    assert(json_at(inner, seq!["issue"@]) == Some(JsonModel::Object(issue)));
    assert(json_at(data, seq!["createIssue"@, "issue"@]) == Some(JsonModel::Object(issue)));
    assert(json_at(root, path) == Some(JsonModel::Object(issue)));
}

/// On a failing status every operation fails with the upstream body as its message,
/// after the name of the operation; the message holds both.
pub proof fn rejected_reply_names_operation_and_body(
    op: Operation,
    path: Seq<Seq<char>>,
    status: u16,
    body: Seq<char>,
    needs_json: bool,
    done: Seq<char>,
)
    requires
        !status_ok(status),
    ensures
        issue_outcome(op, path, status, body) is Err,
        issue_outcome(op, path, status, body)->Err_0 == rejection(op, body),
        nodes_outcome(op, path, status, body) is Err,
        nodes_outcome(op, path, status, body)->Err_0 == rejection(op, body),
        ack_outcome(op, status, body, needs_json, done) is Err,
        ack_outcome(op, status, body, needs_json, done)->Err_0 == rejection(op, body),
        contains(rejection(op, body).message, op_label(op)),
        contains(rejection(op, body).message, body),
{
    let head = "Failed to "@;
    let label = op_label(op);
    let msg = rejection(op, body).message;
    assert(msg == head + label + ": "@ + body);
    assert(msg.subrange(head.len() as int, (head.len() + label.len()) as int) =~= label);
    let start = (head + label + ": "@).len() as int;
    assert(msg.subrange(start, start + body.len()) =~= body);
}

/// Mapping the same list-issues reply twice gives equal lists, element by element.
pub proof fn list_issues_mapping_is_deterministic(
    status: u16,
    body: Seq<char>,
    first: Result<Vec<serde_json::Value>, OperationError>,
    second: Result<Vec<serde_json::Value>, OperationError>,
)
    requires
        nodes_result_view(first) == nodes_outcome(
            Operation::ListIssues,
            list_issues_path(),
            status,
            body,
        ),
        nodes_result_view(second) == nodes_outcome(
            Operation::ListIssues,
            list_issues_path(),
            status,
            body,
        ),
    ensures
        nodes_result_view(first) == nodes_result_view(second),
{
}

} // verus!
