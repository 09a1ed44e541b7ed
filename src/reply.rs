//! The response mapper: from an upstream reply (HTTP status and body) to the gateway's
//! records, or to an error that names the operation.
use vstd::prelude::*;

use crate::json::{
    json_at, json_view, json_view_opt, json_views, member, parse_json, parsed_json, JsonModel,
};
use crate::schema::{opt_text, Issue, IssueModel};

verus! {

/// The operations that the gateway forwards upstream.
#[derive(PartialEq, Eq, Structural, Clone, Copy, Debug)]
pub enum Operation {
    CreateIssue,
    UpdateIssue,
    DeleteIssue,
    CloseIssue,
    AddLabel,
    GetIssue,
    ListIssues,
    ListLabels,
}

/// How an operation is named in its error messages.
pub open spec fn op_label(op: Operation) -> Seq<char> {
    match op {
        Operation::CreateIssue => "create issue"@,
        Operation::UpdateIssue => "update issue"@,
        Operation::DeleteIssue => "delete issue"@,
        Operation::CloseIssue => "close issue"@,
        Operation::AddLabel => "add label in issue"@,
        Operation::GetIssue => "get issue"@,
        Operation::ListIssues => "list issues"@,
        Operation::ListLabels => "list labels"@,
    }
}

impl Operation {
    /// How this operation is named in its error messages.
    pub fn label(&self) -> (r: &'static str)
        ensures
            r@ == op_label(*self),
    {
        match self {
            Operation::CreateIssue => "create issue",
            Operation::UpdateIssue => "update issue",
            Operation::DeleteIssue => "delete issue",
            Operation::CloseIssue => "close issue",
            Operation::AddLabel => "add label in issue",
            Operation::GetIssue => "get issue",
            Operation::ListIssues => "list issues",
            Operation::ListLabels => "list labels",
        }
    }
}

/// Why an operation failed.
#[derive(PartialEq, Eq, Structural, Clone, Copy, Debug)]
pub enum ErrorKind {
    /// The input cannot be put into a document without changing its shape.
    InvalidInput,
    /// The upstream API could not be reached.
    Transport,
    /// The upstream API answered with a status other than success.
    Rejected,
    /// The reply does not have the shape that the operation expects.
    Malformed,
}

/// The failure of one operation, with a message for the caller.
#[derive(Clone, Debug)]
pub struct OperationError {
    pub kind: ErrorKind,
    pub message: String,
}

/// The mathematical value of an [`OperationError`].
pub struct ErrorModel {
    pub kind: ErrorKind,
    pub message: Seq<char>,
}

impl View for OperationError {
    type V = ErrorModel;

    open spec fn view(&self) -> ErrorModel {
        ErrorModel { kind: self.kind, message: self.message@ }
    }
}

/// The message of a failure: which operation failed, then the detail.
pub open spec fn failure_message(op: Operation, detail: Seq<char>) -> Seq<char> {
    "Failed to "@ + op_label(op) + ": "@ + detail
}

/// What a malformed reply reports.
pub open spec fn malformed_detail() -> Seq<char> {
    "unexpected reply from upstream"@
}

/// Whether `needle` occurs in `hay`.
pub open spec fn contains(hay: Seq<char>, needle: Seq<char>) -> bool {
    exists|i: int|
        0 <= i && i + needle.len() <= hay.len() && #[trigger] hay.subrange(i, i + needle.len())
            == needle
}

/// The error of an operation that upstream answered with a failing status.
pub open spec fn rejection(op: Operation, body: Seq<char>) -> ErrorModel {
    ErrorModel { kind: ErrorKind::Rejected, message: failure_message(op, body) }
}

/// The error of an operation whose reply has an unexpected shape.
pub open spec fn malformed(op: Operation) -> ErrorModel {
    ErrorModel { kind: ErrorKind::Malformed, message: failure_message(op, malformed_detail()) }
}

/// Whether an HTTP status reports success (the 2xx range).
pub open spec fn status_ok(status: u16) -> bool {
    200 <= status <= 299
}

/// Builds the error of kind `kind` for operation `op` with the given detail.
pub fn failure(kind: ErrorKind, op: Operation, detail: &str) -> (r: OperationError)
    ensures
        r@ == (ErrorModel { kind: kind, message: failure_message(op, detail@) }),
{
    let mut message = String::from_str("Failed to ");
    message.append(op.label());
    message.append(": ");
    message.append(detail);
    OperationError { kind, message }
}

/// The error of an operation whose upstream call could not be made; `cause` says why.
pub fn transport_failure(op: Operation, cause: &str) -> (r: OperationError)
    ensures
        r@ == (ErrorModel { kind: ErrorKind::Transport, message: failure_message(op, cause@) }),
{
    failure(ErrorKind::Transport, op, cause)
}

/// The error of an operation whose reply has an unexpected shape.
pub fn malformed_failure(op: Operation) -> (r: OperationError)
    ensures
        r@ == malformed(op),
{
    failure(ErrorKind::Malformed, op, "unexpected reply from upstream")
}

/// Checks the HTTP status of a reply: on a failing status the body becomes the message.
pub fn check_status(op: Operation, status: u16, body: &str) -> (r: Result<(), OperationError>)
    ensures
        status_ok(status) <==> r is Ok,
        !status_ok(status) ==> r->Err_0@ == rejection(op, body@),
{
    if 200 <= status && status <= 299 {
        Ok(())
    } else {
        Err(failure(ErrorKind::Rejected, op, body))
    }
}

/// The names of a path of object members.
pub open spec fn path_view(path: Seq<&str>) -> Seq<Seq<char>> {
    path.map_values(|s: &str| s@)
}

/// Follows the member names of `path` from `root`, one object at a time.
pub fn value_at<'a>(
    root: &'a serde_json::Value,
    path: &[&str],
) -> (r: Option<&'a serde_json::Value>)
    ensures
        json_view_opt(r) == json_at(json_view(*root), path_view(path@)),
{
    let mut cur: &serde_json::Value = root;
    let mut i: usize = 0;
    assert(path_view(path@).skip(0) =~= path_view(path@));
    while i < path.len()
        invariant
            i <= path@.len(),
            json_at(json_view(*root), path_view(path@)) == json_at(
                json_view(*cur),
                path_view(path@).skip(i as int),
            ),
        decreases path@.len() - i,
    {
        let ghost rest = path_view(path@).skip(i as int);
        assert(rest.drop_first() =~= path_view(path@).skip(i + 1));
        assert(rest[0] == path[i as int]@);
        match member(cur, path[i]) {
            Some(next) => {
                cur = next;
            },
            None => {
                return None;
            },
        }
        i = i + 1;
    }
    assert(path_view(path@).skip(i as int) =~= Seq::<Seq<char>>::empty());
    Some(cur)
}

/// A text member of an object: `Some(None)` where it is absent or null, `Some(Some(s))`
/// where it is the string `s`, and `None` where it holds anything else.
pub open spec fn text_field(
    m: Map<Seq<char>, JsonModel>,
    key: Seq<char>,
) -> Option<Option<Seq<char>>> {
    if !m.contains_key(key) {
        Some(None)
    } else {
        match m[key] {
            JsonModel::Null => Some(None),
            JsonModel::Str(s) => Some(Some(s)),
            _ => None,
        }
    }
}

/// The issue that a JSON value describes: an object whose members `id`, `title`,
/// `state`, `body` and `url` are each absent, null or a string; other members are
/// ignored.
pub open spec fn issue_from_json(j: JsonModel) -> Option<IssueModel> {
    match j {
        JsonModel::Object(m) => {
            let id = text_field(m, "id"@);
            let title = text_field(m, "title"@);
            let state = text_field(m, "state"@);
            let body = text_field(m, "body"@);
            let url = text_field(m, "url"@);
            if id is Some && title is Some && state is Some && body is Some && url is Some {
                Some(
                    IssueModel {
                        id: id->0,
                        title: title->0,
                        state: state->0,
                        body: body->0,
                        url: url->0,
                    },
                )
            } else {
                None
            }
        },
        _ => None,
    }
}

/// The issue found at `path` under `j`.
pub open spec fn issue_at(j: JsonModel, path: Seq<Seq<char>>) -> Option<IssueModel> {
    match json_at(j, path) {
        Some(v) => issue_from_json(v),
        None => None,
    }
}

/// The elements of the array found at `path` under `j`.
pub open spec fn nodes_at(j: JsonModel, path: Seq<Seq<char>>) -> Option<Seq<JsonModel>> {
    match json_at(j, path) {
        Some(JsonModel::Array(items)) => Some(items),
        _ => None,
    }
}

/// What an operation that yields an issue returns for a reply: the upstream body as
/// the message on a failing status, else the issue found at `path` in the parsed body.
pub open spec fn issue_outcome(
    op: Operation,
    path: Seq<Seq<char>>,
    status: u16,
    body: Seq<char>,
) -> Result<IssueModel, ErrorModel> {
    if !status_ok(status) {
        Err(rejection(op, body))
    } else {
        match parsed_json(body) {
            Some(j) => match issue_at(j, path) {
                Some(i) => Ok(i),
                None => Err(malformed(op)),
            },
            None => Err(malformed(op)),
        }
    }
}

/// What an operation that yields a list returns for a reply: the upstream body as the
/// message on a failing status, else the elements of the array found at `path`.
pub open spec fn nodes_outcome(
    op: Operation,
    path: Seq<Seq<char>>,
    status: u16,
    body: Seq<char>,
) -> Result<Seq<JsonModel>, ErrorModel> {
    if !status_ok(status) {
        Err(rejection(op, body))
    } else {
        match parsed_json(body) {
            Some(j) => match nodes_at(j, path) {
                Some(items) => Ok(items),
                None => Err(malformed(op)),
            },
            None => Err(malformed(op)),
        }
    }
}

/// The mathematical value of an issue result.
pub open spec fn issue_result_view(
    r: Result<Issue, OperationError>,
) -> Result<IssueModel, ErrorModel> {
    match r {
        Ok(i) => Ok(i@),
        Err(e) => Err(e@),
    }
}

/// The mathematical value of a list result.
pub open spec fn nodes_result_view(
    r: Result<Vec<serde_json::Value>, OperationError>,
) -> Result<Seq<JsonModel>, ErrorModel> {
    match r {
        Ok(items) => Ok(json_views(items@)),
        Err(e) => Err(e@),
    }
}

/// The content of an optional text member.
pub open spec fn text_member_view(r: Option<Option<String>>) -> Option<Option<Seq<char>>> {
    match r {
        Some(o) => Some(opt_text(o)),
        None => None,
    }
}

/// Reads the text member `key` of an object.
fn text_member(obj: &serde_json::Value, key: &str) -> (r: Option<Option<String>>)
    requires
        json_view(*obj) is Object,
    ensures
        text_member_view(r) == text_field(json_view(*obj)->Object_0, key@),
{
    match member(obj, key) {
        None => Some(None),
        Some(v) => {
            if v.is_null() {
                Some(None)
            } else {
                match v.as_str() {
                    Some(s) => Some(Some(s.to_owned())),
                    None => None,
                }
            }
        },
    }
}

/// Decodes an issue from a JSON value, as [`issue_from_json`] describes.
pub fn issue_from_value(v: &serde_json::Value) -> (r: Option<Issue>)
    ensures
        match r {
            Some(i) => issue_from_json(json_view(*v)) == Some(i@),
            None => issue_from_json(json_view(*v)) is None,
        },
{
    if !v.is_object() {
        return None;
    }
    let id = text_member(v, "id");
    let title = text_member(v, "title");
    let state = text_member(v, "state");
    let body = text_member(v, "body");
    let url = text_member(v, "url");
    match (id, title, state, body, url) {
        (Some(id), Some(title), Some(state), Some(body), Some(url)) => Some(
            Issue { id, title, state, body, url },
        ),
        _ => None,
    }
}

/// Decodes the issue found at `path` under a parsed reply.
pub fn decode_issue(
    op: Operation,
    root: &serde_json::Value,
    path: &[&str],
) -> (r: Result<Issue, OperationError>)
    ensures
        issue_result_view(r) == match issue_at(json_view(*root), path_view(path@)) {
            Some(i) => Ok(i),
            None => Err(malformed(op)),
        },
{
    match value_at(root, path) {
        Some(v) => match issue_from_value(v) {
            Some(i) => Ok(i),
            None => Err(malformed_failure(op)),
        },
        None => Err(malformed_failure(op)),
    }
}

/// Copies the elements of the array found at `path` under a parsed reply.
pub fn decode_nodes(
    op: Operation,
    root: &serde_json::Value,
    path: &[&str],
) -> (r: Result<Vec<serde_json::Value>, OperationError>)
    ensures
        nodes_result_view(r) == match nodes_at(json_view(*root), path_view(path@)) {
            Some(items) => Ok(items),
            None => Err(malformed(op)),
        },
{
    let found = match value_at(root, path) {
        Some(v) => v,
        None => return Err(malformed_failure(op)),
    };
    let items = match found.as_array() {
        Some(items) => items,
        None => return Err(malformed_failure(op)),
    };
    let mut out: Vec<serde_json::Value> = Vec::new();
    let mut i: usize = 0;
    while i < items.len()
        invariant
            i <= items@.len(),
            out@.len() == i,
            forall|k: int| 0 <= k < i ==> json_view(#[trigger] out@[k]) == json_view(items@[k]),
        decreases items@.len() - i,
    {
        out.push(items[i].clone());
        i = i + 1;
    }
    assert(json_views(out@) =~= json_views(items@));
    Ok(out)
}

/// Maps the reply to an operation that yields the issue found at `path`.
pub fn issue_reply(
    op: Operation,
    path: &[&str],
    status: u16,
    body: &str,
) -> (r: Result<Issue, OperationError>)
    ensures
        issue_result_view(r) == issue_outcome(op, path_view(path@), status, body@),
{
    check_status(op, status, body)?;
    match parse_json(body) {
        Some(root) => decode_issue(op, &root, path),
        None => Err(malformed_failure(op)),
    }
}

/// Maps the reply to an operation that yields the elements of the array at `path`.
pub fn nodes_reply(
    op: Operation,
    path: &[&str],
    status: u16,
    body: &str,
) -> (r: Result<Vec<serde_json::Value>, OperationError>)
    ensures
        nodes_result_view(r) == nodes_outcome(op, path_view(path@), status, body@),
{
    check_status(op, status, body)?;
    match parse_json(body) {
        Some(root) => decode_nodes(op, &root, path),
        None => Err(malformed_failure(op)),
    }
}

} // verus!
