use github_issue::handler::{
    ADD_LABELS_DOCUMENT, CREATE_ISSUE_DOCUMENT, DELETE_ISSUE_DOCUMENT, UPDATE_ISSUE_DOCUMENT,
};
use github_issue::reply::{decode_issue, decode_nodes, issue_from_value, transport_failure, value_at};
use github_issue::request::{check_decimal, escape_graphql};
use github_issue::{
    AddLabelsToLabelable, CreateIssue, DeleteIssue, ErrorKind, FetchIssue, Issue, IssueQuery,
    Mutation, Operation, Query, Repository, RepositoryDetail, UpdateIssue, UpstreamRequest,
    VarValue, DEFAULT_ISSUE_LIMIT, DEFAULT_LABEL_LIMIT,
};
use serde_json::Value;

fn parse(text: &str) -> Value {
    serde_json::from_str(text).unwrap()
}

fn issue_with(id: &str, title: &str) -> Issue {
    Issue {
        id: Some(id.to_string()),
        title: Some(title.to_string()),
        state: None,
        body: None,
        url: None,
    }
}

fn same_issue(a: &Issue, b: &Issue) -> bool {
    a.id == b.id && a.title == b.title && a.state == b.state && a.body == b.body && a.url == b.url
}

#[test]
fn create_issue_binds_three_variables_unchanged() {
    let input = CreateIssue {
        title: "Crash on start".to_string(),
        repositoryid: "R_kgDO123".to_string(),
        body: "It \"crashes\"\nalways".to_string(),
    };
    let request = Mutation.create_issue_request(&input);
    assert_eq!(request.query, CREATE_ISSUE_DOCUMENT);
    let body = request.to_json();
    let variables = body["variables"].as_object().unwrap();
    assert_eq!(variables.len(), 3);
    assert_eq!(variables["repositoryId"], Value::String("R_kgDO123".to_string()));
    assert_eq!(variables["title"], Value::String("Crash on start".to_string()));
    assert_eq!(variables["body"], Value::String("It \"crashes\"\nalways".to_string()));
    assert_eq!(body["query"], Value::String(CREATE_ISSUE_DOCUMENT.to_string()));
    assert_eq!(body.as_object().unwrap().len(), 2);
}

#[test]
fn create_issue_reply_decodes_present_and_missing_fields() {
    let body = r#"{"data":{"createIssue":{"issue":{"id":"I_9","title":"New","state":"OPEN","body":null}}}}"#;
    let issue = Mutation.create_issue_reply(200, body).unwrap();
    assert_eq!(issue.id, Some("I_9".to_string()));
    assert_eq!(issue.title, Some("New".to_string()));
    assert_eq!(issue.state, Some("OPEN".to_string()));
    assert_eq!(issue.body, None);
    assert_eq!(issue.url, None);
}

#[test]
fn create_issue_reply_with_empty_issue_object() {
    let body = r#"{"data":{"createIssue":{"issue":{}}}}"#;
    let issue = Mutation.create_issue_reply(201, body).unwrap();
    assert!(same_issue(
        &issue,
        &Issue { id: None, title: None, state: None, body: None, url: None }
    ));
}

#[test]
fn rate_limited_reply_names_the_operation() {
    let err = Mutation.create_issue_reply(429, "rate limited").unwrap_err();
    assert_eq!(err.kind, ErrorKind::Rejected);
    assert_eq!(err.message, "Failed to create issue: rate limited");
    assert!(err.message.contains("create issue"));
    assert!(err.message.contains("rate limited"));
}

#[test]
fn rate_limited_reply_fails_every_operation() {
    let expected = [
        ("update issue", Mutation.update_issue_reply(403, "rate limited").map(|_| ()).unwrap_err()),
        ("delete issue", Mutation.delete_issue_reply(403, "rate limited").map(|_| ()).unwrap_err()),
        ("close issue", Mutation.close_issue_reply(500, "rate limited").map(|_| ()).unwrap_err()),
        ("add label in issue", Mutation.add_label_to_issue_reply(502, "rate limited").map(|_| ()).unwrap_err()),
        ("get issue", Query.get_issue_id_reply(404, "rate limited").map(|_| ()).unwrap_err()),
        ("list issues", Query.get_repository_issues_reply(199, "rate limited").map(|_| ()).unwrap_err()),
        ("list labels", Query.get_labels_reply(300, "rate limited").map(|_| ()).unwrap_err()),
    ];
    for (label, err) in expected.iter() {
        assert_eq!(err.kind, ErrorKind::Rejected);
        assert!(err.message.contains(label));
        assert!(err.message.contains("rate limited"));
        assert_eq!(err.message, format!("Failed to {}: rate limited", label));
    }
}

#[test]
fn list_issues_mapping_twice_gives_equal_lists() {
    let body = r#"{"data":{"repository":{"issues":{"nodes":[
        {"id":"I_1","title":"A","createdAt":"2024-01-01T00:00:00Z"},
        {"id":"I_2","title":"B","closedAt":null}
    ]}}}}"#;
    let first = Query.get_repository_issues_reply(200, body).unwrap();
    let second = Query.get_repository_issues_reply(200, body).unwrap();
    assert_eq!(first, second);
    assert_eq!(first.len(), 2);
    assert_eq!(first[0]["id"], Value::String("I_1".to_string()));
    assert_eq!(first[1]["title"], Value::String("B".to_string()));
}

#[test]
fn update_without_changes_sends_null_title_and_body() {
    let input = UpdateIssue { newtitle: None, issueid: "I_7".to_string(), newbody: None };
    let request = Mutation.update_issue_request(&input);
    assert_eq!(request.query, UPDATE_ISSUE_DOCUMENT);
    assert!(request.has_distinct_names());
    let body = request.to_json();
    let variables = body["variables"].as_object().unwrap();
    assert_eq!(variables.len(), 3);
    assert_eq!(variables["id"], Value::String("I_7".to_string()));
    assert_eq!(variables["title"], Value::Null);
    assert_eq!(variables["body"], Value::Null);
}

#[test]
fn update_with_changes_sends_them() {
    let input = UpdateIssue {
        newtitle: Some("Renamed".to_string()),
        issueid: "I_7".to_string(),
        newbody: None,
    };
    let body = Mutation.update_issue_request(&input).to_json();
    assert_eq!(body["variables"]["title"], Value::String("Renamed".to_string()));
    assert_eq!(body["variables"]["body"], Value::Null);
}

#[test]
fn fetch_issue_end_to_end() {
    let repository = Repository {
        owner: "octo".to_string(),
        reponame: "hello-world".to_string(),
        issuenumber: "1".to_string(),
    };
    let request = Query.get_issue_id_request(&repository).unwrap();
    assert!(request.query.contains("owner: \"octo\""));
    assert!(request.query.contains("name: \"hello-world\""));
    assert!(request.query.contains("issue(number: 1)"));
    let body = request.to_json();
    assert_eq!(body.as_object().unwrap().len(), 1);
    assert_eq!(body["query"], Value::String(request.query.clone()));
    let reply = r#"{"data":{"repository":{"issue":{"id":"I_1","body":"","title":"Test","state":"OPEN","url":"https://github.com/octo/hello-world/issues/1"}}}}"#;
    let issue = Query.get_issue_id_reply(200, reply).unwrap();
    assert_eq!(issue.id, Some("I_1".to_string()));
    assert_eq!(issue.title, Some("Test".to_string()));
    assert_eq!(issue.state, Some("OPEN".to_string()));
    assert_eq!(issue.body, Some(String::new()));
    assert_eq!(issue.url, Some("https://github.com/octo/hello-world/issues/1".to_string()));
}

#[test]
fn fetch_issue_document_exact_text() {
    let repository = Repository {
        owner: "o".to_string(),
        reponame: "r".to_string(),
        issuenumber: "42".to_string(),
    };
    let request = Query.get_issue_id_request(&repository).unwrap();
    assert_eq!(
        request.query,
        "query {\n  repository(owner: \"o\", name: \"r\") {\n    issue(number: 42) {\n      id\n      body\n      title\n      state\n      url\n    }\n  }\n}"
    );
}

#[test]
fn fetch_issue_escapes_names() {
    let repository = Repository {
        owner: "a\") { x }".to_string(),
        reponame: "b\\c".to_string(),
        issuenumber: "3".to_string(),
    };
    let request = Query.get_issue_id_request(&repository).unwrap();
    assert!(request.query.contains("owner: \"a\\\") { x }\""));
    assert!(request.query.contains("name: \"b\\\\c\""));
}

#[test]
fn fetch_issue_refuses_non_decimal_number() {
    for number in ["", "1)", "1 } mutation {", "-1", "x"] {
        let repository = Repository {
            owner: "octo".to_string(),
            reponame: "hello-world".to_string(),
            issuenumber: number.to_string(),
        };
        let err = Query.get_issue_id_request(&repository).unwrap_err();
        assert_eq!(err.kind, ErrorKind::InvalidInput);
        assert_eq!(err.message, "Failed to get issue: the issue number must be a run of decimal digits");
    }
}

#[test]
fn issue_query_body_holds_query_alone() {
    let q = IssueQuery { query: "query { viewer { login } }".to_string() };
    let body = q.to_json();
    assert_eq!(body.as_object().unwrap().len(), 1);
    assert_eq!(body["query"], Value::String("query { viewer { login } }".to_string()));
}

#[test]
fn reply_that_is_not_json_is_malformed() {
    let err = Mutation.create_issue_reply(200, "<html>").unwrap_err();
    assert_eq!(err.kind, ErrorKind::Malformed);
    assert_eq!(err.message, "Failed to create issue: unexpected reply from upstream");
}

#[test]
fn reply_with_null_issue_is_malformed() {
    let body = r#"{"data":{"updateIssue":{"issue":null}},"errors":[{"message":"not found"}]}"#;
    let err = Mutation.update_issue_reply(200, body).unwrap_err();
    assert_eq!(err.kind, ErrorKind::Malformed);
    assert_eq!(err.message, "Failed to update issue: unexpected reply from upstream");
}

#[test]
fn reply_with_wrong_field_type_is_malformed() {
    let body = r#"{"data":{"repository":{"issue":{"id":7}}}}"#;
    let err = Query.get_issue_id_reply(200, body).unwrap_err();
    assert_eq!(err.kind, ErrorKind::Malformed);
}

#[test]
fn reply_on_wrong_path_is_malformed() {
    let body = r#"{"data":{"createIssue":{"issue":{"id":"I_1"}}}}"#;
    let err = Mutation.update_issue_reply(200, body).unwrap_err();
    assert_eq!(err.kind, ErrorKind::Malformed);
}

#[test]
fn delete_issue_uses_a_bound_variable() {
    let input = DeleteIssue { issue_id: "I_1\"}) { x }".to_string() };
    let request = Mutation.delete_issue_request(&input);
    assert_eq!(request.query, DELETE_ISSUE_DOCUMENT);
    assert!(!request.query.contains("I_1"));
    let body = request.to_json();
    assert_eq!(body["variables"]["issueId"], Value::String("I_1\"}) { x }".to_string()));
    assert_eq!(body["variables"].as_object().unwrap().len(), 1);
}

#[test]
fn delete_issue_reply_acknowledges() {
    let ack = Mutation.delete_issue_reply(200, "").unwrap();
    assert_eq!(ack.client_mutation_id, "deleted");
    let err = Mutation.delete_issue_reply(401, "Bad credentials").unwrap_err();
    assert_eq!(err.message, "Failed to delete issue: Bad credentials");
}

#[test]
fn close_issue_request_and_reply() {
    let request = Mutation.close_issue_request(&FetchIssue { issue_id: "I_5".to_string() });
    let body = request.to_json();
    assert_eq!(body["variables"]["issueId"], Value::String("I_5".to_string()));
    assert_eq!(Mutation.close_issue_reply(200, "not json").unwrap(), "Issue closed successfully");
}

#[test]
fn add_labels_binds_every_label() {
    let input = AddLabelsToLabelable {
        issue_id: "I_3".to_string(),
        label_ids: vec!["L_1".to_string(), "L_2".to_string()],
    };
    let request = Mutation.add_label_to_issue_request(&input);
    assert_eq!(request.query, ADD_LABELS_DOCUMENT);
    let body = request.to_json();
    assert_eq!(body["variables"]["labelableId"], Value::String("I_3".to_string()));
    let ids = body["variables"]["labelIds"].as_array().unwrap();
    assert_eq!(ids.len(), 2);
    assert_eq!(ids[0], Value::String("L_1".to_string()));
    assert_eq!(ids[1], Value::String("L_2".to_string()));
}

#[test]
fn add_labels_with_no_label_sends_empty_list() {
    let input = AddLabelsToLabelable { issue_id: "I_3".to_string(), label_ids: vec![] };
    let body = Mutation.add_label_to_issue_request(&input).to_json();
    assert_eq!(body["variables"]["labelIds"].as_array().unwrap().len(), 0);
}

#[test]
fn add_label_reply_needs_json() {
    assert_eq!(
        Mutation.add_label_to_issue_reply(200, r#"{"data":{}}"#).unwrap(),
        "Add label successfully"
    );
    let err = Mutation.add_label_to_issue_reply(200, "oops").unwrap_err();
    assert_eq!(err.kind, ErrorKind::Malformed);
    assert_eq!(err.message, "Failed to add label in issue: unexpected reply from upstream");
}

#[test]
fn list_issues_request_binds_owner_name_and_limit() {
    let detail = RepositoryDetail {
        owner: "octo".to_string(),
        reponame: "hello-world".to_string(),
        last: DEFAULT_ISSUE_LIMIT,
    };
    let body = Query.get_repository_issues_request(&detail).to_json();
    let variables = body["variables"].as_object().unwrap();
    assert_eq!(variables.len(), 3);
    assert_eq!(variables["owner"], Value::String("octo".to_string()));
    assert_eq!(variables["repoName"], Value::String("hello-world".to_string()));
    assert_eq!(variables["last"], Value::from(10u64));
}

#[test]
fn list_labels_request_and_reply() {
    let body = Query
        .get_labels_request(&"octo".to_string(), &"hello-world".to_string(), DEFAULT_LABEL_LIMIT)
        .to_json();
    assert_eq!(body["variables"]["first"], Value::from(20u64));
    assert_eq!(body["variables"]["repoName"], Value::String("hello-world".to_string()));
    let reply = r#"{"data":{"repository":{"labels":{"nodes":[{"id":"L_1","name":"bug","description":null}]}}}}"#;
    let labels = Query.get_labels_reply(200, reply).unwrap();
    assert_eq!(labels.len(), 1);
    assert_eq!(labels[0]["name"], Value::String("bug".to_string()));
}

#[test]
fn list_reply_with_non_array_nodes_is_malformed() {
    let reply = r#"{"data":{"repository":{"labels":{"nodes":{"id":"L_1"}}}}}"#;
    let err = Query.get_labels_reply(200, reply).unwrap_err();
    assert_eq!(err.kind, ErrorKind::Malformed);
    assert_eq!(err.message, "Failed to list labels: unexpected reply from upstream");
}

#[test]
fn list_reply_with_empty_nodes() {
    let reply = r#"{"data":{"repository":{"issues":{"nodes":[]}}}}"#;
    assert_eq!(Query.get_repository_issues_reply(200, reply).unwrap().len(), 0);
}

#[test]
fn duplicate_variable_names_are_detected() {
    let request = UpstreamRequest {
        query: "query($a: Int!) { x }".to_string(),
        variables: vec![
            ("a".to_string(), VarValue::Count(1)),
            ("b".to_string(), VarValue::Null),
            ("a".to_string(), VarValue::Count(2)),
        ],
    };
    assert!(!request.has_distinct_names());
    let fine = UpstreamRequest {
        query: "query".to_string(),
        variables: vec![
            ("a".to_string(), VarValue::TextList(vec!["x".to_string()])),
            ("b".to_string(), VarValue::Text("y".to_string())),
        ],
    };
    assert!(fine.has_distinct_names());
    let body = fine.to_json();
    assert_eq!(body["variables"]["a"][0], Value::String("x".to_string()));
    assert_eq!(body["variables"]["b"], Value::String("y".to_string()));
}

#[test]
fn escape_graphql_exact_values() {
    assert_eq!(escape_graphql(""), "");
    assert_eq!(escape_graphql("plain"), "plain");
    assert_eq!(escape_graphql("a\"b"), "a\\\"b");
    assert_eq!(escape_graphql("a\\b"), "a\\\\b");
    assert_eq!(escape_graphql("l1\nl2\r"), "l1\\nl2\\r");
    assert_eq!(escape_graphql("é\t"), "é\t");
}

#[test]
fn check_decimal_values() {
    assert!(check_decimal("0"));
    assert!(check_decimal("1234567890"));
    assert!(!check_decimal(""));
    assert!(!check_decimal("12a"));
    assert!(!check_decimal("١"));
}

#[test]
fn decode_issue_from_parsed_value() {
    let root = parse(r#"{"data":{"x":{"id":"I_2","title":"T","url":"u"}}}"#);
    let issue = decode_issue(Operation::GetIssue, &root, &["data", "x"]).unwrap();
    assert!(same_issue(&issue, &Issue { url: Some("u".to_string()), ..issue_with("I_2", "T") }));
    let err = decode_issue(Operation::GetIssue, &root, &["data", "y"]).unwrap_err();
    assert_eq!(err.kind, ErrorKind::Malformed);
}

#[test]
fn decode_nodes_from_parsed_value() {
    let root = parse(r#"{"a":[1,"two",null]}"#);
    let nodes = decode_nodes(Operation::ListIssues, &root, &["a"]).unwrap();
    assert_eq!(nodes, vec![Value::from(1u64), Value::String("two".to_string()), Value::Null]);
    assert!(decode_nodes(Operation::ListIssues, &root, &[]).is_err());
}

#[test]
fn value_at_follows_members() {
    let root = parse(r#"{"a":{"b":{"c":true}},"n":[{"b":1}]}"#);
    assert_eq!(value_at(&root, &["a", "b", "c"]), Some(&Value::Bool(true)));
    assert_eq!(value_at(&root, &[]), Some(&root));
    assert_eq!(value_at(&root, &["a", "x"]), None);
    assert_eq!(value_at(&root, &["n", "b"]), None);
}

#[test]
fn issue_from_value_kinds() {
    assert!(issue_from_value(&Value::Null).is_none());
    assert!(issue_from_value(&parse("[\"I\"]")).is_none());
    assert!(issue_from_value(&parse(r#"{"title":["x"]}"#)).is_none());
    let issue = issue_from_value(&parse(r#"{"id":"I","title":"T","extra":5}"#)).unwrap();
    assert!(same_issue(&issue, &issue_with("I", "T")));
}

#[test]
fn transport_failure_message() {
    let err = transport_failure(Operation::CloseIssue, "connection refused");
    assert_eq!(err.kind, ErrorKind::Transport);
    assert_eq!(err.message, "Failed to close issue: connection refused");
}

#[test]
fn operation_labels() {
    assert_eq!(Operation::AddLabel.label(), "add label in issue");
    assert_eq!(Operation::ListLabels.label(), "list labels");
}
