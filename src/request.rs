//! The operation builder's vocabulary: a request for the upstream API is a document
//! with its variables, encoded as the JSON body `{"query": ..., "variables": {...}}`.
use vstd::prelude::*;

use crate::json::{
    array_value, count_value, distinct_names, entries_map, entry_views, json_view, json_views,
    null_value, object_value, text_value, JsonModel,
};

verus! {

/// The value of one variable of a document.
#[derive(Debug)]
pub enum VarValue {
    Null,
    Text(String),
    TextList(Vec<String>),
    Count(u64),
}

/// The JSON that a variable value is sent as.
pub open spec fn var_json(v: VarValue) -> JsonModel {
    match v {
        VarValue::Null => JsonModel::Null,
        VarValue::Text(s) => JsonModel::Str(s@),
        VarValue::TextList(l) => JsonModel::Array(l@.map_values(|s: String| JsonModel::Str(s@))),
        VarValue::Count(n) => JsonModel::Number(Some(n as int)),
    }
}

/// A document for the upstream API with the values of its variables.
#[derive(Debug)]
pub struct UpstreamRequest {
    pub query: String,
    pub variables: Vec<(String, VarValue)>,
}

/// The mathematical value of an [`UpstreamRequest`].
pub struct RequestModel {
    pub query: Seq<char>,
    pub variables: Seq<(Seq<char>, JsonModel)>,
}

impl View for UpstreamRequest {
    type V = RequestModel;

    open spec fn view(&self) -> RequestModel {
        RequestModel {
            query: self.query@,
            variables: self.variables@.map_values(
                |e: (String, VarValue)| (e.0@, var_json(e.1)),
            ),
        }
    }
}

/// The JSON body that carries a request.
pub open spec fn request_json(m: RequestModel) -> JsonModel {
    JsonModel::Object(
        map![
            "query"@ => JsonModel::Str(m.query),
            "variables"@ => JsonModel::Object(entries_map(m.variables)),
        ],
    )
}

impl RequestModel {
    /// No two variables share a name.
    pub open spec fn wf(self) -> bool {
        distinct_names(self.variables)
    }
}

/// Encodes a variable value as JSON.
pub fn var_to_json(v: &VarValue) -> (r: serde_json::Value)
    ensures
        json_view(r) == var_json(*v),
{
    match v {
        VarValue::Null => null_value(),
        VarValue::Text(s) => text_value(s.clone()),
        VarValue::TextList(l) => {
            let mut items: Vec<serde_json::Value> = Vec::new();
            let mut i: usize = 0;
            while i < l.len()
                invariant
                    i <= l@.len(),
                    items@.len() == i,
                    forall|k: int|
                        0 <= k < i ==> json_view(#[trigger] items@[k]) == JsonModel::Str(l@[k]@),
                decreases l@.len() - i,
            {
                items.push(text_value(l[i].clone()));
                i = i + 1;
            }
            assert(json_views(items@) =~= l@.map_values(|s: String| JsonModel::Str(s@)));
            array_value(items)
        },
        VarValue::Count(n) => count_value(*n),
    }
}

impl UpstreamRequest {
    /// Whether no two variables share a name.
    pub fn has_distinct_names(&self) -> (r: bool)
        ensures
            r == self@.wf(),
    {
        let n = self.variables.len();
        let mut i: usize = 0;
        while i < n
            invariant
                n == self.variables@.len(),
                i <= n,
                forall|a: int, b: int|
                    0 <= a < b < n && a < i ==> self@.variables[a].0 != self@.variables[b].0,
            decreases n - i,
        {
            let mut j: usize = i + 1;
            while j < n
                invariant
                    n == self.variables@.len(),
                    i < n,
                    i + 1 <= j <= n,
                    forall|a: int, b: int|
                        0 <= a < b < n && a < i ==> self@.variables[a].0 != self@.variables[b].0,
                    forall|b: int| i < b < j ==> self@.variables[i as int].0 != self@.variables[b].0,
                decreases n - j,
            {
                if self.variables[i].0 == self.variables[j].0 {
                    assert(self@.variables[i as int].0 == self@.variables[j as int].0);
                    return false;
                }
                j = j + 1;
            }
            i = i + 1;
        }
        true
    }

    /// The JSON body that carries this request.
    pub fn to_json(&self) -> (r: serde_json::Value)
        requires
            self@.wf(),
        ensures
            json_view(r) == request_json(self@),
    {
        let mut entries: Vec<(String, serde_json::Value)> = Vec::new();
        let mut i: usize = 0;
        while i < self.variables.len()
            invariant
                i <= self.variables@.len(),
                entries@.len() == i,
                forall|k: int|
                    0 <= k < i ==> (#[trigger] entries@[k]).0@ == self.variables@[k].0@
                        && json_view(entries@[k].1) == var_json(self.variables@[k].1),
            decreases self.variables@.len() - i,
        {
            let name = self.variables[i].0.clone();
            let value = var_to_json(&self.variables[i].1);
            entries.push((name, value));
            i = i + 1;
        }
        assert(entry_views(entries@) =~= self@.variables);
        let variables = object_value(entries);
        let mut body: Vec<(String, serde_json::Value)> = Vec::new();
        body.push((String::from_str("query"), text_value(self.query.clone())));
        body.push((String::from_str("variables"), variables));
        proof {
            reveal_strlit("query");
            reveal_strlit("variables");
            assert("query"@.len() != "variables"@.len());
            let ev = entry_views(body@);
            assert(ev =~= seq![
                ("query"@, JsonModel::Str(self.query@)),
                ("variables"@, JsonModel::Object(entries_map(self@.variables))),
            ]);
            assert(ev.drop_last().drop_last() =~= Seq::<(Seq<char>, JsonModel)>::empty());
            assert(entries_map(ev.drop_last()) == entries_map(
                ev.drop_last().drop_last(),
            ).insert("query"@, JsonModel::Str(self.query@)));
            assert(entries_map(ev) == entries_map(ev.drop_last()).insert(
                "variables"@,
                JsonModel::Object(entries_map(self@.variables)),
            ));
            assert(entries_map(ev) =~= map![
                "query"@ => JsonModel::Str(self.query@),
                "variables"@ => JsonModel::Object(entries_map(self@.variables)),
            ]);
        }
        object_value(body)
    }
}

/// The characters that stand for `c` inside a quoted GraphQL string.
pub open spec fn escape_char(c: char) -> Seq<char> {
    if c == '"' {
        seq!['\\', '"']
    } else if c == '\\' {
        seq!['\\', '\\']
    } else if c == '\n' {
        seq!['\\', 'n']
    } else if c == '\r' {
        seq!['\\', 'r']
    } else {
        seq![c]
    }
}

/// The body of a quoted GraphQL string that stands for `s`.
pub open spec fn escaped(s: Seq<char>) -> Seq<char>
    decreases s.len(),
{
    if s.len() == 0 {
        Seq::empty()
    } else {
        escaped(s.drop_last()) + escape_char(s.last())
    }
}

/// Escapes `s` for use between the quotes of a GraphQL string, so that no input can
/// end the string early.
pub fn escape_graphql(s: &str) -> (r: String)
    ensures
        r@ == escaped(s@),
{
    let n = s.unicode_len();
    let mut out = String::new();
    let mut i: usize = 0;
    while i < n
        invariant
            n == s@.len(),
            i <= n,
            out@ == escaped(s@.take(i as int)),
        decreases n - i,
    {
        let c = s.get_char(i);
        proof {
            reveal_strlit("\\\"");
            reveal_strlit("\\\\");
            reveal_strlit("\\n");
            reveal_strlit("\\r");
        }
        if c == '"' {
            out.append("\\\"");
        } else if c == '\\' {
            out.append("\\\\");
        } else if c == '\n' {
            out.append("\\n");
        } else if c == '\r' {
            out.append("\\r");
        } else {
            out.append(s.substring_char(i, i + 1));
        }
        assert(s@.take(i + 1).drop_last() =~= s@.take(i as int));
        assert(s@.subrange(i as int, i + 1) =~= seq![c]);
        i = i + 1;
    }
    assert(s@.take(n as int) =~= s@);
    out
}

/// Whether `c` may stand as it is inside a quoted GraphQL string.
pub open spec fn plain_char(c: char) -> bool {
    c != '"' && c != '\\' && c != '\n' && c != '\r'
}

/// Whether `c` may follow a backslash inside a quoted GraphQL string.
pub open spec fn escapable_char(c: char) -> bool {
    c == '"' || c == '\\' || c == 'n' || c == 'r'
}

/// Whether `t` is a run of plain characters and escape pairs: between two quotes it is
/// read as one string, which it cannot end early.
pub open spec fn is_string_body(t: Seq<char>) -> bool
    decreases t.len(),
{
    if t.len() == 0 {
        true
    } else {
        (plain_char(t.last()) && is_string_body(t.drop_last())) || (t.len() >= 2 && t[t.len()
            - 2] == '\\' && escapable_char(t.last()) && is_string_body(t.take(t.len() - 2)))
    }
}

/// Escaped text is a string body: whatever the input, it stays inside its quotes.
pub proof fn escaped_text_stays_inside_its_quotes(s: Seq<char>)
    ensures
        is_string_body(escaped(s)),
    decreases s.len(),
{
    if s.len() > 0 {
        let head = escaped(s.drop_last());
        escaped_text_stays_inside_its_quotes(s.drop_last());
        let c = s.last();
        let t = escaped(s);
        assert(t == head + escape_char(c));
        if plain_char(c) {
            assert(t.drop_last() =~= head);
        } else {
            assert(t.take(t.len() - 2) =~= head);
        }
    }
}

/// Whether `s` is a non-empty run of decimal digits.
pub open spec fn is_decimal(s: Seq<char>) -> bool {
    s.len() > 0 && forall|i: int| 0 <= i < s.len() ==> '0' <= #[trigger] s[i] <= '9'
}

/// Whether `s` is a non-empty run of decimal digits.
pub fn check_decimal(s: &str) -> (r: bool)
    ensures
        r == is_decimal(s@),
{
    let n = s.unicode_len();
    if n == 0 {
        return false;
    }
    let mut i: usize = 0;
    while i < n
        invariant
            n == s@.len(),
            i <= n,
            forall|k: int| 0 <= k < i ==> '0' <= #[trigger] s@[k] <= '9',
        decreases n - i,
    {
        let c = s.get_char(i);
        if c < '0' || c > '9' {
            return false;
        }
        i = i + 1;
    }
    true
}

} // verus!
