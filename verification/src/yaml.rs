//! A YAML document as a pre-order list of nodes, and the lookup of a
//! scalar by a path of mapping keys.

use vstd::prelude::*;

use serde_yaml::Value;

use crate::text::{bool_str, bool_text, owned, split, split_char};

verus! {

/// One node of a YAML document, its children following it in pre-order.
#[derive(Debug, Clone)]
pub enum YamlToken {
    Null,
    Bool(bool),
    /// A number, as it prints.
    Number(String),
    Str(String),
    /// A sequence (its items are not listed: no key path leads into one).
    Sequence,
    /// A mapping; its `n` entries follow, each a value node then its key node.
    Mapping(usize),
    /// A tagged value; the value follows.
    Tagged,
}

/// The nodes of the YAML document `content`: each node, then its children
/// from the last (a mapping's entries from the last, each as its value then
/// its key; a sequence without its items), or `None` when the text does not
/// parse.
pub uninterp spec fn yaml_tokens(content: Seq<char>) -> Option<Seq<YamlToken>>;

/// `serde_yaml`'s document value.
#[verifier::external_type_specification]
#[verifier::external_body]
pub struct ExYamlValue(Value);

/// A parsed YAML document and the text it was parsed from.
pub struct YamlDocument {
    source: String,
    root: Value,
}

impl YamlDocument {
    /// The text the document was parsed from.
    pub closed spec fn source(self) -> Seq<char> {
        self.source@
    }
}

/// Parses `content` with `serde_yaml::from_str` into a `serde_yaml::Value`,
/// kept with the text. `None` exactly when the text does not parse.
#[verifier::external_body]
fn parse_yaml(content: &str) -> (r: Option<YamlDocument>)
    ensures
        (r is Some) == (yaml_tokens(content@) is Some),
        r matches Some(d) ==> d.source() == content@,
{
    let root = serde_yaml::from_str::<Value>(content).ok()?;
    Some(YamlDocument { source: content.to_string(), root })
}

impl YamlDocument {
    /// The document's nodes, converted one for one from the
    /// `serde_yaml::Value`: each node, then its children, last child first
    /// (a mapping's entries from the last, each as its value then its key; a
    /// tagged value's inner value). A sequence's items are not listed. Nothing is claimed of the result
    /// but that it is `yaml_tokens` of the document's text.
    #[verifier::external_body]
    fn tokens(&self) -> (r: Vec<YamlToken>)
        ensures
            yaml_tokens(self.source()) == Some(r@),
    {
        let (mut out, mut stack) = (vec![], vec![&self.root]);
        while let Some(v) = stack.pop() {
            out.push(match v {
                Value::Null => YamlToken::Null,
                Value::Sequence(_) => YamlToken::Sequence,
                Value::Bool(b) => YamlToken::Bool(*b),
                Value::Number(n) => YamlToken::Number(n.to_string()),
                Value::String(t) => YamlToken::Str(t.clone()),
                Value::Mapping(m) => { stack.extend(m.iter().flat_map(|(k, x)| [k, x])); YamlToken::Mapping(m.len()) }
                Value::Tagged(t) => { stack.push(&t.value); YamlToken::Tagged }
            });
        }
        out
    }
}

/// The view of an optional string.
pub open spec fn opt_text(o: Option<String>) -> Option<Seq<char>> {
    match o {
        Some(s) => Some(s@),
        None => None,
    }
}

/// How many child nodes follow a node directly.
pub open spec fn child_count(t: YamlToken) -> int {
    match t {
        YamlToken::Mapping(n) => 2 * n,
        YamlToken::Tagged => 1,
        _ => 0,
    }
}

/// The position just after `pending` whole nodes starting at `i`, or `None`
/// when the list ends first.
pub open spec fn skip_nodes(ts: Seq<YamlToken>, i: int, pending: int) -> Option<int>
    decreases ts.len() - i,
{
    if pending <= 0 {
        Some(i)
    } else if i < 0 || i >= ts.len() {
        None
    } else {
        skip_nodes(ts, i + 1, pending - 1 + child_count(ts[i]))
    }
}

/// The node a tag chain at `i` stands for: past every `Tagged` node.
pub open spec fn untag(ts: Seq<YamlToken>, i: int) -> int
    decreases ts.len() - i,
{
    if 0 <= i < ts.len() && ts[i] is Tagged {
        untag(ts, i + 1)
    } else {
        i
    }
}

/// Whether the node at `k` is the plain string `key` (a tagged string is not).
pub open spec fn is_key(ts: Seq<YamlToken>, k: int, key: Seq<char>) -> bool {
    0 <= k < ts.len() && ts[k] is Str && ts[k]->Str_0@ == key
}

/// The position of the value whose key is the plain string `key`, among
/// `remaining` mapping entries of which the first value node is at `j`.
pub open spec fn map_find(ts: Seq<YamlToken>, j: int, remaining: int, key: Seq<char>) -> Option<int>
    decreases remaining,
{
    if remaining <= 0 {
        None
    } else {
        match skip_nodes(ts, j, 1) {
            Some(k) if is_key(ts, k, key) => Some(j),
            Some(_) => match skip_nodes(ts, j, 2) {
                Some(next) => map_find(ts, next, remaining - 1, key),
                None => None,
            },
            None => None,
        }
    }
}

/// The position of the node reached from the node at `i` by following the
/// mapping keys of `path` (each step looks through tags, then into a mapping).
pub open spec fn walk(ts: Seq<YamlToken>, i: int, path: Seq<Seq<char>>) -> Option<int>
    decreases path.len(),
{
    if path.len() == 0 {
        Some(i)
    } else {
        let u = untag(ts, i);
        if 0 <= u < ts.len() && ts[u] is Mapping {
            match map_find(ts, u + 1, ts[u]->Mapping_0 as int, path[0]) {
                Some(v) => walk(ts, v, path.drop_first()),
                None => None,
            }
        } else {
            None
        }
    }
}

/// The text of the scalar at `i`: a string as it is, a number or a boolean
/// as it prints; `None` for anything else (a tagged value included).
pub open spec fn scalar_at(ts: Seq<YamlToken>, i: int) -> Option<Seq<char>> {
    if 0 <= i < ts.len() {
        match ts[i] {
            YamlToken::Str(s) => Some(s@),
            YamlToken::Number(t) => Some(t@),
            YamlToken::Bool(b) => Some(bool_text(b)),
            _ => None,
        }
    } else {
        None
    }
}

/// The scalar at the '/'-separated key path `key` of the document `content`.
pub open spec fn yaml_value(content: Seq<char>, key: Seq<char>) -> Option<Seq<char>> {
    match yaml_tokens(content) {
        Some(ts) => match walk(ts, 0, split(key, '/')) {
            Some(i) => scalar_at(ts, i),
            None => None,
        },
        None => None,
    }
}

proof fn lemma_skip_none(ts: Seq<YamlToken>, i: int, pending: int)
    requires
        0 <= i <= ts.len(),
        pending > ts.len() - i,
    ensures
        skip_nodes(ts, i, pending) is None,
    decreases ts.len() - i,
{
    if i < ts.len() {
        lemma_skip_none(ts, i + 1, pending - 1 + child_count(ts[i]));
    }
}

fn child_count_of(t: &YamlToken) -> (c: u128)
    ensures
        c == child_count(*t),
{
    match t {
        YamlToken::Mapping(n) => 2 * (*n as u128),
        YamlToken::Tagged => 1,
        _ => 0,
    }
}

/// The position just after `pending` whole nodes from `start`.
fn skip(ts: &Vec<YamlToken>, start: usize, pending: u128) -> (r: Option<usize>)
    ensures
        match r {
            Some(x) => skip_nodes(ts@, start as int, pending as int) == Some(x as int),
            None => skip_nodes(ts@, start as int, pending as int) is None,
        },
{
    let mut i = start;
    let mut p = pending;
    if p == 0 {
        return Some(start);
    }
    if start > ts.len() || p > (ts.len() - start) as u128 {
        proof {
            if start <= ts.len() {
                lemma_skip_none(ts@, start as int, pending as int);
            }
        }
        return None;
    }
    while p > 0
        invariant
            start <= i <= ts.len(),
            p <= ts.len() - i,
            skip_nodes(ts@, start as int, pending as int) == skip_nodes(ts@, i as int, p as int),
        decreases ts.len() - i,
    {
        let c = child_count_of(&ts[i]);
        let rest = (ts.len() - i - 1) as u128;
        if c > rest || p - 1 > rest - c {
            proof {
                lemma_skip_none(ts@, i as int + 1, p - 1 + c);
            }
            return None;
        }
        p = p - 1 + c;
        i = i + 1;
    }
    Some(i)
}

fn untag_at(ts: &Vec<YamlToken>, start: usize) -> (r: usize)
    ensures
        r == untag(ts@, start as int),
{
    let mut i = start;
    while i < ts.len() && matches!(ts[i], YamlToken::Tagged)
        invariant
            start <= i,
            untag(ts@, start as int) == untag(ts@, i as int),
        decreases ts.len() - i,
    {
        i = i + 1;
    }
    i
}

fn find_key(ts: &Vec<YamlToken>, first: usize, entries: usize, key: &str) -> (r: Option<usize>)
    ensures
        match r {
            Some(x) => map_find(ts@, first as int, entries as int, key@) == Some(x as int),
            None => map_find(ts@, first as int, entries as int, key@) is None,
        },
{
    let mut j = first;
    let mut remaining = entries;
    while remaining > 0
        invariant
            map_find(ts@, first as int, entries as int, key@) == map_find(ts@, j as int, remaining as int, key@),
        decreases remaining,
    {
        let k = match skip(ts, j, 1) {
            Some(k) => k,
            None => return None,
        };
        if k < ts.len() {
            if let YamlToken::Str(s) = &ts[k] {
                if crate::keys::same_text(s.as_str(), key) {
                    return Some(j);
                }
            }
        }
        match skip(ts, j, 2) {
            Some(k) => {
                j = k;
                remaining = remaining - 1;
            },
            None => return None,
        }
    }
    None
}

/// The scalar found in the nodes `ts` by following the mapping keys of
/// `path` from the root.
pub fn lookup(ts: &Vec<YamlToken>, path: &Vec<String>) -> (r: Option<String>)
    ensures
        opt_text(r) == match walk(ts@, 0, path@.map_values(|p: String| p@)) {
            Some(i) => scalar_at(ts@, i),
            None => None,
        },
{
    let ghost pv = path@.map_values(|p: String| p@);
    let mut i: usize = 0;
    let mut k: usize = 0;
    assert(pv.skip(0) =~= pv);
    while k < path.len()
        invariant
            k <= path@.len(),
            pv == path@.map_values(|p: String| p@),
            walk(ts@, 0, pv) == walk(ts@, i as int, pv.skip(k as int)),
        decreases path.len() - k,
    {
        assert(pv.skip(k as int).drop_first() =~= pv.skip(k as int + 1));
        assert(pv.skip(k as int)[0] == path@[k as int]@);
        let u = untag_at(ts, i);
        if u >= ts.len() {
            return None;
        }
        let n = match &ts[u] {
            YamlToken::Mapping(n) => *n,
            _ => return None,
        };
        match find_key(ts, u + 1, n, path[k].as_str()) {
            Some(v) => {
                i = v;
            },
            None => return None,
        }
        k = k + 1;
    }
    assert(pv.skip(k as int) =~= Seq::<Seq<char>>::empty());
    if i >= ts.len() {
        return None;
    }
    match &ts[i] {
        YamlToken::Str(s) => Some(owned(s.as_str())),
        YamlToken::Number(t) => Some(owned(t.as_str())),
        YamlToken::Bool(b) => Some(bool_str(*b)),
        _ => None,
    }
}

/// The scalar at the '/'-separated `key` in the YAML document `content`.
pub fn get_yaml_value(content: &str, key: &str) -> (r: Option<String>)
    ensures
        opt_text(r) == yaml_value(content@, key@),
{
    let path = split_char(key, '/');
    match parse_yaml(content) {
        Some(doc) => lookup(&doc.tokens(), &path),
        None => None,
    }
}

} // verus!
