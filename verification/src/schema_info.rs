//! What a schema file says of itself: its name, version, authors and
//! description, read line by line from the `schema:` block of a
//! `*.schema.yaml` file, and the schema selected in `default.custom.yaml`.

use vstd::prelude::*;

use crate::text::{
    chars_of, string_of, owned, utf8_len, lemma_utf8_len_push, char_width, leading,
    trim, trim_start, skip_leading, trim_window, find_char, index_of, lemma_index_of_bounds,
    CharClass, lines, split_lines, join, join_chars,
};

verus! {

/// Bytes of leading white space of `line` (`len() - trim_start().len()`).
pub open spec fn indent_of(line: Seq<char>) -> nat {
    utf8_len(line.take(leading(line, CharClass::Ws) as int))
}

/// `s` trimmed of white space, then of '"', then of '\''.
pub open spec fn clean(s: Seq<char>) -> Seq<char> {
    trim(trim(trim(s, CharClass::Ws), CharClass::Is('"')), CharClass::Is('\''))
}

/// The second piece of `s` split at `c` (`s.split(c).nth(1)`).
pub open spec fn second_field(s: Seq<char>, c: char) -> Option<Seq<char>> {
    match index_of(s, c) {
        None => None,
        Some(k) => {
            let rest = s.skip(k + 1int);
            match index_of(rest, c) {
                Some(m) => Some(rest.take(m as int)),
                None => Some(rest),
            }
        },
    }
}

/// The placeholder for a field a schema does not give.
pub open spec fn unknown() -> Seq<char> {
    "未知"@
}

/// The list items under an `author:` line: the lines after it that are
/// indented deeper and start with '-', up to the first that is not; each
/// without its dashes and cleaned, empty ones left out.
pub open spec fn author_items(ls: Seq<Seq<char>>, j: int, indent: nat) -> Seq<Seq<char>>
    decreases ls.len() - j,
{
    if j < 0 || j >= ls.len() {
        Seq::empty()
    } else {
        let nt = trim(ls[j], CharClass::Ws);
        if indent_of(ls[j]) <= indent || nt.len() == 0 || nt[0] != '-' {
            Seq::empty()
        } else {
            let name = clean(trim_start(nt, CharClass::Is('-')));
            if name.len() > 0 {
                seq![name] + author_items(ls, j + 1, indent)
            } else {
                author_items(ls, j + 1, indent)
            }
        }
    }
}

/// Whether an inline author value is used as it is.
pub open spec fn inline_author(a: Seq<char>) -> bool {
    a.len() > 0 && a[0] != '-' && a[0] != '['
}

/// The author(s) given at line `i`: an inline value, or the list under it
/// joined by ", ", or the placeholder.
pub open spec fn author_of(ls: Seq<Seq<char>>, i: int) -> Seq<char> {
    let t = trim(ls[i], CharClass::Ws);
    match second_field(t, ':') {
        Some(p) if inline_author(clean(p)) => clean(p),
        _ => {
            let items = author_items(ls, i + 1, indent_of(ls[i]));
            if items.len() == 0 {
                unknown()
            } else {
                join(items, ", "@)
            }
        },
    }
}

/// The lines of a block description after line `j`: every nonblank line,
/// trimmed, up to the first nonblank line indented less than `indent`.
pub open spec fn description_items(ls: Seq<Seq<char>>, j: int, indent: nat) -> Seq<Seq<char>>
    decreases ls.len() - j,
{
    if j < 0 || j >= ls.len() {
        Seq::empty()
    } else {
        let nt = trim(ls[j], CharClass::Ws);
        if indent_of(ls[j]) < indent && nt.len() > 0 {
            Seq::empty()
        } else if nt.len() > 0 {
            seq![nt] + description_items(ls, j + 1, indent)
        } else {
            description_items(ls, j + 1, indent)
        }
    }
}

/// The description given at line `i`: an inline value, or the block after
/// a line that ends with '|' joined by spaces, or nothing.
pub open spec fn description_of(ls: Seq<Seq<char>>, i: int) -> Seq<char> {
    let t = trim(ls[i], CharClass::Ws);
    match second_field(t, ':') {
        Some(p) if trim(p, CharClass::Ws).len() > 0 && trim(p, CharClass::Ws)[0] != '|' => clean(p),
        _ => if t.len() > 0 && t.last() == '|' {
            trim(join(description_items(ls, i + 1, indent_of(ls[i])), " "@), CharClass::Ws)
        } else {
            Seq::empty()
        },
    }
}

/// The lines of `ls`, each as a character sequence.
pub open spec fn line_views(ls: Seq<Vec<char>>) -> Seq<Seq<char>> {
    ls.map_values(|l: Vec<char>| l@)
}

/// Bytes of leading white space of `line`.
pub fn indent_width(line: &[char]) -> (r: u128)
    ensures
        r == indent_of(line@),
{
    let n = skip_leading(line, 0, line.len(), CharClass::Ws);
    assert(line@.subrange(0, line@.len() as int) =~= line@);
    let mut acc: u128 = 0;
    let mut i: usize = 0;
    while i < n
        invariant
            i <= n <= line@.len(),
            acc == utf8_len(line@.take(i as int)),
            acc <= 4 * i,
        decreases n - i,
    {
        proof {
            assert(line@.take(i as int + 1) =~= line@.take(i as int).push(line@[i as int]));
            lemma_utf8_len_push(line@.take(i as int), line@[i as int]);
        }
        acc = acc + char_width(line[i]) as u128;
        i = i + 1;
    }
    acc
}

/// The window of `v[lo..hi]` cleaned: trimmed of white space, then of
/// '"', then of '\''.
pub fn clean_window(v: &[char], lo: usize, hi: usize) -> (r: (usize, usize))
    requires
        lo <= hi <= v@.len(),
    ensures
        r.0 <= r.1 <= v@.len(),
        v@.subrange(r.0 as int, r.1 as int) == clean(v@.subrange(lo as int, hi as int)),
{
    let (a, b) = trim_window(v, lo, hi, CharClass::Ws);
    let (c, d) = trim_window(v, a, b, CharClass::Is('"'));
    trim_window(v, c, d, CharClass::Is('\''))
}

/// The window of the second piece of `v[lo..hi]` split at `c`.
pub fn second_field_window(v: &[char], lo: usize, hi: usize, c: char) -> (r: Option<(usize, usize)>)
    requires
        lo <= hi <= v@.len(),
    ensures
        match r {
            Some((a, b)) => lo <= a <= b <= hi && second_field(v@.subrange(lo as int, hi as int), c)
                == Some(v@.subrange(a as int, b as int)),
            None => second_field(v@.subrange(lo as int, hi as int), c) is None,
        },
{
    let ghost s = v@.subrange(lo as int, hi as int);
    proof {
        lemma_index_of_bounds(s, c);
    }
    match find_char(v, lo, hi, c) {
        None => None,
        Some(k) => {
            let start = lo + k + 1;
            let ghost rest = s.skip(k + 1int);
            assert(rest =~= v@.subrange(start as int, hi as int));
            proof {
                lemma_index_of_bounds(rest, c);
            }
            match find_char(v, start, hi, c) {
                Some(m) => {
                    assert(rest.take(m as int) =~= v@.subrange(start as int, (start + m) as int));
                    Some((start, start + m))
                },
                None => Some((start, hi)),
            }
        },
    }
}

/// The characters of `v[lo..hi]` as a vector.
pub fn window_vec(v: &[char], lo: usize, hi: usize) -> (r: Vec<char>)
    requires
        lo <= hi <= v@.len(),
    ensures
        r@ == v@.subrange(lo as int, hi as int),
{
    let mut r: Vec<char> = Vec::new();
    let mut i = lo;
    while i < hi
        invariant
            lo <= i <= hi <= v@.len(),
            r@ == v@.subrange(lo as int, i as int),
        decreases hi - i,
    {
        r.push(v[i]);
        i = i + 1;
        assert(r@ =~= v@.subrange(lo as int, i as int));
    }
    r
}

/// The authors given at line `start_idx` of `ls`.
pub fn extract_author(ls: &Vec<Vec<char>>, start_idx: usize) -> (r: String)
    requires
        start_idx < ls@.len(),
    ensures
        r@ == author_of(line_views(ls@), start_idx as int),
{
    let ghost lv = line_views(ls@);
    let line = &ls[start_idx];
    assert(line@ == lv[start_idx as int]);
    assert(line@.subrange(0, line@.len() as int) =~= line@);
    let (ta, tb) = trim_window(line.as_slice(), 0, line.len(), CharClass::Ws);
    let ghost t = line@.subrange(ta as int, tb as int);
    if let Some((a, b)) = second_field_window(line.as_slice(), ta, tb, ':') {
        let (ca, cb) = clean_window(line.as_slice(), a, b);
        if ca < cb && line[ca] != '-' && line[ca] != '[' {
            return string_of(vstd::slice::slice_subrange(line.as_slice(), ca, cb));
        }
    }
    let indent = indent_width(line.as_slice());
    let mut items: Vec<Vec<char>> = Vec::new();
    let n = ls.len();
    let mut j = start_idx + 1;
    while j < n
        invariant
            start_idx < j <= ls@.len(),
            n == ls@.len(),
            lv == line_views(ls@),
            indent == indent_of(lv[start_idx as int]),
            author_items(lv, start_idx + 1, indent as nat) == line_views(items@) + author_items(
                lv,
                j as int,
                indent as nat,
            ),
        ensures
            author_items(lv, j as int, indent as nat) == Seq::<Seq<char>>::empty(),
        decreases n - j,
    {
        let next = &ls[j];
        assert(next@ == lv[j as int]);
        assert(next@.subrange(0, next@.len() as int) =~= next@);
        let (na, nb) = trim_window(next.as_slice(), 0, next.len(), CharClass::Ws);
        let ni = indent_width(next.as_slice());
        if ni <= indent || na == nb || next[na] != '-' {
            break;
        }
        let da = skip_leading(next.as_slice(), na, nb, CharClass::Is('-'));
        assert(next@.subrange(da as int, nb as int) =~= trim_start(
            next@.subrange(na as int, nb as int),
            CharClass::Is('-'),
        ));
        let (ca, cb) = clean_window(next.as_slice(), da, nb);
        let ghost prev = items@;
        if ca < cb {
            items.push(window_vec(next.as_slice(), ca, cb));
            assert(line_views(items@) =~= line_views(prev) + seq![
                next@.subrange(ca as int, cb as int),
            ]);
        }
        j = j + 1;
    }
    assert(line_views(items@) =~= author_items(lv, start_idx + 1, indent as nat));
    if items.len() == 0 {
        owned("未知")
    } else {
        let joined = join_chars(&items, ", ");
        string_of(joined.as_slice())
    }
}

/// The description given at line `start_idx` of `ls`.
pub fn extract_description(ls: &Vec<Vec<char>>, start_idx: usize) -> (r: String)
    requires
        start_idx < ls@.len(),
    ensures
        r@ == description_of(line_views(ls@), start_idx as int),
{
    let ghost lv = line_views(ls@);
    let line = &ls[start_idx];
    assert(line@ == lv[start_idx as int]);
    assert(line@.subrange(0, line@.len() as int) =~= line@);
    let (ta, tb) = trim_window(line.as_slice(), 0, line.len(), CharClass::Ws);
    if let Some((a, b)) = second_field_window(line.as_slice(), ta, tb, ':') {
        let (pa, pb) = trim_window(line.as_slice(), a, b, CharClass::Ws);
        if pa < pb && line[pa] != '|' {
            let (ca, cb) = trim_window(line.as_slice(), pa, pb, CharClass::Is('"'));
            let (da, db) = trim_window(line.as_slice(), ca, cb, CharClass::Is('\''));
            return string_of(vstd::slice::slice_subrange(line.as_slice(), da, db));
        }
    }
    if ta < tb && line[tb - 1] == '|' {
        let indent = indent_width(line.as_slice());
        let mut items: Vec<Vec<char>> = Vec::new();
        let n = ls.len();
        let mut j = start_idx + 1;
        while j < n
            invariant
                start_idx < j <= ls@.len(),
                n == ls@.len(),
                lv == line_views(ls@),
                indent == indent_of(lv[start_idx as int]),
                description_items(lv, start_idx + 1, indent as nat) == line_views(items@)
                    + description_items(lv, j as int, indent as nat),
            ensures
                description_items(lv, j as int, indent as nat) == Seq::<Seq<char>>::empty(),
            decreases n - j,
        {
            let next = &ls[j];
            assert(next@ == lv[j as int]);
            assert(next@.subrange(0, next@.len() as int) =~= next@);
            let (na, nb) = trim_window(next.as_slice(), 0, next.len(), CharClass::Ws);
            let ni = indent_width(next.as_slice());
            if ni < indent && na < nb {
                break;
            }
            let ghost prev = items@;
            if na < nb {
                items.push(window_vec(next.as_slice(), na, nb));
                assert(line_views(items@) =~= line_views(prev) + seq![
                    next@.subrange(na as int, nb as int),
                ]);
            }
            j = j + 1;
        }
        assert(line_views(items@) =~= description_items(lv, start_idx + 1, indent as nat));
        let joined = join_chars(&items, " ");
        assert(items@.map_values(|l: Vec<char>| l@) =~= line_views(items@));
        assert(joined@.subrange(0, joined@.len() as int) =~= joined@);
        let (ja, jb) = trim_window(joined.as_slice(), 0, joined.len(), CharClass::Ws);
        string_of(vstd::slice::slice_subrange(joined.as_slice(), ja, jb))
    } else {
        let r = owned("");
        proof {
            reveal_strlit("");
        }
        assert(r@ =~= Seq::<char>::empty());
        r
    }
}

/// What a schema file says of itself.
#[derive(Debug, Clone)]
pub struct SchemaInfo {
    pub schema_id: String,
    pub name: String,
    pub version: String,
    pub author: String,
    pub description: String,
}

/// Name, version, author and description found so far.
pub type Fields = (Seq<char>, Seq<char>, Seq<char>, Seq<char>);

/// The cleaned value after the first ':' of `t`, or `default`.
pub open spec fn field_or(t: Seq<char>, default: Seq<char>) -> Seq<char> {
    match second_field(t, ':') {
        Some(p) => clean(p),
        None => default,
    }
}

/// The fields after reading line `i` (trimmed: `t`) inside the schema block.
pub open spec fn step_field(ls: Seq<Seq<char>>, i: int, t: Seq<char>, id: Seq<char>, acc: Fields) -> Fields {
    if "name:"@.is_prefix_of(t) {
        (field_or(t, id), acc.1, acc.2, acc.3)
    } else if "version:"@.is_prefix_of(t) {
        (acc.0, field_or(t, unknown()), acc.2, acc.3)
    } else if "author:"@.is_prefix_of(t) {
        (acc.0, acc.1, author_of(ls, i), acc.3)
    } else if "description:"@.is_prefix_of(t) {
        (acc.0, acc.1, acc.2, description_of(ls, i))
    } else {
        acc
    }
}

/// The fields after reading lines `i..` of `ls`: a line reading "schema:"
/// opens the block at its indentation; inside the block, the first
/// nonblank line that is not a comment and not indented deeper ends the
/// scan; the lines in between set the fields.
pub open spec fn scan_schema(
    ls: Seq<Seq<char>>,
    i: int,
    id: Seq<char>,
    in_block: bool,
    indent: nat,
    acc: Fields,
) -> Fields
    decreases ls.len() - i,
{
    if i < 0 || i >= ls.len() {
        acc
    } else {
        let line = ls[i];
        let t = trim(line, CharClass::Ws);
        if t == "schema:"@ {
            scan_schema(ls, i + 1, id, true, indent_of(line), acc)
        } else if !in_block {
            scan_schema(ls, i + 1, id, false, indent, acc)
        } else if indent_of(line) <= indent && t.len() > 0 && t[0] != '#' {
            acc
        } else {
            scan_schema(ls, i + 1, id, true, indent, step_field(ls, i, t, id, acc))
        }
    }
}

/// What the schema file `content` of the schema `id` says of itself.
pub open spec fn schema_fields(content: Seq<char>, id: Seq<char>) -> Fields {
    scan_schema(lines(content), 0, id, false, 0, (id, unknown(), unknown(), Seq::empty()))
}

/// Whether `v[lo..hi]` starts with the characters of `p`.
fn window_starts_with(v: &[char], lo: usize, hi: usize, p: &str) -> (b: bool)
    requires
        lo <= hi <= v@.len(),
    ensures
        b == p@.is_prefix_of(v@.subrange(lo as int, hi as int)),
{
    let pv = chars_of(p);
    crate::schema_config::starts_with(vstd::slice::slice_subrange(v, lo, hi), pv.as_slice())
}

/// Reads name, version, author and description from the `schema:` block
/// of the schema file `content`; `schema_id` names the schema.
pub fn extract_schema_info(content: &str, schema_id: &str) -> (r: SchemaInfo)
    ensures
        r.schema_id@ == schema_id@,
        (r.name@, r.version@, r.author@, r.description@) == schema_fields(content@, schema_id@),
{
    let ls = split_lines(content);
    let ghost lv = line_views(ls@);
    assert(lv =~= lines(content@));
    let mut name = owned(schema_id);
    let mut version = owned("未知");
    let mut author = owned("未知");
    let mut description = owned("");
    proof {
        reveal_strlit("");
    }
    let mut in_block = false;
    let mut indent: u128 = 0;
    let n = ls.len();
    let mut i: usize = 0;
    assert(description@ =~= Seq::<char>::empty());
    while i < n
        invariant
            i <= n == ls@.len(),
            lv == line_views(ls@),
            schema_fields(content@, schema_id@) == scan_schema(
                lv,
                i as int,
                schema_id@,
                in_block,
                indent as nat,
                (name@, version@, author@, description@),
            ),
        ensures
            schema_fields(content@, schema_id@) == (name@, version@, author@, description@),
        decreases n - i,
    {
        let line = &ls[i];
        assert(line@ == lv[i as int]);
        assert(line@.subrange(0, line@.len() as int) =~= line@);
        let (ta, tb) = trim_window(line.as_slice(), 0, line.len(), CharClass::Ws);
        let sv = chars_of("schema:");
        if crate::text::chars_equal(line.as_slice(), ta, tb, sv.as_slice()) {
            in_block = true;
            indent = indent_width(line.as_slice());
            i = i + 1;
            continue;
        }
        if in_block {
            let cur = indent_width(line.as_slice());
            if cur <= indent && ta < tb && line[ta] != '#' {
                break;
            }
            if window_starts_with(line.as_slice(), ta, tb, "name:") {
                name = match second_field_window(line.as_slice(), ta, tb, ':') {
                    Some((a, b)) => {
                        let (ca, cb) = clean_window(line.as_slice(), a, b);
                        string_of(vstd::slice::slice_subrange(line.as_slice(), ca, cb))
                    },
                    None => owned(schema_id),
                };
            } else if window_starts_with(line.as_slice(), ta, tb, "version:") {
                version = match second_field_window(line.as_slice(), ta, tb, ':') {
                    Some((a, b)) => {
                        let (ca, cb) = clean_window(line.as_slice(), a, b);
                        string_of(vstd::slice::slice_subrange(line.as_slice(), ca, cb))
                    },
                    None => owned("未知"),
                };
            } else if window_starts_with(line.as_slice(), ta, tb, "author:") {
                author = extract_author(&ls, i);
            } else if window_starts_with(line.as_slice(), ta, tb, "description:") {
                description = extract_description(&ls, i);
            }
        }
        i = i + 1;
    }
    SchemaInfo { schema_id: owned(schema_id), name, version, author, description }
}

/// Position of the first occurrence of `pat` in `s`.
pub open spec fn find_str(s: Seq<char>, pat: Seq<char>) -> Option<nat>
    decreases s.len(),
{
    if pat.is_prefix_of(s) {
        Some(0)
    } else if s.len() == 0 {
        None
    } else {
        match find_str(s.drop_first(), pat) {
            Some(i) => Some(i + 1),
            None => None,
        }
    }
}

pub(crate) proof fn lemma_find_str_found(s: Seq<char>, pat: Seq<char>, k: int)
    requires
        0 <= k <= s.len(),
        pat.is_prefix_of(s.skip(k)),
        forall|j: int| 0 <= j < k ==> !pat.is_prefix_of(#[trigger] s.skip(j)),
    ensures
        find_str(s, pat) == Some(k as nat),
    decreases k,
{
    assert(s.skip(0) =~= s);
    if k > 0 {
        assert forall|j: int| 0 <= j < k - 1 implies !pat.is_prefix_of(#[trigger] s.drop_first().skip(j)) by {
            assert(s.drop_first().skip(j) =~= s.skip(j + 1));
        }
        assert(s.drop_first().skip(k - 1) =~= s.skip(k));
        lemma_find_str_found(s.drop_first(), pat, k - 1);
    }
}

pub(crate) proof fn lemma_find_str_none(s: Seq<char>, pat: Seq<char>)
    requires
        forall|j: int| 0 <= j <= s.len() ==> !pat.is_prefix_of(#[trigger] s.skip(j)),
    ensures
        find_str(s, pat) is None,
    decreases s.len(),
{
    assert(s.skip(0) =~= s);
    if s.len() > 0 {
        assert forall|j: int| 0 <= j <= s.len() - 1 implies !pat.is_prefix_of(#[trigger] s.drop_first().skip(j)) by {
            assert(s.drop_first().skip(j) =~= s.skip(j + 1));
        }
        lemma_find_str_none(s.drop_first(), pat);
    }
}

pub(crate) proof fn lemma_find_str_bound(s: Seq<char>, pat: Seq<char>)
    ensures
        find_str(s, pat) matches Some(k) ==> k <= s.len() && pat.is_prefix_of(s.skip(k as int)),
    decreases s.len(),
{
    assert(s.skip(0) =~= s);
    if !pat.is_prefix_of(s) && s.len() > 0 {
        lemma_find_str_bound(s.drop_first(), pat);
        if let Some(k) = find_str(s.drop_first(), pat) {
            assert(s.drop_first().skip(k as int) =~= s.skip(k + 1int));
        }
    }
}

/// Position of the first occurrence of `pat` in `v[lo..hi]`, relative to `lo`.
pub fn find_sub(v: &[char], lo: usize, hi: usize, pat: &[char]) -> (r: Option<usize>)
    requires
        lo <= hi <= v@.len(),
    ensures
        match r {
            Some(k) => lo + k <= hi && find_str(v@.subrange(lo as int, hi as int), pat@) == Some(
                k as nat,
            ),
            None => find_str(v@.subrange(lo as int, hi as int), pat@) is None,
        },
{
    let ghost s = v@.subrange(lo as int, hi as int);
    let mut i = lo;
    loop
        invariant
            lo <= i <= hi <= v@.len(),
            s == v@.subrange(lo as int, hi as int),
            forall|j: int| 0 <= j < i - lo ==> !pat@.is_prefix_of(#[trigger] s.skip(j)),
        decreases hi - i,
    {
        assert(s.skip(i - lo) =~= v@.subrange(i as int, hi as int));
        if crate::schema_config::starts_with(vstd::slice::slice_subrange(v, i, hi), pat) {
            proof {
                lemma_find_str_found(s, pat@, (i - lo) as int);
            }
            return Some(i - lo);
        }
        if i == hi {
            proof {
                lemma_find_str_none(s, pat@);
            }
            return None;
        }
        i = i + 1;
    }
}

/// The piece of `s` between the first and the second occurrence of `pat`
/// (`s.split(pat).nth(1)`).
pub open spec fn after_first(s: Seq<char>, pat: Seq<char>) -> Option<Seq<char>> {
    match find_str(s, pat) {
        None => None,
        Some(k) => {
            let rest = s.skip((k + pat.len()) as int);
            match find_str(rest, pat) {
                Some(m) => Some(rest.take(m as int)),
                None => Some(rest),
            }
        },
    }
}

/// The first schema named on a line holding "schema:": the cleaned text
/// after "schema:", when it is not empty.
pub open spec fn selected_in(ls: Seq<Seq<char>>) -> Option<Seq<char>>
    decreases ls.len(),
{
    if ls.len() == 0 {
        None
    } else {
        match after_first(ls[0], "schema:"@) {
            Some(p) if clean(p).len() > 0 => Some(clean(p)),
            _ => selected_in(ls.drop_first()),
        }
    }
}

/// The first schema listed in the text of `default.custom.yaml`.
pub fn extract_selected_schema(content: &str) -> (r: Option<String>)
    ensures
        opt_seq(r) == selected_in(lines(content@)),
{
    let ls = split_lines(content);
    let ghost lv = line_views(ls@);
    assert(lv =~= lines(content@));
    let pat = chars_of("schema:");
    let n = ls.len();
    let mut i: usize = 0;
    assert(lv.skip(0) =~= lv);
    while i < n
        invariant
            i <= n == ls@.len(),
            lv == line_views(ls@),
            lv == lines(content@),
            pat@ == "schema:"@,
            selected_in(lv) == selected_in(lv.skip(i as int)),
        decreases n - i,
    {
        let line = &ls[i];
        let ghost rest = lv.skip(i as int);
        assert(rest[0] == line@);
        assert(rest.drop_first() =~= lv.skip(i + 1));
        assert(line@.subrange(0, line@.len() as int) =~= line@);
        if let Some(k) = find_sub(line.as_slice(), 0, line.len(), pat.as_slice()) {
            proof {
                lemma_find_str_bound(line@, pat@);
            }
            let start = k + pat.len();
            assert(line@.skip(start as int) =~= line@.subrange(start as int, line@.len() as int));
            let end = match find_sub(line.as_slice(), start, line.len(), pat.as_slice()) {
                Some(m) => {
                    assert(line@.skip(start as int).take(m as int) =~= line@.subrange(
                        start as int,
                        (start + m) as int,
                    ));
                    start + m
                },
                None => {
                    assert(line@.skip(start as int) =~= line@.subrange(start as int, line@.len() as int));
                    line.len()
                },
            };
            assert(after_first(line@, pat@) == Some(line@.subrange(start as int, end as int)));
            let (ca, cb) = clean_window(line.as_slice(), start, end);
            if ca < cb {
                let ghost p = line@.subrange(start as int, end as int);
                assert(selected_in(rest) == Some(clean(p)));
                return Some(string_of(vstd::slice::slice_subrange(line.as_slice(), ca, cb)));
            }
        }
        i = i + 1;
    }
    None
}

/// The view of an optional string.
pub open spec fn opt_seq(o: Option<String>) -> Option<Seq<char>> {
    match o {
        Some(s) => Some(s@),
        None => None,
    }
}

} // verus!
