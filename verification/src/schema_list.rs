//! The list of installed schemas: schema files found in the user's, the
//! input method's and the shared Rime directory, the first of each id
//! winning, sorted by name; and the schema list written to
//! `default.custom.yaml`.

use vstd::prelude::*;

use crate::text::{
    chars_of, string_of, owned, lines, join, join_chars, strip_cr, is_ws, leading, trailing,
    trim, trim_start, CharClass,
};
use crate::schema_info::{
    SchemaInfo, schema_fields, extract_schema_info, extract_selected_schema, selected_in, opt_seq,
    clean, find_str, after_first,
};
use crate::rime_config::FileContent;

verus! {

/// A `*.schema.yaml` candidate found in a directory: its file name and its
/// text, `None` when it could not be read.
pub struct SchemaFile {
    pub file_name: String,
    pub content: Option<String>,
}

/// A schema's id, name, version, author and description.
pub type InfoView = (Seq<char>, Seq<char>, Seq<char>, Seq<char>, Seq<char>);

impl View for SchemaInfo {
    type V = InfoView;

    open spec fn view(&self) -> InfoView {
        (self.schema_id@, self.name@, self.version@, self.author@, self.description@)
    }
}

/// `s` with every occurrence of `pat` removed, matching from the left
/// (`str::replace(pat, "")`).
pub open spec fn remove_all(s: Seq<char>, pat: Seq<char>) -> Seq<char>
    decreases s.len(),
{
    if pat.len() > 0 && pat.is_prefix_of(s) {
        remove_all(s.skip(pat.len() as int), pat)
    } else if s.len() == 0 {
        s
    } else {
        seq![s[0]] + remove_all(s.drop_first(), pat)
    }
}

/// The suffix of schema files.
pub open spec fn schema_suffix() -> Seq<char> {
    ".schema.yaml"@
}

/// The schema id named by a file name ending in ".schema.yaml".
pub open spec fn schema_id_of(name: Seq<char>) -> Option<Seq<char>> {
    if schema_suffix().is_suffix_of(name) {
        Some(remove_all(name, schema_suffix()))
    } else {
        None
    }
}

/// What the schema file `content` of schema `id` says of itself.
pub open spec fn info_of(id: Seq<char>, content: Seq<char>) -> InfoView {
    let f = schema_fields(content, id);
    (id, f.0, f.1, f.2, f.3)
}

/// The schemas of one directory's files, in the order given, with the ids
/// seen so far: a readable schema file is taken unless `check` is set and
/// its id was seen; when `record` is set, a taken id is marked seen.
pub open spec fn gather(
    es: Seq<SchemaFile>,
    seen: Seq<Seq<char>>,
    check: bool,
    record: bool,
) -> (Seq<InfoView>, Seq<Seq<char>>)
    decreases es.len(),
{
    if es.len() == 0 {
        (Seq::empty(), seen)
    } else {
        let e = es[0];
        match (schema_id_of(e.file_name@), e.content) {
            (Some(id), Some(c)) if !(check && seen.contains(id)) => {
                let seen2 = if record {
                    seen.push(id)
                } else {
                    seen
                };
                let rest = gather(es.drop_first(), seen2, check, record);
                (seq![info_of(id, c@)] + rest.0, rest.1)
            },
            _ => gather(es.drop_first(), seen, check, record),
        }
    }
}

/// Whether `a` sorts before `b`: lexicographic order by code point, which
/// is the byte order of their UTF-8 encodings (`String`'s order).
pub open spec fn text_lt(a: Seq<char>, b: Seq<char>) -> bool
    decreases a.len(),
{
    if a.len() == 0 {
        b.len() > 0
    } else if b.len() == 0 {
        false
    } else if a[0] != b[0] {
        (a[0] as int) < (b[0] as int)
    } else {
        text_lt(a.drop_first(), b.drop_first())
    }
}

/// `x` inserted into `sorted` after every entry whose name is not greater.
pub open spec fn insert_by_name(sorted: Seq<InfoView>, x: InfoView) -> Seq<InfoView>
    decreases sorted.len(),
{
    if sorted.len() == 0 {
        seq![x]
    } else if !text_lt(x.1, sorted.last().1) {
        sorted.push(x)
    } else {
        insert_by_name(sorted.drop_last(), x).push(sorted.last())
    }
}

/// `s` sorted by name, entries of equal names in their order in `s`
/// (a stable sort).
pub open spec fn sort_by_name(s: Seq<InfoView>) -> Seq<InfoView>
    decreases s.len(),
{
    if s.len() == 0 {
        s
    } else {
        insert_by_name(sort_by_name(s.drop_last()), s.last())
    }
}

/// The schema list from the user's, the input method's and the shared
/// directory: all of the user's, then the others' whose id was not taken
/// by the user's or the input method's directory, sorted by name.
pub open spec fn schema_listing(
    user: Seq<SchemaFile>,
    xime: Seq<SchemaFile>,
    shared: Seq<SchemaFile>,
) -> Seq<InfoView> {
    let a = gather(user, Seq::empty(), false, true);
    let b = gather(xime, a.1, true, true);
    let c = gather(shared, b.1, true, false);
    sort_by_name(a.0 + b.0 + c.0)
}

proof fn lemma_text_lt_irreflexive(a: Seq<char>)
    ensures
        !text_lt(a, a),
    decreases a.len(),
{
    if a.len() > 0 {
        lemma_text_lt_irreflexive(a.drop_first());
    }
}

proof fn lemma_text_lt_transitive(a: Seq<char>, b: Seq<char>, c: Seq<char>)
    requires
        text_lt(a, b),
        text_lt(b, c),
    ensures
        text_lt(a, c),
    decreases a.len(),
{
    if a.len() > 0 && b.len() > 0 && c.len() > 0 && a[0] == b[0] && b[0] == c[0] {
        lemma_text_lt_transitive(a.drop_first(), b.drop_first(), c.drop_first());
    }
}

proof fn lemma_text_lt_total(a: Seq<char>, b: Seq<char>)
    ensures
        text_lt(a, b) || text_lt(b, a) || a == b,
    decreases a.len(),
{
    if a.len() > 0 && b.len() > 0 {
        if a[0] == b[0] {
            lemma_text_lt_total(a.drop_first(), b.drop_first());
            if a.drop_first() == b.drop_first() {
                assert(a =~= seq![a[0]] + a.drop_first());
                assert(b =~= seq![b[0]] + b.drop_first());
            }
        } else {
            assert((a[0] as int) != (b[0] as int));
        }
    } else if a.len() == 0 && b.len() == 0 {
        assert(a =~= b);
    }
}

/// Whether `s` is ordered by name.
pub open spec fn sorted_by_name(s: Seq<InfoView>) -> bool {
    forall|i: int, j: int| 0 <= i < j < s.len() ==> !text_lt(#[trigger] s[j].1, #[trigger] s[i].1)
}

proof fn lemma_insert_sorted(s: Seq<InfoView>, x: InfoView)
    requires
        sorted_by_name(s),
    ensures
        sorted_by_name(insert_by_name(s, x)),
        insert_by_name(s, x).to_multiset() == s.to_multiset().insert(x),
        insert_by_name(s, x).len() == s.len() + 1,
        forall|k: int|
            0 <= k < insert_by_name(s, x).len() ==> #[trigger] insert_by_name(s, x)[k] == x
                || s.contains(insert_by_name(s, x)[k]),
    decreases s.len(),
{
    broadcast use vstd::seq_lib::group_to_multiset_ensures;

    if s.len() == 0 {
        assert(seq![x] =~= Seq::<InfoView>::empty().push(x));
    } else if !text_lt(x.1, s.last().1) {
        let r = s.push(x);
        assert forall|i: int, j: int| 0 <= i < j < r.len() implies !text_lt(
            #[trigger] r[j].1,
            #[trigger] r[i].1,
        ) by {
            if j == s.len() && i < s.len() - 1 {
                if text_lt(x.1, s[i].1) {
                    lemma_text_lt_total(s.last().1, s[i].1);
                    if text_lt(s.last().1, s[i].1) {
                    } else if s.last().1 == s[i].1 {
                    } else {
                        lemma_text_lt_transitive(x.1, s[i].1, s.last().1);
                    }
                }
            }
        }
        assert forall|k: int| 0 <= k < r.len() implies #[trigger] r[k] == x || s.contains(r[k]) by {
            if k < s.len() {
                assert(s[k] == r[k]);
            }
        }
    } else {
        let t = s.drop_last();
        assert forall|i: int, j: int| 0 <= i < j < t.len() implies !text_lt(
            #[trigger] t[j].1,
            #[trigger] t[i].1,
        ) by {
            assert(t[j] == s[j] && t[i] == s[i]);
        }
        lemma_insert_sorted(t, x);
        let u = insert_by_name(t, x);
        let r = u.push(s.last());
        assert(s =~= t.push(s.last()));
        assert forall|i: int, j: int| 0 <= i < j < r.len() implies !text_lt(
            #[trigger] r[j].1,
            #[trigger] r[i].1,
        ) by {
            if j == u.len() {
                assert(r[i] == u[i]);
                if u[i] == x {
                    lemma_text_lt_total(x.1, s.last().1);
                    if text_lt(s.last().1, x.1) {
                        lemma_text_lt_transitive(s.last().1, x.1, s.last().1);
                        lemma_text_lt_irreflexive(s.last().1);
                    }
                } else {
                    assert(t.contains(u[i]));
                    let m = choose|m: int| 0 <= m < t.len() && t[m] == u[i];
                    assert(s[m] == t[m]);
                    assert(!text_lt(s[s.len() - 1].1, s[m].1));
                }
            } else {
                assert(r[i] == u[i] && r[j] == u[j]);
            }
        }
        assert forall|k: int| 0 <= k < r.len() implies #[trigger] r[k] == x || s.contains(r[k]) by {
            if k < u.len() {
                assert(r[k] == u[k]);
                if u[k] != x {
                    let m = choose|m: int| 0 <= m < t.len() && t[m] == u[k];
                    assert(s[m] == t[m]);
                }
            } else {
                assert(s[s.len() - 1] == r[k]);
            }
        }
        assert(r.to_multiset() =~= s.to_multiset().insert(x));
    }
}

/// Sorting by name gives an ordered list of the same entries.
pub proof fn lemma_sort_by_name(s: Seq<InfoView>)
    ensures
        sorted_by_name(sort_by_name(s)),
        sort_by_name(s).to_multiset() == s.to_multiset(),
        sort_by_name(s).len() == s.len(),
    decreases s.len(),
{
    broadcast use vstd::seq_lib::group_to_multiset_ensures;

    if s.len() > 0 {
        lemma_sort_by_name(s.drop_last());
        lemma_insert_sorted(sort_by_name(s.drop_last()), s.last());
        assert(s =~= s.drop_last().push(s.last()));
    }
}

/// The listing is ordered by name and holds exactly the schemas gathered
/// from the three directories.
pub proof fn lemma_listing_sorted(user: Seq<SchemaFile>, xime: Seq<SchemaFile>, shared: Seq<SchemaFile>)
    ensures
        sorted_by_name(schema_listing(user, xime, shared)),
        ({
            let a = gather(user, Seq::empty(), false, true);
            let b = gather(xime, a.1, true, true);
            let c = gather(shared, b.1, true, false);
            schema_listing(user, xime, shared).to_multiset() == (a.0 + b.0 + c.0).to_multiset()
        }),
{
    let a = gather(user, Seq::empty(), false, true);
    let b = gather(xime, a.1, true, true);
    let c = gather(shared, b.1, true, false);
    lemma_sort_by_name(a.0 + b.0 + c.0);
}

/// Whether `a` sorts before `b` (`String`'s order).
pub fn name_lt(a: &str, b: &str) -> (r: bool)
    ensures
        r == text_lt(a@, b@),
{
    let av = chars_of(a);
    let bv = chars_of(b);
    let mut i: usize = 0;
    assert(av@.skip(0) =~= av@);
    assert(bv@.skip(0) =~= bv@);
    loop
        invariant
            i <= av@.len(),
            i <= bv@.len(),
            av@ == a@,
            bv@ == b@,
            text_lt(a@, b@) == text_lt(av@.skip(i as int), bv@.skip(i as int)),
        decreases av.len() - i,
    {
        if i == av.len() {
            return i < bv.len();
        }
        if i == bv.len() {
            return false;
        }
        if av[i] != bv[i] {
            return av[i] < bv[i];
        }
        assert(av@.skip(i as int).drop_first() =~= av@.skip(i + 1));
        assert(bv@.skip(i as int).drop_first() =~= bv@.skip(i + 1));
        i = i + 1;
    }
}

/// `v` with every occurrence of `pat` removed, matching from the left.
pub fn remove_all_chars(v: &[char], pat: &[char]) -> (r: Vec<char>)
    ensures
        r@ == remove_all(v@, pat@),
{
    let mut out: Vec<char> = Vec::new();
    let mut i: usize = 0;
    assert(v@.skip(0) =~= v@);
    loop
        invariant
            i <= v@.len(),
            remove_all(v@, pat@) == out@ + remove_all(v@.skip(i as int), pat@),
        decreases v.len() - i,
    {
        let rest = vstd::slice::slice_subrange(v, i, v.len());
        assert(rest@ =~= v@.skip(i as int));
        if pat.len() > 0 && crate::schema_config::starts_with(rest, pat) {
            assert(v@.skip(i as int).skip(pat@.len() as int) =~= v@.skip(i + pat@.len()));
            i = i + pat.len();
        } else if i == v.len() {
            assert(out@ + remove_all(v@.skip(i as int), pat@) =~= out@);
            return out;
        } else {
            let ghost prev = out@;
            out.push(v[i]);
            assert(v@.skip(i as int).drop_first() =~= v@.skip(i + 1));
            assert(out@ + remove_all(v@.skip(i + 1), pat@) =~= prev + (seq![v@[i as int]]
                + remove_all(v@.skip(i + 1), pat@)));
            i = i + 1;
        }
    }
}

/// The schema id named by `file_name`, when it ends in ".schema.yaml": the
/// name with every ".schema.yaml" removed.
pub fn schema_id_from_file_name(file_name: &str) -> (r: Option<String>)
    ensures
        opt_seq(r) == schema_id_of(file_name@),
{
    let v = chars_of(file_name);
    let suffix = chars_of(".schema.yaml");
    if suffix.len() > v.len() {
        return None;
    }
    if !crate::text::chars_equal(v.as_slice(), v.len() - suffix.len(), v.len(), suffix.as_slice()) {
        return None;
    }
    let id = remove_all_chars(v.as_slice(), suffix.as_slice());
    Some(string_of(id.as_slice()))
}

/// The views of a list of schema infos.
pub open spec fn info_views(s: Seq<SchemaInfo>) -> Seq<InfoView> {
    s.map_values(|x: SchemaInfo| x@)
}

/// The views of a list of ids.
pub open spec fn id_views(s: Seq<Vec<char>>) -> Seq<Seq<char>> {
    s.map_values(|x: Vec<char>| x@)
}

fn seen_contains(seen: &Vec<Vec<char>>, id: &Vec<char>) -> (r: bool)
    ensures
        r == id_views(seen@).contains(id@),
{
    let mut i: usize = 0;
    while i < seen.len()
        invariant
            i <= seen@.len(),
            forall|j: int| 0 <= j < i ==> seen@[j]@ != id@,
        decreases seen.len() - i,
    {
        let s = &seen[i];
        assert(s@.subrange(0, s@.len() as int) =~= s@);
        if crate::text::chars_equal(s.as_slice(), 0, s.len(), id.as_slice()) {
            assert(id_views(seen@)[i as int] == id@);
            return true;
        }
        i = i + 1;
    }
    assert forall|j: int| 0 <= j < id_views(seen@).len() implies id_views(seen@)[j] != id@ by {
        assert(id_views(seen@)[j] == seen@[j]@);
    }
    false
}

/// Adds the schemas of one directory's files to `out`, as `gather` says.
fn gather_into(
    es: &Vec<SchemaFile>,
    seen: &mut Vec<Vec<char>>,
    check: bool,
    record: bool,
    out: &mut Vec<SchemaInfo>,
)
    ensures
        info_views(final(out)@) == info_views(old(out)@) + gather(es@, id_views(old(seen)@), check, record).0,
        id_views(final(seen)@) == gather(es@, id_views(old(seen)@), check, record).1,
{
    let ghost g = gather(es@, id_views(seen@), check, record);
    let ghost out0 = info_views(out@);
    let mut i: usize = 0;
    assert(es@.skip(0) =~= es@);
    assert(out0 + g.0 =~= info_views(out@) + gather(es@.skip(0), id_views(seen@), check, record).0);
    while i < es.len()
        invariant
            i <= es@.len(),
            g == gather(es@, id_views(old(seen)@), check, record),
            out0 == info_views(old(out)@),
            out0 + g.0 == info_views(out@) + gather(es@.skip(i as int), id_views(seen@), check, record).0,
            g.1 == gather(es@.skip(i as int), id_views(seen@), check, record).1,
        decreases es.len() - i,
    {
        let e = &es[i];
        let ghost rest = es@.skip(i as int);
        assert(rest[0] == *e);
        assert(rest.drop_first() =~= es@.skip(i + 1));
        let ghost prev_out = info_views(out@);
        match schema_id_from_file_name(e.file_name.as_str()) {
            Some(id) => match &e.content {
                Some(c) => {
                    let idv = chars_of(id.as_str());
                    let dup = check && seen_contains(seen, &idv);
                    if !dup {
                        if record {
                            let ghost before = seen@;
                            seen.push(idv);
                            assert(id_views(seen@) =~= id_views(before).push(id@));
                        }
                        let info = extract_schema_info(c.as_str(), id.as_str());
                        out.push(info);
                        assert(info_views(out@) =~= prev_out.push(info_of(id@, c@)));
                    }
                },
                None => {},
            },
            None => {},
        }
        i = i + 1;
    }
    assert(info_views(out@) + gather(es@.skip(i as int), id_views(seen@), check, record).0 =~= info_views(out@));
}

proof fn lemma_insert_at(s: Seq<InfoView>, x: InfoView, pos: int)
    requires
        0 <= pos <= s.len(),
        forall|k: int| pos <= k < s.len() ==> text_lt(x.1, #[trigger] s[k].1),
        pos == 0 || !text_lt(x.1, s[pos - 1].1),
    ensures
        insert_by_name(s, x) == s.insert(pos, x),
    decreases s.len(),
{
    if s.len() == 0 {
        assert(s.insert(pos, x) =~= seq![x]);
    } else if pos == s.len() {
        assert(s.insert(pos, x) =~= s.push(x));
    } else {
        let t = s.drop_last();
        assert(text_lt(x.1, s[s.len() - 1].1));
        assert forall|k: int| pos <= k < t.len() implies text_lt(x.1, #[trigger] t[k].1) by {
            assert(t[k] == s[k]);
        }
        if pos > 0 {
            assert(t[pos - 1] == s[pos - 1]);
        }
        lemma_insert_at(t, x, pos);
        assert(t.insert(pos, x).push(s.last()) =~= s.insert(pos, x));
    }
}

/// `v` sorted by name, stably.
pub fn sort_infos(v: Vec<SchemaInfo>) -> (r: Vec<SchemaInfo>)
    ensures
        info_views(r@) == sort_by_name(info_views(v@)),
{
    let ghost orig = info_views(v@);
    let mut v = v;
    let mut out: Vec<SchemaInfo> = Vec::new();
    assert(orig.take(0) =~= Seq::<InfoView>::empty());
    assert(info_views(v@) =~= orig.skip(0));
    while v.len() > 0
        invariant
            info_views(v@).len() == v@.len(),
            v@.len() <= orig.len(),
            info_views(v@) == orig.skip(orig.len() - v@.len()),
            info_views(out@) == sort_by_name(orig.take(orig.len() - v@.len())),
        decreases v.len(),
    {
        let ghost k = orig.len() - v@.len();
        let ghost vb = v@;
        assert(info_views(vb)[0] == vb[0]@);
        assert(orig.skip(k)[0] == orig[k]);
        let x = v.remove(0);
        assert(x@ == orig[k]);
        assert forall|j: int| 0 <= j < info_views(v@).len() implies info_views(v@)[j] == orig.skip(
            k + 1,
        )[j] by {
            assert(v@[j] == vb[j + 1]);
            assert(info_views(vb)[j + 1] == orig.skip(k)[j + 1]);
        }
        assert(info_views(v@) =~= orig.skip(k + 1));
        let ghost sorted = info_views(out@);
        let mut pos = out.len();
        while pos > 0 && name_lt(x.name.as_str(), out[pos - 1].name.as_str())
            invariant
                pos <= out@.len(),
                sorted == info_views(out@),
                forall|m: int| pos <= m < sorted.len() ==> text_lt(x@.1, #[trigger] sorted[m].1),
            decreases pos,
        {
            pos = pos - 1;
        }
        proof {
            lemma_insert_at(sorted, x@, pos as int);
            assert(orig.take(k + 1).drop_last() =~= orig.take(k));
        }
        out.insert(pos, x);
        assert(info_views(out@) =~= sorted.insert(pos as int, orig[k]));
    }
    assert(orig.take(orig.len() as int) =~= orig);
    out
}

/// Finds the installed schemas, one per id.
pub struct SchemaManager {
    /// The user's Rime data directory.
    pub user_dir: String,
}

/// What deploying Rime's configuration gave.
pub enum DeployResult {
    Success,
    Failure,
}

/// The outcome of a full deployment: `Ok` when it succeeded, else the
/// error "Deploy failed".
pub fn deploy_all(result: DeployResult) -> (r: Result<(), String>)
    ensures
        (result is Success) ==> r is Ok,
        (result is Failure) ==> (r matches Err(e) && e@ == "Deploy failed"@),
{
    match result {
        DeployResult::Success => Ok(()),
        DeployResult::Failure => Err(owned("Deploy failed")),
    }
}

/// The head of a `default.custom.yaml` written with a schema list.
pub open spec fn schema_list_head() -> Seq<char> {
    "customization:\n  distribution_code_name: Xime\n  distribution_version: 1.0\n\npatch:\n  schema_list:\n"@
}

/// The list items that select `ids`, one line each.
pub open spec fn schema_items(ids: Seq<Seq<char>>) -> Seq<Seq<char>> {
    Seq::new(ids.len(), |j: int| "    - schema: "@ + ids[j])
}

/// The `default.custom.yaml` that selects `ids`, in order.
pub open spec fn schema_list_text(ids: Seq<Seq<char>>) -> Seq<char> {
    schema_list_head() + join(schema_items(ids), "\n"@) + "\n"@
}

impl SchemaManager {
    /// A manager for the schemas of `user_dir`.
    pub fn new(user_dir: &str) -> (r: Result<Self, String>)
        ensures
            r matches Ok(m) && m.user_dir@ == user_dir@,
    {
        Ok(SchemaManager { user_dir: owned(user_dir) })
    }

    /// The installed schemas: every readable schema file of the user's
    /// directory, then those of the input method's and of the shared
    /// directory whose id was not seen before, sorted by name.
    pub fn get_schema_list(
        &self,
        user: &Vec<SchemaFile>,
        xime: &Vec<SchemaFile>,
        shared: &Vec<SchemaFile>,
    ) -> (r: Vec<SchemaInfo>)
        ensures
            info_views(r@) == schema_listing(user@, xime@, shared@),
    {
        let mut seen: Vec<Vec<char>> = Vec::new();
        let mut found: Vec<SchemaInfo> = Vec::new();
        assert(id_views(seen@) =~= Seq::<Seq<char>>::empty());
        assert(info_views(found@) =~= Seq::<InfoView>::empty());
        gather_into(user, &mut seen, false, true, &mut found);
        gather_into(xime, &mut seen, true, true, &mut found);
        gather_into(shared, &mut seen, true, false, &mut found);
        proof {
            let a = gather(user@, Seq::empty(), false, true);
            let b = gather(xime@, a.1, true, true);
            let c = gather(shared@, b.1, true, false);
            assert(info_views(found@) =~= a.0 + b.0 + c.0);
        }
        sort_infos(found)
    }

    /// The schema selected in `default.custom.yaml`, given its content.
    pub fn get_selected_schema(&self, default_custom: &FileContent) -> (r: Option<String>)
        ensures
            opt_seq(r) == (match default_custom {
                FileContent::Text(c) => selected_in(lines(c@)),
                _ => None,
            }),
    {
        match default_custom {
            FileContent::Text(c) => extract_selected_schema(c.as_str()),
            _ => None,
        }
    }

    /// The text of `default.custom.yaml` that selects `schema_ids`, in order.
    pub fn set_schema_list(&self, schema_ids: &Vec<String>) -> (r: String)
        ensures
            r@ == schema_list_text(schema_ids@.map_values(|id: String| id@)),
    {
        let mut items: Vec<Vec<char>> = Vec::new();
        let mut i: usize = 0;
        let ghost ids = schema_ids@.map_values(|id: String| id@);
        while i < schema_ids.len()
            invariant
                i <= schema_ids@.len(),
                ids == schema_ids@.map_values(|id: String| id@),
                items@.len() == i,
                forall|j: int| 0 <= j < i ==> (#[trigger] items@[j])@ == "    - schema: "@ + ids[j],
            decreases schema_ids.len() - i,
        {
            let line = crate::text::concat("    - schema: ", schema_ids[i].as_str());
            items.push(chars_of(line.as_str()));
            i = i + 1;
        }
        assert(items@.map_values(|l: Vec<char>| l@) =~= schema_items(ids));
        let body = join_chars(&items, "\n");
        let mut text = chars_of("customization:\n  distribution_code_name: Xime\n  distribution_version: 1.0\n\npatch:\n  schema_list:\n");
        let ghost head = text@;
        let mut j: usize = 0;
        while j < body.len()
            invariant
                j <= body@.len(),
                text@ == head + body@.take(j as int),
            decreases body.len() - j,
        {
            text.push(body[j]);
            j = j + 1;
            assert(text@ =~= head + body@.take(j as int));
        }
        assert(body@.take(j as int) =~= body@);
        let ghost joined = text@;
        text.push('\n');
        proof {
            crate::text::reveal_newline();
            assert(text@ =~= joined + "\n"@);
        }
        string_of(text.as_slice())
    }

    /// Settings are written as they are set; nothing is left to save.
    pub fn save(&self) -> (r: Result<(), String>)
        ensures
            r is Ok,
    {
        Ok(())
    }
}

} // verus!

verus! {

/// No character of `s` is the `i`-th of `pat`, so `pat` is nowhere in `s`.
proof fn lemma_find_str_absent(s: Seq<char>, pat: Seq<char>, i: int)
    requires
        0 <= i < pat.len(),
        forall|k: int| 0 <= k < s.len() ==> s[k] != pat[i],
    ensures
        find_str(s, pat) is None,
{
    assert forall|j: int| 0 <= j <= s.len() implies !pat.is_prefix_of(#[trigger] s.skip(j)) by {
        if pat.is_prefix_of(s.skip(j)) {
            assert(s.skip(j)[i] == pat[i]);
            assert(s[j + i] == pat[i]);
        }
    }
    crate::schema_info::lemma_find_str_none(s, pat);
}

/// A line that names no schema is passed over.
proof fn lemma_selected_skip(x: Seq<char>, r: Seq<Seq<char>>)
    requires
        find_str(x, "schema:"@) is None,
    ensures
        selected_in(seq![x] + r) == selected_in(r),
{
    assert((seq![x] + r)[0] == x);
    assert((seq![x] + r).drop_first() =~= r);
}

/// A leading space does not change what `clean` keeps.
proof fn lemma_clean_space(s: Seq<char>)
    ensures
        clean(seq![' '] + s) == clean(s),
{
    let t = seq![' '] + s;
    assert(t.drop_first() =~= s);
    assert(is_ws(' '));
    crate::text::lemma_leading_le(s, CharClass::Ws);
    let n = leading(s, CharClass::Ws);
    assert(leading(t, CharClass::Ws) == 1 + n);
    assert(t.skip(1 + n as int) =~= s.skip(n as int));
    assert(trim_start(t, CharClass::Ws) =~= trim_start(s, CharClass::Ws));
}

/// What `clean` leaves alone has no white space at its end.
proof fn lemma_clean_fixed(s: Seq<char>)
    requires
        clean(s) == s,
        s.len() > 0,
    ensures
        !is_ws(s.last()),
{
    let a = trim_start(s, CharClass::Ws);
    crate::text::lemma_leading_le(s, CharClass::Ws);
    crate::text::lemma_trailing_le(a, CharClass::Ws);
    let b = trim(s, CharClass::Ws);
    crate::text::lemma_leading_le(b, CharClass::Is('"'));
    crate::text::lemma_trailing_le(trim_start(b, CharClass::Is('"')), CharClass::Is('"'));
    let c = trim(b, CharClass::Is('"'));
    crate::text::lemma_leading_le(c, CharClass::Is('\''));
    crate::text::lemma_trailing_le(trim_start(c, CharClass::Is('\'')), CharClass::Is('\''));
    assert(leading(s, CharClass::Ws) == 0);
    assert(a =~= s);
    assert(trailing(s, CharClass::Ws) == 0);
}

/// The head of a written `default.custom.yaml` names no schema: reading it
/// passes over its lines.
proof fn lemma_head_lines(rest: Seq<char>)
    ensures
        selected_in(lines(schema_list_head() + rest)) == selected_in(lines(rest)),
{
    let pat = "schema:"@;
    reveal_strlit("schema:");
    let l1 = "customization:"@;
    let l2 = "  distribution_code_name: Xime"@;
    let l3 = "  distribution_version: 1.0"@;
    let l4 = ""@;
    let l5 = "patch:"@;
    let l6 = "  schema_list:"@;
    reveal_strlit("customization:");
    reveal_strlit("  distribution_code_name: Xime");
    reveal_strlit("  distribution_version: 1.0");
    reveal_strlit("");
    reveal_strlit("patch:");
    reveal_strlit("  schema_list:");
    reveal_strlit("customization:\n  distribution_code_name: Xime\n  distribution_version: 1.0\n\npatch:\n  schema_list:\n");
    let nl = seq!['\n'];
    let r6 = rest;
    let r5 = l6 + nl + r6;
    let r4 = l5 + nl + r5;
    let r3 = l4 + nl + r4;
    let r2 = l3 + nl + r3;
    let r1 = l2 + nl + r2;
    assert(schema_list_head() + rest =~= l1 + nl + r1);
    assert forall|k: int| 0 <= k < l1.len() implies l1[k] != '\n' && l1[k] != 'h' by {}
    assert forall|k: int| 0 <= k < l2.len() implies l2[k] != '\n' && l2[k] != 'h' by {}
    assert forall|k: int| 0 <= k < l3.len() implies l3[k] != '\n' && l3[k] != 'h' by {}
    assert forall|k: int| 0 <= k < l5.len() implies l5[k] != '\n' && l5[k] != 'e' by {}
    assert forall|k: int| 0 <= k < l6.len() implies l6[k] != '\n' by {}
    assert forall|k: int| 0 <= k < 13 implies l6[k] != ':' by {}
    crate::patch_laws::lemma_lines_head(l1, r1);
    crate::patch_laws::lemma_lines_head(l2, r2);
    crate::patch_laws::lemma_lines_head(l3, r3);
    crate::patch_laws::lemma_lines_head(l4, r4);
    crate::patch_laws::lemma_lines_head(l5, r5);
    crate::patch_laws::lemma_lines_head(l6, r6);
    lemma_find_str_absent(l1, pat, 2);
    lemma_find_str_absent(l2, pat, 2);
    lemma_find_str_absent(l3, pat, 2);
    lemma_find_str_absent(l4, pat, 0);
    lemma_find_str_absent(l5, pat, 3);
    assert forall|j: int| 0 <= j <= l6.len() implies !pat.is_prefix_of(#[trigger] l6.skip(j)) by {
        if pat.is_prefix_of(l6.skip(j)) {
            let w = l6.skip(j).subrange(0, 7);
            assert(w[6] == pat[6]);
            assert(w[6] == l6[j + 6]);
            assert(l6[j + 6] == ':');
            assert(j == 7);
            assert(w[0] == pat[0]);
            assert(w[0] == l6[7]);
        }
    }
    crate::schema_info::lemma_find_str_none(l6, pat);
    assert(strip_cr(l1) == l1);
    assert(strip_cr(l2) == l2);
    assert(strip_cr(l3) == l3);
    assert(strip_cr(l4) == l4);
    assert(strip_cr(l5) == l5);
    assert(strip_cr(l6) == l6);
    lemma_selected_skip(l1, lines(r1));
    lemma_selected_skip(l2, lines(r2));
    lemma_selected_skip(l3, lines(r3));
    lemma_selected_skip(l4, lines(r4));
    lemma_selected_skip(l5, lines(r5));
    lemma_selected_skip(l6, lines(r6));
}

/// The first list item names its schema.
proof fn lemma_selected_item(id: Seq<char>, r: Seq<Seq<char>>)
    requires
        id.len() > 0,
        clean(id) == id,
        find_str(id, "schema:"@) is None,
    ensures
        selected_in(seq!["    - schema: "@ + id] + r) == Some(id),
{
    let pat = "schema:"@;
    reveal_strlit("schema:");
    reveal_strlit("    - schema: ");
    let item = "    - schema: "@ + id;
    assert forall|j: int| 0 <= j < 6 implies !pat.is_prefix_of(#[trigger] item.skip(j)) by {
        if pat.is_prefix_of(item.skip(j)) {
            let w = item.skip(j).subrange(0, 7);
            assert(w[0] == pat[0]);
            assert(w[0] == item[j]);
        }
    }
    assert(item.skip(6).subrange(0, 7) =~= pat);
    crate::schema_info::lemma_find_str_found(item, pat, 6);
    let rest = item.skip(13);
    assert(rest =~= seq![' '] + id);
    assert(rest.drop_first() =~= id);
    assert(!pat.is_prefix_of(rest)) by {
        if pat.is_prefix_of(rest) {
            assert(rest.subrange(0, 7)[0] == pat[0]);
        }
    }
    assert(find_str(rest, pat) is None);
    assert(after_first(item, pat) == Some(rest));
    lemma_clean_space(id);
    assert((seq![item] + r)[0] == item);
}

/// Reading the selected schema back from the `default.custom.yaml` that
/// `set_schema_list` writes gives the first id of the list, and nothing for
/// an empty list; provided the first id is not empty, has no white space or
/// quotes around it, holds no line break and does not hold "schema:".
pub proof fn lemma_selected_schema_round_trip(ids: Seq<Seq<char>>)
    requires
        ids.len() > 0 ==> {
            &&& ids[0].len() > 0
            &&& clean(ids[0]) == ids[0]
            &&& crate::patch_laws::no_newline(ids[0])
            &&& find_str(ids[0], "schema:"@) is None
        },
    ensures
        selected_in(lines(schema_list_text(ids))) == (if ids.len() == 0 {
            None
        } else {
            Some(ids[0])
        }),
{
    crate::text::reveal_newline();
    reveal_strlit("schema:");
    let items = schema_items(ids);
    let tail = join(items, "\n"@) + "\n"@;
    assert(schema_list_text(ids) =~= schema_list_head() + tail);
    lemma_head_lines(tail);
    if ids.len() == 0 {
        assert(join(items, "\n"@) =~= Seq::<char>::empty());
        assert(tail =~= Seq::<char>::empty() + seq!['\n'] + Seq::<char>::empty());
        crate::patch_laws::lemma_lines_head(Seq::empty(), Seq::empty());
        assert(lines(Seq::<char>::empty()) =~= Seq::<Seq<char>>::empty());
        assert(strip_cr(Seq::<char>::empty()) =~= Seq::<char>::empty());
        assert(find_str(Seq::<char>::empty(), "schema:"@) is None);
        lemma_selected_skip(Seq::empty(), Seq::empty());
        assert(seq![Seq::<char>::empty()] + Seq::<Seq<char>>::empty() =~= seq![Seq::<char>::empty()]);
    } else {
        let id = ids[0];
        let lead = "    - schema: "@;
        reveal_strlit("    - schema: ");
        let item = lead + id;
        assert(items[0] == item);
        let after = if items.len() == 1 {
            Seq::<char>::empty()
        } else {
            join(items.drop_first(), "\n"@) + "\n"@
        };
        if items.len() == 1 {
            assert(tail =~= item + seq!['\n'] + after);
        } else {
            crate::patch_laws::lemma_join_front(items, "\n"@);
            assert(tail =~= item + seq!['\n'] + after);
        }
        assert forall|k: int| 0 <= k < item.len() implies item[k] != '\n' by {
            if k >= lead.len() {
                assert(item[k] == id[k - lead.len()]);
            }
        }
        crate::patch_laws::lemma_lines_head(item, after);
        lemma_clean_fixed(id);
        assert(item.last() == id.last());
        assert(strip_cr(item) == item);
        lemma_selected_item(id, lines(after));
    }
}

} // verus!
