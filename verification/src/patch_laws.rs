//! Why writing a setting twice leaves a patch file as writing it once: the
//! lines of a file written from lines are those lines, and a second write
//! of the same key finds the line the first one wrote.

use vstd::prelude::*;

use crate::text::{
    lines, join, strip_cr, index_of, lemma_index_of_found, lemma_index_of_bounds, reveal_newline,
    trim, CharClass,
};
use crate::schema_config::{
    patch_line, prefixed_line, patched_lines, patched_text, default_patch_lines,
};

verus! {

/// A line that survives being written and read back: it holds no '\n' and
/// does not end with '\r'.
pub open spec fn plain_line(s: Seq<char>) -> bool {
    &&& forall|i: int| 0 <= i < s.len() ==> s[i] != '\n'
    &&& (s.len() == 0 || s.last() != '\r')
}

pub(crate) proof fn lemma_lines_head(a: Seq<char>, rest: Seq<char>)
    requires
        forall|i: int| 0 <= i < a.len() ==> a[i] != '\n',
    ensures
        lines(a + seq!['\n'] + rest) == seq![strip_cr(a)] + lines(rest),
{
    let s = a + seq!['\n'] + rest;
    assert(s[a.len() as int] == '\n');
    assert forall|j: int| 0 <= j < a.len() implies s[j] != '\n' by {
        assert(s[j] == a[j]);
    }
    lemma_index_of_found(s, '\n', a.len() as int);
    assert(s.take(a.len() as int) =~= a);
    assert(s.skip(a.len() + 1int) =~= rest);
}

pub(crate) proof fn lemma_join_front(ls: Seq<Seq<char>>, sep: Seq<char>)
    requires
        ls.len() >= 2,
    ensures
        join(ls, sep) == ls[0] + sep + join(ls.drop_first(), sep),
    decreases ls.len(),
{
    if ls.len() == 2 {
        assert(ls.drop_last().len() == 1);
        assert(ls.drop_first().len() == 1);
        assert(join(ls.drop_first(), sep) == ls[1]);
        assert(join(ls.drop_last(), sep) == ls[0]);
    } else {
        lemma_join_front(ls.drop_last(), sep);
        assert(ls.drop_last().drop_first() =~= ls.drop_first().drop_last());
        assert(ls.drop_first().last() == ls.last());
        assert(ls.drop_last()[0] == ls[0]);
        assert(join(ls.drop_first(), sep) == join(ls.drop_first().drop_last(), sep) + sep
            + ls.drop_first().last());
        assert(join(ls, sep) =~= ls[0] + sep + join(ls.drop_first(), sep));
    }
}

/// Whether `s` holds no '\n'.
pub open spec fn no_newline(s: Seq<char>) -> bool {
    forall|i: int| 0 <= i < s.len() ==> s[i] != '\n'
}

/// Each line without a final '\r'.
pub open spec fn strip_lines(ls: Seq<Seq<char>>) -> Seq<Seq<char>> {
    ls.map_values(|l: Seq<char>| strip_cr(l))
}

/// Lines without '\n' joined by '\n' with a final '\n' read back as the
/// same lines, each without a final '\r'.
pub proof fn lemma_lines_join_strip(ls: Seq<Seq<char>>)
    requires
        ls.len() >= 1,
        forall|i: int| 0 <= i < ls.len() ==> no_newline(#[trigger] ls[i]),
    ensures
        lines(join(ls, "\n"@) + "\n"@) == strip_lines(ls),
    decreases ls.len(),
{
    reveal_newline();
    let a = ls[0];
    assert(no_newline(a));
    if ls.len() == 1 {
        assert(join(ls, "\n"@) == a);
        assert(a + seq!['\n'] + Seq::<char>::empty() =~= join(ls, "\n"@) + "\n"@);
        lemma_lines_head(a, Seq::empty());
        assert(lines(Seq::<char>::empty()) =~= Seq::<Seq<char>>::empty());
        assert(seq![strip_cr(a)] + Seq::<Seq<char>>::empty() =~= strip_lines(ls));
    } else {
        let rest = ls.drop_first();
        lemma_join_front(ls, "\n"@);
        assert forall|i: int| 0 <= i < rest.len() implies no_newline(#[trigger] rest[i]) by {
            assert(rest[i] == ls[i + 1]);
        }
        lemma_lines_join_strip(rest);
        let tail = join(rest, "\n"@) + "\n"@;
        assert(join(ls, "\n"@) + "\n"@ =~= a + seq!['\n'] + tail);
        lemma_lines_head(a, tail);
        assert(seq![strip_cr(a)] + strip_lines(rest) =~= strip_lines(ls));
    }
}

/// No line that `lines` yields holds a '\n'.
pub proof fn lemma_lines_no_newline(s: Seq<char>)
    ensures
        forall|i: int, j: int|
            0 <= i < lines(s).len() && 0 <= j < lines(s)[i].len() ==> lines(s)[i][j] != '\n',
    decreases s.len(),
{
    if s.len() > 0 {
        lemma_index_of_bounds(s, '\n');
        match index_of(s, '\n') {
            None => {},
            Some(k) => {
                lemma_lines_no_newline(s.skip(k + 1int));
                let head = strip_cr(s.take(k as int));
                assert forall|j: int| 0 <= j < head.len() implies head[j] != '\n' by {
                    assert(head[j] == s[j]);
                }
                let r = seq![head] + lines(s.skip(k + 1int));
                assert forall|i: int, j: int| 0 <= i < r.len() && 0 <= j < r[i].len() implies r[i][j]
                    != '\n' by {
                    if i > 0 {
                        assert(r[i] == lines(s.skip(k + 1int))[i - 1]);
                    }
                }
            },
        }
    }
}

proof fn lemma_patch_line_bounds(ls: Seq<Seq<char>>)
    ensures
        patch_line(ls) matches Some(p) ==> p < ls.len() && trim(ls[p as int], CharClass::Ws) == "patch:"@
            && forall|j: int| 0 <= j < p ==> trim(#[trigger] ls[j], CharClass::Ws) != "patch:"@,
    decreases ls.len(),
{
    if ls.len() > 0 && trim(ls[0], CharClass::Ws) != "patch:"@ {
        lemma_patch_line_bounds(ls.drop_first());
        assert forall|j: int| 1 <= j < ls.len() implies ls[j] == ls.drop_first()[j - 1] by {}
    }
}

proof fn lemma_prefixed_bounds(ls: Seq<Seq<char>>, prefix: Seq<char>)
    ensures
        prefixed_line(ls, prefix) matches Some(e) ==> e < ls.len() && prefix.is_prefix_of(ls[e as int])
            && forall|j: int| 0 <= j < e ==> !prefix.is_prefix_of(#[trigger] ls[j]),
    decreases ls.len(),
{
    if ls.len() > 0 && !prefix.is_prefix_of(ls[0]) {
        lemma_prefixed_bounds(ls.drop_first(), prefix);
        assert forall|j: int| 1 <= j < ls.len() implies ls[j] == ls.drop_first()[j - 1] by {}
    }
}

proof fn lemma_patch_line_same_head(ls: Seq<Seq<char>>, t: Seq<Seq<char>>, p: int)
    requires
        patch_line(ls) == Some(p as nat),
        0 <= p < t.len(),
        forall|j: int| 0 <= j <= p ==> #[trigger] t[j] == ls[j],
    ensures
        patch_line(t) == Some(p as nat),
{
    lemma_patch_line_bounds(ls);
    assert forall|j: int| 0 <= j < p implies trim(#[trigger] t[j], CharClass::Ws) != "patch:"@ by {
        assert(t[j] == ls[j]);
    }
    crate::schema_config::lemma_patch_line_found(t, p);
}

proof fn lemma_prefixed_same_head(ls: Seq<Seq<char>>, t: Seq<Seq<char>>, prefix: Seq<char>, e: int)
    requires
        0 <= e < t.len(),
        e <= ls.len(),
        prefix.is_prefix_of(t[e]),
        forall|j: int| 0 <= j < e ==> !prefix.is_prefix_of(#[trigger] ls[j]),
        forall|j: int| 0 <= j < e ==> #[trigger] t[j] == ls[j],
    ensures
        prefixed_line(t, prefix) == Some(e as nat),
{
    assert forall|j: int| 0 <= j < e implies !prefix.is_prefix_of(#[trigger] t[j]) by {
        assert(t[j] == ls[j]);
    }
    crate::schema_config::lemma_prefixed_found(t, prefix, e);
}

/// Patching the same key twice (both lines start with `prefix`) leaves the
/// lines as patching it once with the second line.
pub proof fn lemma_patched_lines_twice(ls: Seq<Seq<char>>, prefix: Seq<char>, l1: Seq<char>, l2: Seq<char>)
    requires
        prefix.is_prefix_of(l1),
    ensures
        patched_lines(patched_lines(ls, prefix, l1), prefix, l2) == patched_lines(ls, prefix, l2),
{
    lemma_patch_line_bounds(ls);
    match patch_line(ls) {
        None => {},
        Some(p) => {
            let tail = ls.skip(p + 1int);
            lemma_prefixed_bounds(tail, prefix);
            match prefixed_line(tail, prefix) {
                Some(e) => {
                    let t = ls.update((p + 1 + e) as int, l1);
                    lemma_patch_line_same_head(ls, t, p as int);
                    let ttail = t.skip(p + 1int);
                    assert forall|j: int| 0 <= j < e implies #[trigger] ttail[j] == tail[j] by {}
                    assert(ttail[e as int] == l1);
                    lemma_prefixed_same_head(tail, ttail, prefix, e as int);
                    assert(t.update((p + 1 + e) as int, l2) =~= ls.update((p + 1 + e) as int, l2));
                },
                None => {
                    let t = ls.insert((p + 1) as int, l1);
                    lemma_patch_line_same_head(ls, t, p as int);
                    let ttail = t.skip(p + 1int);
                    assert(ttail[0] == l1);
                    lemma_prefixed_same_head(tail, ttail, prefix, 0);
                    assert(t.update((p + 1) as int, l2) =~= ls.insert((p + 1) as int, l2));
                },
            }
        },
    }
}

/// Removing a final '\r' from every line of a patched file of plain lines
/// gives the file patched with the new line so trimmed.
proof fn lemma_patched_strip(ls: Seq<Seq<char>>, prefix: Seq<char>, l: Seq<char>)
    requires
        forall|i: int| 0 <= i < ls.len() ==> plain_line(#[trigger] ls[i]),
    ensures
        strip_lines(patched_lines(ls, prefix, l)) == patched_lines(
            ls,
            prefix,
            strip_cr(l),
        ),
{
    lemma_patch_line_bounds(ls);
    assert forall|i: int| 0 <= i < ls.len() implies strip_cr(#[trigger] ls[i]) == ls[i] by {
        assert(plain_line(ls[i]));
    }
    match patch_line(ls) {
        None => {
            assert(strip_lines(ls) =~= ls);
        },
        Some(p) => {
            let tail = ls.skip(p + 1int);
            lemma_prefixed_bounds(tail, prefix);
            match prefixed_line(tail, prefix) {
                Some(e) => {
                    let k = (p + 1 + e) as int;
                    assert(strip_lines(ls.update(k, l)) =~= ls.update(k, strip_cr(l)));
                },
                None => {
                    let k = (p + 1) as int;
                    let m = strip_lines(ls.insert(k, l));
                    assert forall|i: int| 0 <= i < m.len() implies #[trigger] m[i] == ls.insert(
                        k,
                        strip_cr(l),
                    )[i] by {
                        if i < k {
                            assert(ls.insert(k, l)[i] == ls[i]);
                        } else if i > k {
                            assert(ls.insert(k, l)[i] == ls[i - 1]);
                        }
                    }
                    assert(m =~= ls.insert(k, strip_cr(l)));
                },
            }
        },
    }
}

proof fn lemma_default_lines_plain()
    ensures
        forall|i: int|
            0 <= i < default_patch_lines().len() ==> plain_line(#[trigger] default_patch_lines()[i]),
{
    reveal_strlit("customization:");
    reveal_strlit("  distribution_code_name: Xime");
    reveal_strlit("  distribution_version: 1.0");
    reveal_strlit("");
    reveal_strlit("patch:");
    assert forall|i: int| 0 <= i < default_patch_lines().len() implies plain_line(
        #[trigger] default_patch_lines()[i],
    ) by {
        let l = default_patch_lines()[i];
        assert forall|j: int| 0 <= j < l.len() implies l[j] != '\n' by {}
    }
}

/// The lines of a file have no '\r' at their end.
pub open spec fn no_trailing_cr(existing: Option<Seq<char>>) -> bool {
    match existing {
        Some(c) => forall|i: int| 0 <= i < lines(c).len() ==> {
            let l = #[trigger] lines(c)[i];
            l.len() == 0 || l.last() != '\r'
        },
        None => true,
    }
}

/// Writing the same key twice, first with `l1` then with `l2` (both holding
/// no '\n' and starting with `prefix`, also once a final '\r' of `l1` is
/// dropped), leaves the file as writing it once with `l2`; provided the
/// file's own lines do not end with '\r'.
pub proof fn lemma_patched_text_twice(
    existing: Option<Seq<char>>,
    prefix: Seq<char>,
    l1: Seq<char>,
    l2: Seq<char>,
)
    requires
        prefix.is_prefix_of(strip_cr(l1)),
        no_newline(l1),
        no_trailing_cr(existing),
    ensures
        patched_text(Some(patched_text(existing, prefix, l1)), prefix, l2) == patched_text(
            existing,
            prefix,
            l2,
        ),
{
    reveal_newline();
    let ls = match existing {
        Some(c) => lines(c),
        None => default_patch_lines(),
    };
    match existing {
        Some(c) => {
            lemma_lines_no_newline(c);
            assert forall|i: int| 0 <= i < ls.len() implies plain_line(#[trigger] ls[i]) by {
                let l = ls[i];
                assert forall|j: int| 0 <= j < l.len() implies l[j] != '\n' by {}
            }
        },
        None => {
            lemma_default_lines_plain();
        },
    }
    let ls1 = patched_lines(ls, prefix, l1);
    lemma_patch_line_bounds(ls);
    assert forall|i: int| 0 <= i < ls1.len() implies no_newline(#[trigger] ls1[i]) by {
        match patch_line(ls) {
            None => {
                assert(plain_line(ls[i]));
            },
            Some(p) => {
                let tail = ls.skip(p + 1int);
                lemma_prefixed_bounds(tail, prefix);
                match prefixed_line(tail, prefix) {
                    Some(e) => {
                        if i != p + 1 + e {
                            assert(plain_line(ls[i]));
                        }
                    },
                    None => {
                        if i < p + 1 {
                            assert(plain_line(ls[i]));
                        } else if i > p + 1 {
                            assert(ls1[i] == ls[i - 1]);
                            assert(plain_line(ls[i - 1]));
                        }
                    },
                }
            },
        }
    }
    lemma_patched_strip(ls, prefix, l1);
    lemma_patched_lines_twice(ls, prefix, strip_cr(l1), l2);
    if ls1.len() == 0 {
        assert(ls.len() == 0) by {
            match patch_line(ls) {
                None => {},
                Some(p) => {
                    lemma_prefixed_bounds(ls.skip(p + 1int), prefix);
                },
            }
        }
        assert(join(ls1, "\n"@) =~= Seq::<char>::empty());
        let t1 = join(ls1, "\n"@) + "\n"@;
        assert(t1 =~= Seq::<char>::empty() + seq!['\n'] + Seq::<char>::empty());
        lemma_lines_head(Seq::empty(), Seq::empty());
        assert(lines(Seq::<char>::empty()) =~= Seq::<Seq<char>>::empty());
        assert(strip_cr(Seq::<char>::empty()) =~= Seq::<char>::empty());
        let back = lines(t1);
        assert(back =~= seq![Seq::<char>::empty()]);
        reveal_strlit("patch:");
        assert(trim(Seq::<char>::empty(), CharClass::Ws) =~= Seq::<char>::empty());
        assert(patch_line(back.drop_first()) is None);
        assert(patch_line(back) is None);
        assert(patched_lines(back, prefix, l2) == back);
        assert(join(back, "\n"@) == Seq::<char>::empty());
        assert(patched_lines(ls, prefix, l2) =~= ls);
    } else {
        lemma_lines_join_strip(ls1);
    }
}

} // verus!
