//! The paged candidate list shown in the candidate bar: paging,
//! highlighting, and selection by highlight or by select key.

use vstd::prelude::*;
use vstd::slice::slice_subrange;

use crate::text::{owned, utf8_len, char_width, lemma_utf8_len_push};

verus! {

/// One candidate: its text, its comment (empty when there is none) and its
/// position in the full list.
#[derive(Debug, Clone, Default)]
pub struct CandidateItem {
    pub text: String,
    pub comment: String,
    pub index: usize,
}

/// Direction of a highlight move inside the current page.
#[derive(Debug, Clone, Copy)]
pub enum MoveDirection {
    Up,
    Down,
}

/// Paging state reported to the renderer.
#[derive(Debug, Clone)]
pub struct PageInfo {
    pub page_size: usize,
    pub current_page: usize,
    pub total_pages: usize,
    pub is_last_page: bool,
    pub highlighted_index: usize,
    pub select_keys: String,
}

/// Number of pages needed for `len` items, `page_size` per page (a ceiling division).
pub open spec fn total_pages(len: nat, page_size: nat) -> nat {
    if page_size == 0 {
        0
    } else {
        ((len + page_size - 1) / (page_size as int)) as nat
    }
}

/// Number of items on page `page` when `len` items are split `page_size` per page.
pub open spec fn page_len(len: nat, page: nat, page_size: nat) -> nat {
    let start = page * page_size;
    if start >= len {
        0
    } else if len - start < page_size {
        (len - start) as nat
    } else {
        page_size
    }
}

/// Position of the first occurrence of `c` in `s`, if any.
pub open spec fn first_index_of(s: Seq<char>, c: char) -> Option<nat>
    decreases s.len(),
{
    if s.len() == 0 {
        None
    } else {
        match first_index_of(s.drop_last(), c) {
            Some(i) => Some(i),
            None => if s.last() == c {
                Some((s.len() - 1) as nat)
            } else {
                None
            },
        }
    }
}

/// Byte offset, in UTF-8, of the first occurrence of `c` in `s` (what `str::find` returns).
pub open spec fn byte_find(s: Seq<char>, c: char) -> Option<nat> {
    match first_index_of(s, c) {
        Some(i) => Some(utf8_len(s.take(i as int))),
        None => None,
    }
}

/// Abstract state of a candidate list.
pub struct CandidateListView {
    pub items: Seq<CandidateItem>,
    pub page_size: nat,
    pub current_page: nat,
    pub highlighted_index: nat,
    pub select_keys: Seq<char>,
}

impl CandidateListView {
    /// Items on the current page.
    pub open spec fn page_len(self) -> nat {
        page_len(self.items.len(), self.current_page, self.page_size)
    }

    /// Index, in the full list, of the highlighted candidate.
    pub open spec fn highlighted_position(self) -> int {
        (self.current_page * self.page_size + self.highlighted_index) as int
    }

    /// The page is within the list and the highlight within the page.
    pub open spec fn consistent(self) -> bool {
        &&& (self.current_page == 0 || self.current_page * self.page_size < self.items.len())
        &&& (self.highlighted_index == 0 || self.highlighted_index < self.page_len())
    }
}

/// The list after `page_up`: the previous page with its first item
/// highlighted, or unchanged on the first page.
pub open spec fn after_page_up(v: CandidateListView) -> CandidateListView {
    if v.current_page > 0 {
        CandidateListView { current_page: (v.current_page - 1) as nat, highlighted_index: 0, ..v }
    } else {
        v
    }
}

/// The list after `page_down`: the next page with its first item
/// highlighted, or unchanged on the last page.
pub open spec fn after_page_down(v: CandidateListView) -> CandidateListView {
    if v.current_page + 1 < total_pages(v.items.len(), v.page_size) {
        CandidateListView { current_page: v.current_page + 1, highlighted_index: 0, ..v }
    } else {
        v
    }
}

/// Paging down and back up returns to the page one started on, with its
/// first item highlighted.
pub proof fn lemma_page_down_then_up(v: CandidateListView)
    requires
        v.current_page + 1 < total_pages(v.items.len(), v.page_size),
    ensures
        after_page_up(after_page_down(v)).current_page == v.current_page,
        after_page_up(after_page_down(v)).highlighted_index == 0,
        after_page_up(after_page_down(v)).items == v.items,
{
}

/// Paging never leaves the list: from a consistent state, `page_up` and
/// `page_down` lead to consistent states.
pub proof fn lemma_paging_keeps_consistency(v: CandidateListView)
    requires
        v.consistent(),
        v.page_size > 0,
    ensures
        after_page_up(v).consistent(),
        after_page_down(v).consistent(),
{
    if v.current_page > 0 {
        assert((v.current_page - 1) * v.page_size <= v.current_page * v.page_size)
            by (nonlinear_arith)
            requires
                v.current_page >= 1,
        ;
    }
    if v.current_page + 1 < total_pages(v.items.len(), v.page_size) {
        lemma_next_page_in_range(v.items.len(), v.current_page, v.page_size);
    }
}

/// The texts of a candidate list, each paired with its comment and numbered from 0.
pub open spec fn items_match(
    items: Seq<CandidateItem>,
    texts: Seq<(&str, Option<&str>)>,
) -> bool {
    &&& items.len() == texts.len()
    &&& forall|i: int|
        0 <= i < items.len() ==> {
            &&& (#[trigger] items[i]).text@ == texts[i].0@
            &&& items[i].comment@ == match texts[i].1 {
                Some(c) => c@,
                None => Seq::<char>::empty(),
            }
            &&& items[i].index == i
        }
}

/// A paged list of candidates with a highlight inside the current page.
#[derive(Debug)]
pub struct CandidateList {
    items: Vec<CandidateItem>,
    page_size: usize,
    current_page: usize,
    highlighted_index: usize,
    select_keys: String,
}

impl View for CandidateList {
    type V = CandidateListView;

    closed spec fn view(&self) -> CandidateListView {
        CandidateListView {
            items: self.items@,
            page_size: self.page_size as nat,
            current_page: self.current_page as nat,
            highlighted_index: self.highlighted_index as nat,
            select_keys: self.select_keys@,
        }
    }
}

pub proof fn lemma_page_start_bounded(len: nat, page: nat, page_size: nat)
    requires
        page == 0 || page * page_size < len,
    ensures
        page * page_size <= len,
{
    if page == 0 {
        assert(page * page_size == 0) by (nonlinear_arith)
            requires
                page == 0,
        ;
    }
}

pub proof fn lemma_ceil_div(len: nat, page_size: nat)
    requires
        page_size > 0,
        len > 0,
    ensures
        (len - 1) / (page_size as int) + 1 == total_pages(len, page_size),
        total_pages(len, page_size) >= 1,
{
    assert((len - 1 + page_size) / (page_size as int) == (len - 1) / (page_size as int) + 1)
        by (nonlinear_arith)
        requires
            page_size > 0,
            len > 0,
    {
        vstd::arithmetic::div_mod::lemma_div_plus_one((len - 1) as int, page_size as int);
    }
}

proof fn lemma_page_len_le(len: nat, page: nat, page_size: nat)
    ensures
        page_len(len, page, page_size) <= page_size,
        page * page_size + page_len(len, page, page_size) <= len || page_len(len, page, page_size)
            == 0,
{
}

pub proof fn lemma_next_page_in_range(len: nat, page: nat, page_size: nat)
    requires
        page_size > 0,
        page + 1 < total_pages(len, page_size),
    ensures
        (page + 1) * page_size < len,
{
    let t = total_pages(len, page_size);
    assert(t * page_size <= len + page_size - 1) by (nonlinear_arith)
        requires
            t == (len + page_size - 1) / (page_size as int),
            page_size > 0,
    ;
    assert((page + 1) * page_size <= (t - 1) * page_size) by (nonlinear_arith)
        requires
            page + 1 <= t - 1,
            page_size > 0,
    ;
    assert((t - 1) * page_size == t * page_size - page_size) by (nonlinear_arith);
}

/// Two candidate lists hold the same texts, comments and indices, in order.
pub open spec fn same_items(a: Seq<CandidateItem>, b: Seq<CandidateItem>) -> bool {
    &&& a.len() == b.len()
    &&& forall|i: int|
        0 <= i < a.len() ==> {
            &&& (#[trigger] a[i]).text@ == b[i].text@
            &&& a[i].comment@ == b[i].comment@
            &&& a[i].index == b[i].index
        }
}

fn copy_item(it: &CandidateItem) -> (r: CandidateItem)
    ensures
        r.text@ == it.text@,
        r.comment@ == it.comment@,
        r.index == it.index,
{
    CandidateItem { text: owned(it.text.as_str()), comment: owned(it.comment.as_str()), index: it.index }
}

fn copy_items(items: &Vec<CandidateItem>) -> (r: Vec<CandidateItem>)
    ensures
        same_items(r@, items@),
{
    let mut r: Vec<CandidateItem> = Vec::new();
    let mut i: usize = 0;
    while i < items.len()
        invariant
            i <= items@.len(),
            same_items(r@, items@.take(i as int)),
        decreases items.len() - i,
    {
        r.push(copy_item(&items[i]));
        i = i + 1;
    }
    assert(items@.take(i as int) =~= items@);
    r
}

impl Clone for CandidateList {
    fn clone(&self) -> (r: Self)
        ensures
            same_items(r@.items, self@.items),
            r@.page_size == self@.page_size,
            r@.current_page == self@.current_page,
            r@.highlighted_index == self@.highlighted_index,
            r@.select_keys == self@.select_keys,
    {
        proof {
            use_type_invariant(self);
        }
        CandidateList {
            items: copy_items(&self.items),
            page_size: self.page_size,
            current_page: self.current_page,
            highlighted_index: self.highlighted_index,
            select_keys: owned(self.select_keys.as_str()),
        }
    }
}

impl CandidateList {
    #[verifier::type_invariant]
    closed spec fn inv(self) -> bool {
        self@.consistent()
    }

    /// An empty list with the given page size and the select keys "12345".
    pub fn new(page_size: usize) -> (r: Self)
        ensures
            r@.items.len() == 0,
            r@.page_size == page_size,
            r@.current_page == 0,
            r@.highlighted_index == 0,
            r@.select_keys == "12345"@,
    {
        Self {
            items: Vec::new(),
            page_size,
            current_page: 0,
            highlighted_index: 0,
            select_keys: owned("12345"),
        }
    }

    /// Replaces the candidates (numbered from 0), optionally replaces the
    /// select keys, and goes back to the first page with the first item
    /// highlighted.
    pub fn set_candidates(&mut self, texts: Vec<(&str, Option<&str>)>, select_keys: Option<&str>)
        ensures
            items_match(final(self)@.items, texts@),
            final(self)@.select_keys == match select_keys {
                Some(k) => k@,
                None => old(self)@.select_keys,
            },
            final(self)@.page_size == old(self)@.page_size,
            final(self)@.current_page == 0,
            final(self)@.highlighted_index == 0,
    {
        let mut items: Vec<CandidateItem> = Vec::new();
        let mut i: usize = 0;
        while i < texts.len()
            invariant
                i <= texts.len(),
                items_match(items@, texts@.take(i as int)),
            decreases texts.len() - i,
        {
            let (text, comment) = texts[i];
            let comment_text = match comment {
                Some(c) => owned(c),
                None => String::new(),
            };
            items.push(CandidateItem { text: owned(text), comment: comment_text, index: i });
            i = i + 1;
            assert(texts@.take(i as int).drop_last() =~= texts@.take((i - 1) as int));
        }
        assert(texts@.take(i as int) =~= texts@);
        let keys = match select_keys {
            Some(k) => owned(k),
            None => self.select_keys.clone(),
        };
        *self = Self {
            items,
            page_size: self.page_size,
            current_page: 0,
            highlighted_index: 0,
            select_keys: keys,
        };
    }

    /// Removes every candidate and resets paging.
    pub fn clear(&mut self)
        ensures
            final(self)@.items.len() == 0,
            final(self)@.page_size == old(self)@.page_size,
            final(self)@.current_page == 0,
            final(self)@.highlighted_index == 0,
            final(self)@.select_keys == old(self)@.select_keys,
    {
        *self = Self {
            items: Vec::new(),
            page_size: self.page_size,
            current_page: 0,
            highlighted_index: 0,
            select_keys: self.select_keys.clone(),
        };
    }

    /// Goes to the previous page (highlighting its first item); does nothing on the first page.
    pub fn page_up(&mut self)
        ensures
            final(self)@ == after_page_up(old(self)@),
    {
        proof {
            use_type_invariant(&*self);
        }
        if self.current_page > 0 {
            proof {
                assert((self.current_page - 1) * self.page_size <= self.current_page
                    * self.page_size) by (nonlinear_arith);
            }
            let page = self.current_page - 1;
            self.current_page = page;
            self.highlighted_index = 0;
        }
    }

    /// Goes to the next page (highlighting its first item); does nothing on the last page.
    pub fn page_down(&mut self)
        requires
            old(self)@.page_size > 0,
            old(self)@.items.len() > 0,
        ensures
            final(self)@ == after_page_down(old(self)@),
    {
        proof {
            use_type_invariant(&*self);
            lemma_ceil_div(self.items.len() as nat, self.page_size as nat);
        }
        let total_pages = (self.items.len() - 1) / self.page_size + 1;
        if self.current_page < total_pages - 1 {
            proof {
                lemma_next_page_in_range(
                    self.items.len() as nat,
                    self.current_page as nat,
                    self.page_size as nat,
                );
            }
            let page = self.current_page + 1;
            self.highlighted_index = 0;
            self.current_page = page;
        }
    }

    /// Text of the highlighted candidate, if that position holds one.
    pub fn select_highlighted(&self) -> (r: Option<&str>)
        ensures
            r is Some <==> self@.highlighted_position() < self@.items.len(),
            r matches Some(t) ==> t@ == self@.items[self@.highlighted_position()].text@,
    {
        proof {
            use_type_invariant(self);
            lemma_page_start_bounded(
                self.items.len() as nat,
                self.current_page as nat,
                self.page_size as nat,
            );
            lemma_page_len_le(
                self.items.len() as nat,
                self.current_page as nat,
                self.page_size as nat,
            );
        }
        let idx = self.current_page * self.page_size + self.highlighted_index;
        if idx < self.items.len() {
            Some(self.items[idx].text.as_str())
        } else {
            None
        }
    }

    /// Byte offset of the first occurrence of `key` in the select keys,
    /// saturated at `usize::MAX`.
    fn find_select_key(&self, key: char) -> (r: Option<usize>)
        ensures
            match r {
                Some(p) => byte_find(self@.select_keys, key) matches Some(q) && p == if q
                    > usize::MAX {
                    usize::MAX as nat
                } else {
                    q
                },
                None => byte_find(self@.select_keys, key) is None,
            },
    {
        let keys = crate::text::chars_of(self.select_keys.as_str());
        let mut i: usize = 0;
        let mut offset: usize = 0;
        while i < keys.len()
            invariant
                keys@ == self.select_keys@,
                i <= keys.len(),
                first_index_of(keys@.take(i as int), key) is None,
                offset == if utf8_len(keys@.take(i as int)) > usize::MAX {
                    usize::MAX as nat
                } else {
                    utf8_len(keys@.take(i as int))
                },
            decreases keys.len() - i,
        {
            assert(keys@.take(i as int + 1).drop_last() =~= keys@.take(i as int));
            assert(keys@.take(i as int + 1) =~= keys@.take(i as int).push(keys@[i as int]));
            if keys[i] == key {
                assert(first_index_of(keys@.take(i as int + 1), key) == Some(i as nat));
                proof {
                    lemma_first_index_prefix(keys@, i as int + 1, key);
                }
                return Some(offset);
            }
            proof {
                lemma_utf8_len_push(keys@.take(i as int), keys@[i as int]);
            }
            offset = offset.saturating_add(char_width(keys[i]));
            i = i + 1;
        }
        assert(keys@.take(i as int) =~= keys@);
        None
    }

    /// Text of the candidate that select key `key` picks on the current
    /// page: the key's byte offset in the select keys, counted from the
    /// start of the page. `None` when `key` is not a select key or the
    /// position holds no candidate.
    pub fn select_by_key(&mut self, key: char) -> (r: Option<&str>)
        ensures
            final(self)@ == old(self)@,
            match byte_find(old(self)@.select_keys, key) {
                Some(p) => {
                    let idx = old(self)@.current_page * old(self)@.page_size + p;
                    &&& (r is Some <==> idx < old(self)@.items.len())
                    &&& (r matches Some(t) ==> t@ == old(self)@.items[idx as int].text@)
                },
                None => r is None,
            },
    {
        proof {
            use_type_invariant(&*self);
            lemma_page_start_bounded(
                self.items.len() as nat,
                self.current_page as nat,
                self.page_size as nat,
            );
        }
        let pos = self.find_select_key(key);
        match pos {
            Some(p) => {
                let start = self.current_page * self.page_size;
                if start < self.items.len() && p < self.items.len() - start {
                    Some(self.items[start + p].text.as_str())
                } else {
                    None
                }
            },
            None => None,
        }
    }

    /// Moves the highlight one item up or down within the current page,
    /// staying put at the first or last item.
    pub fn move_highlight(&mut self, direction: MoveDirection)
        requires
            direction is Up || old(self)@.page_len() > 0,
        ensures
            final(self)@.items == old(self)@.items,
            final(self)@.page_size == old(self)@.page_size,
            final(self)@.current_page == old(self)@.current_page,
            final(self)@.select_keys == old(self)@.select_keys,
            final(self)@.highlighted_index == match direction {
                MoveDirection::Up => if old(self)@.highlighted_index > 0 {
                    (old(self)@.highlighted_index - 1) as nat
                } else {
                    0
                },
                MoveDirection::Down => if old(self)@.highlighted_index + 1 < old(self)@.page_len() {
                    old(self)@.highlighted_index + 1
                } else {
                    old(self)@.highlighted_index
                },
            },
    {
        proof {
            use_type_invariant(&*self);
        }
        match direction {
            MoveDirection::Up => {
                if self.highlighted_index > 0 {
                    let h = self.highlighted_index - 1;
                    self.highlighted_index = h;
                }
            },
            MoveDirection::Down => {
                let page_items = self.get_page_items().len();
                if self.highlighted_index < page_items - 1 {
                    let h = self.highlighted_index + 1;
                    self.highlighted_index = h;
                }
            },
        }
    }

    /// The candidates on the current page.
    fn get_page_items(&self) -> (r: &[CandidateItem])
        ensures
            r@ == self@.items.subrange(
                (self@.current_page * self@.page_size) as int,
                (self@.current_page * self@.page_size + self@.page_len()) as int,
            ),
            r@.len() == self@.page_len(),
    {
        proof {
            use_type_invariant(self);
            lemma_page_start_bounded(
                self.items.len() as nat,
                self.current_page as nat,
                self.page_size as nat,
            );
        }
        let start = self.current_page * self.page_size;
        let len = self.items.len();
        let end = if start >= len {
            start
        } else if len - start < self.page_size {
            len
        } else {
            start + self.page_size
        };
        if start >= len {
            proof {
                assert(self.current_page == 0);
            }
            return slice_subrange(self.items.as_slice(), 0, 0);
        }
        slice_subrange(self.items.as_slice(), start, end)
    }

    /// Whether the list holds no candidate.
    pub fn is_empty(&self) -> (b: bool)
        ensures
            b == (self@.items.len() == 0),
    {
        self.items.len() == 0
    }

    /// The paging state; `is_last_page` holds on the last page.
    pub fn get_page_info(&self) -> (info: PageInfo)
        requires
            self@.page_size > 0,
            self@.items.len() > 0,
        ensures
            info.page_size == self@.page_size,
            info.current_page == self@.current_page,
            info.total_pages == total_pages(self@.items.len(), self@.page_size),
            info.is_last_page == (self@.current_page + 1 >= total_pages(
                self@.items.len(),
                self@.page_size,
            )),
            info.highlighted_index == self@.highlighted_index,
            info.select_keys@ == self@.select_keys,
    {
        proof {
            lemma_ceil_div(self.items.len() as nat, self.page_size as nat);
        }
        let total = (self.items.len() - 1) / self.page_size + 1;
        PageInfo {
            page_size: self.page_size,
            current_page: self.current_page,
            total_pages: total,
            is_last_page: self.current_page >= total - 1,
            highlighted_index: self.highlighted_index,
            select_keys: self.select_keys.clone(),
        }
    }
}

proof fn lemma_first_index_prefix(s: Seq<char>, n: int, c: char)
    requires
        0 <= n <= s.len(),
        first_index_of(s.take(n), c) is Some,
    ensures
        first_index_of(s, c) == first_index_of(s.take(n), c),
    decreases s.len() - n,
{
    if n < s.len() {
        assert(s.take(n + 1).drop_last() =~= s.take(n));
        lemma_first_index_prefix(s, n + 1, c);
    } else {
        assert(s.take(n) =~= s);
    }
}

} // verus!
