//! Decisions of the input-method daemon's event loop: the search panel
//! (emoji and symbols grid under the candidate bar), its keys and clicks,
//! the menu panel routing, and which key events are forwarded to the
//! focused application.
//!
//! Each function takes the loop's state and one event and returns the next
//! state together with the action the loop performs (redraw, commit text,
//! query items, forward the key); the loop itself does the drawing and the
//! protocol I/O.

use vstd::prelude::*;
use std::collections::HashSet;

use crate::candidate::{page_len, total_pages, lemma_ceil_div, lemma_page_start_bounded};
use crate::keys::spec_keysym_letter;
use crate::menu::{
    content_cell_width, content_columns_for, content_capacity, content_item_hit,
    content_panel_width, content_text_width, menu_button_hit, menu_item_hit, spec_content_columns,
    spec_content_item_hit, spec_menu_item_hit, spec_content_panel_width, text_render_width,
    MenuAction, CANDIDATE_HEIGHT, CONTENT_ROWS, MENU_BUTTON_WIDTH,
};
use crate::text::{chars_of, string_of, owned};
use crate::wayland::{KeyEvent, PointerEvent};

verus! {

broadcast use vstd::std_specs::hash::group_hash_axioms;

/// An emoji or symbol offered by the search panel.
#[derive(Debug, Clone)]
pub struct EmojiItem {
    pub id: String,
    pub text: String,
    pub image_url: Option<String>,
    pub category: String,
}

/// What the search panel searches.
#[derive(Debug, Clone, Copy, PartialEq, Eq, Structural)]
pub enum PanelMode {
    /// Emoji, from the emoji plugins (opened by `;` or the menu).
    Emoji,
    /// Symbols, from the built-in symbol table (opened from the menu).
    Symbols,
}

/// What is open under the candidate bar.
#[derive(Debug, Clone, Copy, PartialEq, Eq, Structural)]
pub enum PanelState {
    Closed,
    /// The menu grid.
    MenuOpen,
    /// The content grid (emoji or symbols).
    ContentOpen,
}

/// The search panel: a query typed character by character, its results
/// laid out in a grid page by page, and a highlight within the page.
#[derive(Debug, Clone)]
pub struct SearchPanel {
    pub active: bool,
    pub mode: PanelMode,
    pub query: String,
    pub items: Vec<EmojiItem>,
    pub highlighted: usize,
    /// Current page, from 0.
    pub page: usize,
    /// Grid columns (fitted to the widest item on each refresh).
    pub columns: usize,
}

/// Items per page for a grid of `columns` columns.
pub open spec fn spec_per_page(columns: nat) -> nat {
    columns * (CONTENT_ROWS as nat)
}

/// Widest estimated rendering width among the items' texts.
pub open spec fn widest(items: Seq<EmojiItem>) -> nat
    decreases items.len(),
{
    if items.len() == 0 {
        0
    } else {
        let w = text_render_width(items.last().text@);
        let rest = widest(items.drop_last());
        if w > rest {
            w
        } else {
            rest
        }
    }
}

proof fn lemma_widest_prefix(items: Seq<EmojiItem>, i: int)
    requires
        0 <= i < items.len(),
    ensures
        widest(items.take(i + 1)) == if text_render_width(items[i].text@) > widest(items.take(i)) {
            text_render_width(items[i].text@)
        } else {
            widest(items.take(i))
        },
{
    assert(items.take(i + 1).drop_last() =~= items.take(i));
}

proof fn lemma_widest_monotone(items: Seq<EmojiItem>, i: int, j: int)
    requires
        0 <= i <= j <= items.len(),
    ensures
        widest(items.take(i)) <= widest(items.take(j)),
    decreases j - i,
{
    if i < j {
        lemma_widest_prefix(items, j - 1);
        lemma_widest_monotone(items, i, j - 1);
    }
}

/// Largest item width for which the panel geometry stays within `u32`.
pub open spec fn max_item_width() -> nat {
    1_000_000
}

/// Column count fitted to the items: the cell is the widest item plus
/// padding (at least 36), as many columns as fit in 660 (4..=10).
pub open spec fn fitted_columns(items: Seq<EmojiItem>) -> nat {
    let widest = widest(items);
    let cell = if widest + 16 >= 36 {
        widest + 16
    } else {
        36
    };
    spec_content_columns(cell)
}

/// Rendered width of the content grid for the items.
pub open spec fn spec_panel_width(items: Seq<EmojiItem>) -> int {
    let widest = widest(items);
    let cell = if widest + 16 >= 36 {
        widest + 16
    } else {
        36
    };
    spec_content_panel_width(cell, spec_content_columns(cell))
}

/// Index of the item a digit key selects: 1..9 pick 0..8, 0 picks 9.
pub open spec fn spec_select_index(keysym: u32) -> Option<usize> {
    if 0x31 <= keysym && keysym <= 0x39 {
        Some((keysym - 0x31) as usize)
    } else if keysym == 0x30 {
        Some(9)
    } else {
        None
    }
}

impl SearchPanel {
    /// The grid holds a page of the items and the highlight lies within
    /// the page (index 0 when the page is empty).
    pub open spec fn wf(&self) -> bool {
        &&& 4 <= self.columns <= 10
        &&& (self.page == 0 || self.page * spec_per_page(self.columns as nat) < self.items@.len())
        &&& self.highlighted < self.spec_page_count()
    }

    /// Items on the current page.
    pub open spec fn spec_page_len(&self) -> nat {
        page_len(self.items@.len(), self.page as nat, spec_per_page(self.columns as nat))
    }

    /// Positions the highlight cycles through: the page's items, or one on an empty page.
    pub open spec fn spec_page_count(&self) -> nat {
        if self.spec_page_len() == 0 {
            1
        } else {
            self.spec_page_len()
        }
    }

    /// Number of pages of results.
    pub open spec fn spec_total_pages(&self) -> nat {
        total_pages(self.items@.len(), spec_per_page(self.columns as nat))
    }

    /// Index in `items` of position `index` of the current page.
    pub open spec fn item_position(&self, index: int) -> int {
        self.page * spec_per_page(self.columns as nat) + index
    }

    /// Text that position `index` of the current page commits, if it holds an item.
    pub open spec fn spec_commit_text(&self, index: int) -> Option<Seq<char>> {
        let p = self.item_position(index);
        if 0 <= p < self.items@.len() {
            Some(self.items@[p].text@)
        } else {
            None
        }
    }

    /// A closed emoji panel with an empty query and ten columns.
    pub fn new() -> (p: Self)
        ensures
            !p.active,
            p.mode == PanelMode::Emoji,
            p.query@.len() == 0,
            p.items@.len() == 0,
            p.highlighted == 0,
            p.page == 0,
            p.columns == 10,
            p.wf(),
    {
        let columns = content_columns_for(crate::menu::CONTENT_ITEM_SIZE);
        SearchPanel {
            active: false,
            mode: PanelMode::Emoji,
            query: String::new(),
            items: Vec::new(),
            highlighted: 0,
            page: 0,
            columns,
        }
    }

    /// Items per page (the grid's capacity).
    pub fn per_page(&self) -> (n: usize)
        requires
            self.columns <= 10,
        ensures
            n == spec_per_page(self.columns as nat),
            n <= 30,
    {
        content_capacity(self.columns)
    }

    /// Rendered width of the content grid (fitted to the widest item).
    pub fn panel_width(&self) -> (w: u32)
        requires
            widest(self.items@) <= max_item_width(),
        ensures
            w == spec_panel_width(self.items@),
            w <= 10_000_300,
    {
        let mut w: u32 = 0;
        let mut i: usize = 0;
        while i < self.items.len()
            invariant
                i <= self.items@.len(),
                w == widest(self.items@.take(i as int)),
                widest(self.items@) <= max_item_width(),
            decreases self.items.len() - i,
        {
            proof {
                lemma_widest_prefix(self.items@, i as int);
                lemma_widest_monotone(self.items@, i as int + 1, self.items@.len() as int);
                assert(self.items@.take(self.items@.len() as int) =~= self.items@);
            }
            let t = content_text_width(self.items[i].text.as_str());
            if t > w {
                w = t;
            }
            i = i + 1;
        }
        assert(self.items@.take(i as int) =~= self.items@);
        let cell = content_cell_width(w);
        let cols = content_columns_for(cell);
        proof {
            assert((cols as u32) as nat == cols);
            assert(spec_content_panel_width(cell as nat, cols as nat) <= 10 * cell + 54)
                by (nonlinear_arith)
                requires
                    4 <= cols <= 10,
            ;
        }
        content_panel_width(cell, cols)
    }

    /// Items on the current page (the last page may be short).
    pub fn page_len(&self) -> (n: usize)
        requires
            self.wf(),
        ensures
            n == self.spec_page_len(),
    {
        let per_page = self.per_page();
        let len = self.items.len();
        proof {
            lemma_page_start_bounded(
                self.items@.len(),
                self.page as nat,
                spec_per_page(self.columns as nat),
            );
        }
        let start = self.page * per_page;
        if start >= self.items.len() {
            0
        } else if self.items.len() - start < per_page {
            self.items.len() - start
        } else {
            per_page
        }
    }

    /// Number of pages of results.
    pub fn total_pages(&self) -> (n: usize)
        requires
            self.wf(),
        ensures
            n == self.spec_total_pages(),
    {
        let per_page = self.per_page();
        if self.items.len() == 0 {
            proof {
                assert((0 + per_page - 1) / (per_page as int) == 0) by (nonlinear_arith)
                    requires
                        per_page > 0,
                ;
            }
            0
        } else {
            proof {
                lemma_ceil_div(self.items@.len(), per_page as nat);
            }
            (self.items.len() - 1) / per_page + 1
        }
    }

    /// Reopens the panel in `mode` with an empty query, the first page and the first item highlighted.
    pub fn open(&mut self, mode: PanelMode)
        requires
            old(self).wf(),
        ensures
            final(self).mode == mode,
            final(self).active,
            final(self).query@.len() == 0,
            final(self).highlighted == 0,
            final(self).page == 0,
            final(self).items == old(self).items,
            final(self).columns == old(self).columns,
            final(self).wf(),
    {
        self.mode = mode;
        self.active = true;
        self.query = String::new();
        self.highlighted = 0;
        self.page = 0;
    }
}

impl Default for SearchPanel {
    fn default() -> (p: Self)
        ensures
            !p.active,
            p.mode == PanelMode::Emoji,
            p.query@.len() == 0,
            p.items@.len() == 0,
            p.highlighted == 0,
            p.page == 0,
            p.columns == 10,
            p.wf(),
    {
        SearchPanel::new()
    }
}

/// Maps a digit key to a page position: 1..9 to 0..8, 0 to 9.
pub fn emoji_select_index(keysym: u32) -> (r: Option<usize>)
    ensures
        r == spec_select_index(keysym),
{
    if 0x31 <= keysym && keysym <= 0x39 {
        Some((keysym - 0x31) as usize)
    } else if keysym == 0x30 {
        Some(9)
    } else {
        None
    }
}

/// The text committed for position `index` of the current page, if it holds an item.
pub fn panel_commit_text(panel: &SearchPanel, index: usize) -> (r: Option<String>)
    requires
        panel.wf(),
    ensures
        match r {
            Some(t) => panel.spec_commit_text(index as int) == Some(t@),
            None => panel.spec_commit_text(index as int) is None,
        },
{
    let per_page = panel.per_page();
    let len = panel.items.len();
    proof {
        lemma_page_start_bounded(
            panel.items@.len(),
            panel.page as nat,
            spec_per_page(panel.columns as nat),
        );
    }
    let offset = panel.page * per_page;
    if offset <= panel.items.len() && index < panel.items.len() - offset {
        Some(panel.items[offset + index].text.clone())
    } else {
        None
    }
}

/// Whether a key event goes on to the focused application: a press that
/// Rime consumed does not, nor does the release of a key whose press was
/// consumed (an orphan release); everything else does.
pub open spec fn spec_should_forward(pressed: bool, result: bool, consumed: Set<u32>, key: u32) -> bool {
    !(result && pressed) && !(!pressed && consumed.contains(key))
}

/// Decides whether a key event is forwarded to the application.
pub fn should_forward_key(pressed: bool, result: bool, consumed_presses: &HashSet<u32>, key: u32) -> (b:
    bool)
    ensures
        b == spec_should_forward(pressed, result, consumed_presses@, key),
{
    let press_consumed = result && pressed;
    let release_of_consumed = !pressed && consumed_presses.contains(&key);
    !press_consumed && !release_of_consumed
}

/// What the loop does after the search panel saw a key.
#[derive(Debug, Clone, PartialEq, Eq)]
pub enum SearchKey {
    /// The panel does not take the key; it goes on through the pipeline.
    Pass,
    /// The panel takes the key; nothing to redraw.
    Consumed,
    /// The panel was just opened: query the items and apply them with
    /// `apply_query_results`; the key is taken when the panel is still
    /// open afterwards, and goes on otherwise.
    Open,
    /// The panel takes the key: query the items again and apply them with `apply_query_results`.
    Refresh,
    /// The panel closed: hide the menu panel and redraw the candidate bar.
    Exit,
    /// The panel takes the key: commit this text (the panel stays open).
    Commit(String),
    /// The panel takes the key: redraw the current page.
    Show,
}

/// Whether the loop must reload the emoji plugins before handing this key
/// to `search_key`: a `;` press while the panel is closed, in Chinese mode
/// with nothing being composed.
pub fn needs_emoji_reload(panel: &SearchPanel, pressed: bool, raw: u32, ascii_mode: bool, composing: bool) -> (b: bool)
    ensures
        b == (pressed && !panel.active && raw == 0x3B && !ascii_mode && !composing),
{
    pressed && !panel.active && raw == 0x3B && !ascii_mode && !composing
}

/// Query length limit when refreshing: three pages of emoji, every symbol.
pub fn query_limit(panel: &SearchPanel) -> (n: usize)
    requires
        panel.columns <= 10,
    ensures
        n == match panel.mode {
            PanelMode::Emoji => 3 * spec_per_page(panel.columns as nat),
            PanelMode::Symbols => usize::MAX as nat,
        },
{
    match panel.mode {
        PanelMode::Emoji => panel.per_page() * 3,
        PanelMode::Symbols => usize::MAX,
    }
}

/// The query without its last character.
fn pop_char(s: &String) -> (r: String)
    ensures
        r@ == if s@.len() == 0 {
            s@
        } else {
            s@.drop_last()
        },
{
    let v = chars_of(s.as_str());
    if v.len() == 0 {
        s.clone()
    } else {
        let w = vstd::slice::slice_subrange(v.as_slice(), 0, v.len() - 1);
        assert(w@ =~= s@.drop_last());
        string_of(w)
    }
}

/// The query with `c` appended.
fn push_char(s: &String, c: char) -> (r: String)
    ensures
        r@ == s@.push(c),
{
    let mut v = chars_of(s.as_str());
    v.push(c);
    string_of(v.as_slice())
}

/// Handles a key while the search panel may be open. Releases go through
/// when the panel is closed and are taken when it is open. With the panel
/// closed, a `;` press opens the emoji panel if an emoji plugin is loaded
/// (`emoji_plugins` counts them), Rime is in Chinese mode (`ascii_mode`
/// off) and nothing is being composed (`composing` off); otherwise `;` goes
/// on as an ordinary key. With the panel open: Escape closes it,
/// BackSpace drops the last query character, Return/KP_Enter/Space commit
/// the highlighted item, `;` commits ";", Tab/Right and Left move the
/// highlight cyclically within the page, Up and Down turn pages, a digit
/// commits the item it selects, another printable ASCII character extends
/// the query, and any other key is taken and ignored.
pub fn search_key(
    panel: &mut SearchPanel,
    panel_state: &mut PanelState,
    pressed: bool,
    raw: u32,
    emoji_plugins: usize,
    ascii_mode: bool,
    composing: bool,
) -> (r: SearchKey)
    requires
        old(panel).wf(),
    ensures
        final(panel).wf(),
        final(panel).items == old(panel).items,
        final(panel).columns == old(panel).columns,
        !(pressed && !old(panel).active && raw == 0x3B && emoji_plugins > 0 && !ascii_mode
            && !composing) ==> final(panel).mode == old(panel).mode,
        !pressed ==> *final(panel) == *old(panel) && *final(panel_state) == *old(panel_state) && r
            == if old(panel).active {
            SearchKey::Consumed
        } else {
            SearchKey::Pass
        },
        pressed && !old(panel).active ==> if raw == 0x3B && emoji_plugins > 0 && !ascii_mode
            && !composing {
            &&& r == SearchKey::Open
            &&& final(panel).active && final(panel).mode == PanelMode::Emoji
            &&& final(panel).query@.len() == 0 && final(panel).page == 0
                && final(panel).highlighted == 0
            &&& *final(panel_state) == PanelState::ContentOpen
        } else {
            r == SearchKey::Pass && *final(panel) == *old(panel) && *final(panel_state) == *old(panel_state)
        },
        pressed && old(panel).active ==> {
            let o = *old(panel);
            let f = *final(panel);
            if raw == 0xFF1B {
                &&& r == SearchKey::Exit
                &&& !f.active && *final(panel_state) == PanelState::Closed
                &&& f.query == o.query && f.page == o.page && f.highlighted == o.highlighted
            } else if raw == 0xFF08 {
                &&& r == SearchKey::Refresh
                &&& f.query@ == if o.query@.len() == 0 {
                    o.query@
                } else {
                    o.query@.drop_last()
                }
                &&& f.active && f.page == o.page && f.highlighted == o.highlighted
                &&& *final(panel_state) == *old(panel_state)
            } else if raw == 0xFF0D || raw == 0xFF8D || raw == 0x20 {
                &&& f == o && *final(panel_state) == *old(panel_state)
                &&& match o.spec_commit_text(o.highlighted as int) {
                    Some(t) => r matches SearchKey::Commit(s) && s@ == t,
                    None => r == SearchKey::Consumed,
                }
            } else if raw == 0x3B {
                &&& f == o && *final(panel_state) == *old(panel_state)
                &&& r matches SearchKey::Commit(s) && s@ == ";"@
            } else if raw == 0xFF09 || raw == 0xFF53 {
                &&& r == SearchKey::Show
                &&& f.highlighted == (o.highlighted + 1) % (o.spec_page_count() as int)
                &&& f.page == o.page && f.query == o.query && f.active
                &&& *final(panel_state) == *old(panel_state)
            } else if raw == 0xFF51 {
                &&& r == SearchKey::Show
                &&& f.highlighted == (o.highlighted + o.spec_page_count() - 1) % (
                o.spec_page_count() as int)
                &&& f.page == o.page && f.query == o.query && f.active
                &&& *final(panel_state) == *old(panel_state)
            } else if raw == 0xFF52 {
                &&& f.query == o.query && f.active && *final(panel_state) == *old(panel_state)
                &&& if o.page > 0 {
                    r == SearchKey::Show && f.page == o.page - 1 && f.highlighted == 0
                } else {
                    r == SearchKey::Consumed && f == o
                }
            } else if raw == 0xFF54 {
                &&& f.query == o.query && f.active && *final(panel_state) == *old(panel_state)
                &&& if o.page + 1 < o.spec_total_pages() {
                    r == SearchKey::Show && f.page == o.page + 1 && f.highlighted == 0
                } else {
                    r == SearchKey::Consumed && f == o
                }
            } else if spec_select_index(raw) is Some {
                &&& f == o && *final(panel_state) == *old(panel_state)
                &&& match o.spec_commit_text(spec_select_index(raw)->0 as int) {
                    Some(t) => r matches SearchKey::Commit(s) && s@ == t,
                    None => r == SearchKey::Consumed,
                }
            } else if 0x20 <= raw && raw < 0x7F {
                &&& r == SearchKey::Refresh
                &&& f.query@ == o.query@.push(raw as char)
                &&& f.highlighted == 0 && f.page == o.page && f.active
                &&& *final(panel_state) == *old(panel_state)
            } else {
                r == SearchKey::Consumed && f == o && *final(panel_state) == *old(panel_state)
            }
        },
{
    if !pressed {
        return if panel.active {
            SearchKey::Consumed
        } else {
            SearchKey::Pass
        };
    }
    if !panel.active {
        if raw == 0x3B && !ascii_mode && !composing {
            if emoji_plugins == 0 {
                return SearchKey::Pass;
            }
            panel.open(PanelMode::Emoji);
            *panel_state = PanelState::ContentOpen;
            return SearchKey::Open;
        }
        return SearchKey::Pass;
    }
    if raw == 0xFF1B {
        panel.active = false;
        *panel_state = PanelState::Closed;
        SearchKey::Exit
    } else if raw == 0xFF08 {
        let q = pop_char(&panel.query);
        panel.query = q;
        SearchKey::Refresh
    } else if raw == 0xFF0D || raw == 0xFF8D || raw == 0x20 {
        match panel_commit_text(panel, panel.highlighted) {
            Some(t) => SearchKey::Commit(t),
            None => SearchKey::Consumed,
        }
    } else if raw == 0x3B {
        SearchKey::Commit(owned(";"))
    } else if raw == 0xFF09 || raw == 0xFF53 {
        let n = panel.page_len();
        let count = if n > 1 {
            n
        } else {
            1
        };
        panel.highlighted = (panel.highlighted + 1) % count;
        SearchKey::Show
    } else if raw == 0xFF51 {
        let n = panel.page_len();
        let count = if n > 1 {
            n
        } else {
            1
        };
        panel.highlighted = (panel.highlighted + count - 1) % count;
        SearchKey::Show
    } else if raw == 0xFF52 {
        if panel.page > 0 {
            proof {
                let pp = spec_per_page(panel.columns as nat);
                assert((panel.page - 1) * pp <= panel.page * pp) by (nonlinear_arith)
                    requires
                        panel.page >= 1,
                ;
            }
            panel.page = panel.page - 1;
            panel.highlighted = 0;
            SearchKey::Show
        } else {
            SearchKey::Consumed
        }
    } else if raw == 0xFF54 {
        let total = panel.total_pages();
        let len = panel.items.len();
        proof {
            let pp = spec_per_page(panel.columns as nat);
            assert(panel.page <= panel.page * pp) by (nonlinear_arith)
                requires
                    pp >= 1,
            ;
        }
        if panel.page + 1 < total {
            proof {
                crate::candidate::lemma_next_page_in_range(
                    panel.items@.len(),
                    panel.page as nat,
                    spec_per_page(panel.columns as nat),
                );
            }
            panel.page = panel.page + 1;
            panel.highlighted = 0;
            SearchKey::Show
        } else {
            SearchKey::Consumed
        }
    } else if let Some(index) = emoji_select_index(raw) {
        match panel_commit_text(panel, index) {
            Some(t) => SearchKey::Commit(t),
            None => SearchKey::Consumed,
        }
    } else if 0x20 <= raw && raw < 0x7F {
        let q = push_char(&panel.query, (raw as u8) as char);
        panel.query = q;
        panel.highlighted = 0;
        SearchKey::Refresh
    } else {
        SearchKey::Consumed
    }
}

/// Installs the result of a query: the items, columns fitted to the
/// widest, first page, first item highlighted. An empty result closes the
/// panel (hide the menu panel and redraw the candidate bar; returns
/// false); otherwise the loop shows the content grid (returns true).
pub fn apply_query_results(
    panel: &mut SearchPanel,
    panel_state: &mut PanelState,
    items: Vec<EmojiItem>,
) -> (shown: bool)
    requires
        widest(items@) <= max_item_width(),
    ensures
        final(panel).items@ == items@,
        final(panel).columns == fitted_columns(items@),
        final(panel).page == 0,
        final(panel).highlighted == 0,
        final(panel).query == old(panel).query,
        final(panel).mode == old(panel).mode,
        final(panel).wf(),
        shown == (items@.len() > 0),
        shown ==> final(panel).active == old(panel).active && *final(panel_state) == *old(panel_state),
        !shown ==> !final(panel).active && *final(panel_state) == PanelState::Closed,
{
    panel.items = items;
    let mut widest_w: u32 = 0;
    let mut i: usize = 0;
    while i < panel.items.len()
        invariant
            i <= panel.items@.len(),
            widest_w == widest(panel.items@.take(i as int)),
            widest(panel.items@) <= max_item_width(),
        decreases panel.items.len() - i,
    {
        proof {
            lemma_widest_prefix(panel.items@, i as int);
            lemma_widest_monotone(panel.items@, i as int + 1, panel.items@.len() as int);
            assert(panel.items@.take(panel.items@.len() as int) =~= panel.items@);
        }
        let t = content_text_width(panel.items[i].text.as_str());
        if t > widest_w {
            widest_w = t;
        }
        i = i + 1;
    }
    assert(panel.items@.take(i as int) =~= panel.items@);
    let cell = content_cell_width(widest_w);
    panel.columns = content_columns_for(cell);
    panel.page = 0;
    panel.highlighted = 0;
    if panel.items.len() == 0 {
        panel.active = false;
        *panel_state = PanelState::Closed;
        false
    } else {
        true
    }
}

/// Input mode shown by the tray icon.
#[derive(Debug, Clone, Copy, PartialEq, Eq, Structural)]
pub enum InputMode {
    Chinese,
    English,
}

/// Tray mode for an ASCII-mode flag: English in ASCII mode, Chinese otherwise.
pub open spec fn mode_for_ascii(ascii: bool) -> InputMode {
    if ascii {
        InputMode::English
    } else {
        InputMode::Chinese
    }
}

/// Whether a keysym is a Control key (Control_L or Control_R).
pub open spec fn spec_is_ctrl_keysym(raw: u32) -> bool {
    raw == 0xFFE3 || raw == 0xFFE4
}

/// Whether a keysym is Shift_L, Shift_R, Alt_L or Alt_R.
pub open spec fn spec_is_shift_or_alt_keysym(raw: u32) -> bool {
    raw == 0xFFE1 || raw == 0xFFE2 || raw == 0xFFE9 || raw == 0xFFEA
}

/// Whether a keysym is a Control key.
pub fn is_ctrl_keysym(raw: u32) -> (b: bool)
    ensures
        b == spec_is_ctrl_keysym(raw),
{
    raw == 0xFFE3 || raw == 0xFFE4
}

/// The consumed-press set after Rime handled a key: a consumed press is
/// recorded, any other event for the key clears it.
pub open spec fn consumed_after(consumed: Set<u32>, pressed: bool, result: bool, key: u32) -> Set<
    u32,
> {
    if result && pressed {
        consumed.insert(key)
    } else {
        consumed.remove(key)
    }
}

/// What the loop does after the Ctrl+Space gate saw a key.
#[derive(Debug, Clone, Copy, PartialEq, Eq, Structural)]
pub enum KeyGate {
    /// Ctrl+Space turned the input method on; the key is taken.
    Enabled,
    /// Ctrl+Space turned the input method off; the key is taken. The loop
    /// drops the composition, clears the preedit, hides the candidate bar,
    /// the menu panel and the root window, and shows English in the tray.
    Disabled,
    /// The input method is off: forward the key to the application.
    Forward,
    /// The input method is off and this is the release of a press it took: drop it.
    Swallow,
    /// The key goes on to the input method.
    Continue,
}

/// What the loop does for a Control key while the candidate bar is shown.
#[derive(Debug, Clone, Copy, PartialEq, Eq, Structural)]
pub enum CtrlKey {
    /// Look up the radicals of this letter's key in the current schema and,
    /// when found and shown, set `ctrl_root_visible`.
    ShowRoot(char),
    /// Hide the root window and redraw the candidate bar from Rime's menu.
    RestoreCandidates,
    /// Nothing to do.
    Nothing,
}

/// What the loop does after a focus change.
#[derive(Debug, Clone, Copy, PartialEq, Eq, Structural)]
pub enum FocusChange {
    Unchanged,
    /// Focus gained: show the tray icon.
    Activated,
    /// Focus lost: hide the tray icon, the candidate bar, the menu panel
    /// and the root window.
    Deactivated,
}

/// What the loop does after a pointer press.
#[derive(Debug, Clone, PartialEq, Eq)]
pub enum PointerAction {
    Ignore,
    /// Commit this text (the content grid stays open).
    Commit(String),
    /// Show the menu panel; once shown set `panel_state` to `MenuOpen` and redraw the candidate bar.
    ShowMenu,
    /// Hide the menu panel and redraw the candidate bar.
    CloseMenu,
    /// An entry that is not available was clicked: keep the menu open.
    KeepMenu,
    /// The emoji entry was clicked and the menu closed: hide the menu
    /// panel, reload the emoji plugins and call `open_emoji`.
    OpenEmoji,
    /// The symbols entry was clicked: hide the menu panel, then query the
    /// symbols and apply them with `apply_query_results`.
    OpenSymbols,
}

/// The daemon loop's input state.
pub struct ImeState {
    /// Whether the input method is on (Ctrl+Space toggles it).
    pub im_enabled: bool,
    /// Keys whose press was taken, so that their release is not forwarded.
    pub consumed_presses: HashSet<u32>,
    /// The last letter key Rime took (for the Ctrl radical display).
    pub last_input_keysym: Option<u32>,
    pub ctrl_root_visible: bool,
    pub candidate_window_visible: bool,
    pub panel_state: PanelState,
    pub search_panel: SearchPanel,
    pub last_ascii_mode: bool,
    pub last_active: bool,
    /// Natural width of the candidate bar last drawn (for hit testing).
    pub last_panel_width: u32,
}

impl ImeState {
    /// The UI is hidden and reset: no candidate bar, no panel, no root
    /// window, no remembered key.
    pub open spec fn ui_reset(&self) -> bool {
        &&& !self.candidate_window_visible
        &&& !self.search_panel.active
        &&& self.panel_state == PanelState::Closed
        &&& !self.ctrl_root_visible
        &&& self.last_input_keysym is None
        &&& self.consumed_presses@ == Set::<u32>::empty()
    }

    /// The state at start-up: input method on, nothing shown.
    pub fn new() -> (s: Self)
        ensures
            s.im_enabled,
            s.ui_reset(),
            !s.last_ascii_mode,
            !s.last_active,
            s.last_panel_width == 0,
            s.search_panel.wf(),
    {
        ImeState {
            im_enabled: true,
            consumed_presses: HashSet::new(),
            last_input_keysym: None,
            ctrl_root_visible: false,
            candidate_window_visible: false,
            panel_state: PanelState::Closed,
            search_panel: SearchPanel::new(),
            last_ascii_mode: false,
            last_active: false,
            last_panel_width: 0,
        }
    }

    /// Every field but the consumed-press set: `im_enabled`,
    /// `last_input_keysym`, `ctrl_root_visible`, `candidate_window_visible`,
    /// `panel_state`, `search_panel`, `last_ascii_mode`, `last_active` and
    /// `last_panel_width`.
    pub open spec fn others(&self) -> (bool, Option<u32>, bool, bool, PanelState, SearchPanel, bool, bool, u32) {
        (
            self.im_enabled,
            self.last_input_keysym,
            self.ctrl_root_visible,
            self.candidate_window_visible,
            self.panel_state,
            self.search_panel,
            self.last_ascii_mode,
            self.last_active,
            self.last_panel_width,
        )
    }

    /// The fields but the consumed-press set after the UI is reset: no
    /// candidate bar, panel or root window, no remembered key; the rest kept.
    pub open spec fn others_after_reset(&self) -> (bool, Option<u32>, bool, bool, PanelState, SearchPanel, bool, bool, u32) {
        (
            self.im_enabled,
            None,
            false,
            false,
            PanelState::Closed,
            SearchPanel { active: false, ..self.search_panel },
            self.last_ascii_mode,
            self.last_active,
            self.last_panel_width,
        )
    }

    fn reset_ui(&mut self)
        ensures
            final(self).ui_reset(),
            final(self).others() == old(self).others_after_reset(),
    {
        self.candidate_window_visible = false;
        self.search_panel.active = false;
        self.panel_state = PanelState::Closed;
        self.ctrl_root_visible = false;
        self.last_input_keysym = None;
        self.consumed_presses.clear();
    }

    /// The Ctrl+Space gate, first stop of every key: a Ctrl+Space press
    /// toggles the input method (turning it off resets the UI) and is
    /// taken; while the input method is off, presses and unrecorded
    /// releases are forwarded and the release of a recorded press is
    /// dropped (and forgotten).
    pub fn gate_key(&mut self, event: KeyEvent, sym_raw: u32, ctrl: bool) -> (g: KeyGate)
        ensures
            final(self).search_panel.wf() == old(self).search_panel.wf(),
            final(self).search_panel.items == old(self).search_panel.items,
            final(self).search_panel.columns == old(self).search_panel.columns,
            final(self).last_ascii_mode == old(self).last_ascii_mode,
            final(self).last_active == old(self).last_active,
            final(self).last_panel_width == old(self).last_panel_width,
            final(self).others() == if !(event.pressed && ctrl && sym_raw == 0x20) {
                old(self).others()
            } else if old(self).im_enabled {
                (ImeState { im_enabled: false, ..*old(self) }).others_after_reset()
            } else {
                (ImeState { im_enabled: true, ..*old(self) }).others()
            },
            event.pressed && ctrl && sym_raw == 0x20 ==> {
                &&& final(self).im_enabled == !old(self).im_enabled
                &&& g == if old(self).im_enabled {
                    KeyGate::Disabled
                } else {
                    KeyGate::Enabled
                }
                &&& old(self).im_enabled ==> final(self).ui_reset_but(event.key)
                &&& !old(self).im_enabled ==> final(self).consumed_presses@ == old(self).consumed_presses@.insert(event.key)
                    && final(self).panel_state == old(self).panel_state
                    && final(self).search_panel.active == old(self).search_panel.active
            },
            !(event.pressed && ctrl && sym_raw == 0x20) ==> {
                &&& final(self).im_enabled == old(self).im_enabled
                &&& final(self).panel_state == old(self).panel_state
                &&& final(self).search_panel == old(self).search_panel
                &&& if old(self).im_enabled {
                    g == KeyGate::Continue && final(self).consumed_presses@ == old(self).consumed_presses@
                } else if event.pressed || !old(self).consumed_presses@.contains(event.key) {
                    g == KeyGate::Forward && final(self).consumed_presses@ == old(self).consumed_presses@
                } else {
                    g == KeyGate::Swallow && final(self).consumed_presses@ == old(self).consumed_presses@.remove(event.key)
                }
            },
    {
        if event.pressed && ctrl && sym_raw == 0x20 {
            self.im_enabled = !self.im_enabled;
            let g = if self.im_enabled {
                KeyGate::Enabled
            } else {
                self.reset_ui();
                KeyGate::Disabled
            };
            self.consumed_presses.insert(event.key);
            return g;
        }
        if !self.im_enabled {
            if event.pressed || !self.consumed_presses.contains(&event.key) {
                return KeyGate::Forward;
            } else {
                self.consumed_presses.remove(&event.key);
                return KeyGate::Swallow;
            }
        }
        KeyGate::Continue
    }

    /// The UI is reset except that `key`'s press is recorded.
    pub open spec fn ui_reset_but(&self, key: u32) -> bool {
        &&& !self.candidate_window_visible
        &&& !self.search_panel.active
        &&& self.panel_state == PanelState::Closed
        &&& !self.ctrl_root_visible
        &&& self.last_input_keysym is None
        &&& self.consumed_presses@ == Set::<u32>::empty().insert(key)
    }

    /// A key press other than a Control, Shift or Alt key closes an open
    /// menu panel (the loop hides it and redraws the candidate bar when
    /// this returns true); the key then goes on.
    pub fn close_menu_on_key(&mut self, pressed: bool, sym_raw: u32) -> (closed: bool)
        ensures
            closed == (pressed && old(self).panel_state == PanelState::MenuOpen
                && !spec_is_ctrl_keysym(sym_raw) && !spec_is_shift_or_alt_keysym(sym_raw)),
            closed ==> final(self).panel_state == PanelState::Closed,
            !closed ==> final(self).panel_state == old(self).panel_state,
            *final(self) == (ImeState { panel_state: final(self).panel_state, ..*old(self) }),
            final(self).search_panel == old(self).search_panel,
            final(self).consumed_presses@ == old(self).consumed_presses@,
            final(self).im_enabled == old(self).im_enabled,
            final(self).last_input_keysym == old(self).last_input_keysym,
            final(self).ctrl_root_visible == old(self).ctrl_root_visible,
    {
        let is_ctrl = is_ctrl_keysym(sym_raw);
        if pressed && self.panel_state == PanelState::MenuOpen && !is_ctrl && !(sym_raw == 0xFFE1
            || sym_raw == 0xFFE2 || sym_raw == 0xFFE9 || sym_raw == 0xFFEA) {
            self.panel_state = PanelState::Closed;
            true
        } else {
            false
        }
    }

    /// A Control key while the candidate bar is shown (the key is always
    /// taken): pressing Control alone, after a letter key that Rime took,
    /// asks for that letter's radicals; releasing it while they are shown
    /// hides them and restores the candidates.
    pub fn ctrl_key(
        &mut self,
        pressed: bool,
        ctrl: bool,
        alt: bool,
        shift: bool,
        super_key: bool,
    ) -> (a: CtrlKey)
        ensures
            pressed ==> final(self).ctrl_root_visible == old(self).ctrl_root_visible && a == if ctrl
                && !alt && !shift && !super_key && old(self).last_input_keysym is Some
                && spec_keysym_letter(old(self).last_input_keysym->0) is Some {
                CtrlKey::ShowRoot(spec_keysym_letter(old(self).last_input_keysym->0)->0)
            } else {
                CtrlKey::Nothing
            },
            !pressed ==> if old(self).ctrl_root_visible {
                a == CtrlKey::RestoreCandidates && !final(self).ctrl_root_visible
            } else {
                a == CtrlKey::Nothing && !final(self).ctrl_root_visible
            },
            *final(self) == if pressed {
                *old(self)
            } else {
                ImeState { ctrl_root_visible: false, ..*old(self) }
            },
            final(self).search_panel == old(self).search_panel,
            final(self).panel_state == old(self).panel_state,
            final(self).consumed_presses@ == old(self).consumed_presses@,
            final(self).im_enabled == old(self).im_enabled,
            final(self).last_input_keysym == old(self).last_input_keysym,
    {
        if pressed {
            if ctrl && !alt && !shift && !super_key {
                if let Some(last_key) = self.last_input_keysym {
                    if let Some(letter) = crate::keys::keysym_to_letter(last_key) {
                        return CtrlKey::ShowRoot(letter);
                    }
                }
            }
            CtrlKey::Nothing
        } else if self.ctrl_root_visible {
            self.ctrl_root_visible = false;
            CtrlKey::RestoreCandidates
        } else {
            CtrlKey::Nothing
        }
    }

    /// Bookkeeping after Rime processed a key (`result` tells whether Rime
    /// took it): a taken letter press is remembered for the radical
    /// display, the consumed-press set is updated, and the return value
    /// tells whether the loop forwards the key to the application.
    pub fn after_rime(&mut self, event: KeyEvent, sym_raw: u32, result: bool) -> (forward: bool)
        ensures
            forward == spec_should_forward(
                event.pressed,
                result,
                old(self).consumed_presses@,
                event.key,
            ),
            final(self).consumed_presses@ == consumed_after(
                old(self).consumed_presses@,
                event.pressed,
                result,
                event.key,
            ),
            final(self).last_input_keysym == if result && event.pressed && spec_keysym_letter(
                sym_raw,
            ) is Some {
                Some(sym_raw)
            } else {
                old(self).last_input_keysym
            },
            final(self).others() == (ImeState {
                last_input_keysym: final(self).last_input_keysym,
                ..*old(self)
            }).others(),
            final(self).search_panel == old(self).search_panel,
            final(self).panel_state == old(self).panel_state,
            final(self).im_enabled == old(self).im_enabled,
            final(self).ctrl_root_visible == old(self).ctrl_root_visible,
    {
        if result && event.pressed {
            if crate::keys::keysym_to_letter(sym_raw).is_some() {
                self.last_input_keysym = Some(sym_raw);
            }
        }
        let forward = should_forward_key(event.pressed, result, &self.consumed_presses, event.key);
        if result && event.pressed {
            self.consumed_presses.insert(event.key);
        } else {
            self.consumed_presses.remove(&event.key);
        }
        forward
    }

    /// Records Rime's ASCII mode after a key; returns the tray mode to show when it changed.
    pub fn ascii_mode_seen(&mut self, is_ascii: bool) -> (m: Option<InputMode>)
        ensures
            final(self).last_ascii_mode == is_ascii,
            *final(self) == (ImeState { last_ascii_mode: is_ascii, ..*old(self) }),
            m == if is_ascii != old(self).last_ascii_mode {
                Some(mode_for_ascii(is_ascii))
            } else {
                None
            },
    {
        if is_ascii != self.last_ascii_mode {
            self.last_ascii_mode = is_ascii;
            Some(if is_ascii {
                InputMode::English
            } else {
                InputMode::Chinese
            })
        } else {
            None
        }
    }

    /// Records the ASCII mode after an explicit mode toggle; returns the tray mode to show.
    pub fn mode_toggled(&mut self, new_ascii: bool) -> (m: InputMode)
        ensures
            final(self).last_ascii_mode == new_ascii,
            *final(self) == (ImeState { last_ascii_mode: new_ascii, ..*old(self) }),
            m == mode_for_ascii(new_ascii),
    {
        self.last_ascii_mode = new_ascii;
        if new_ascii {
            InputMode::English
        } else {
            InputMode::Chinese
        }
    }

    /// Records whether the input context is active. Losing focus resets
    /// the UI so that no stale candidate bar covers the next input field.
    pub fn focus_seen(&mut self, is_active: bool) -> (c: FocusChange)
        ensures
            final(self).last_active == is_active,
            final(self).im_enabled == old(self).im_enabled,
            is_active == old(self).last_active ==> c == FocusChange::Unchanged
                && final(self).consumed_presses@ == old(self).consumed_presses@
                && final(self).panel_state == old(self).panel_state
                && final(self).search_panel == old(self).search_panel,
            is_active != old(self).last_active && is_active ==> c == FocusChange::Activated
                && final(self).consumed_presses@ == old(self).consumed_presses@
                && final(self).panel_state == old(self).panel_state
                && final(self).search_panel == old(self).search_panel,
            is_active != old(self).last_active && !is_active ==> c == FocusChange::Deactivated
                && final(self).ui_reset(),
            is_active == old(self).last_active ==> *final(self) == *old(self),
            is_active != old(self).last_active && is_active ==> *final(self) == (ImeState {
                last_active: true,
                ..*old(self)
            }),
            is_active != old(self).last_active && !is_active ==> final(self).others() == (ImeState {
                last_active: false,
                ..*old(self)
            }).others_after_reset(),
            final(self).search_panel.wf() == old(self).search_panel.wf(),
    {
        if is_active != self.last_active {
            self.last_active = is_active;
            if !is_active {
                self.reset_ui();
                return FocusChange::Deactivated;
            }
            return FocusChange::Activated;
        }
        FocusChange::Unchanged
    }

    /// After the menu's emoji entry was clicked and the emoji plugins
    /// reloaded: opens the emoji grid when a plugin is loaded (the loop then
    /// queries and applies the items; returns true), or leaves everything
    /// closed (the loop redraws the candidate bar; returns false).
    pub fn open_emoji(&mut self, emoji_plugins: usize) -> (opened: bool)
        requires
            old(self).search_panel.wf(),
        ensures
            final(self).search_panel.wf(),
            opened == (emoji_plugins > 0),
            opened ==> final(self).search_panel.active && final(self).search_panel.mode
                == PanelMode::Emoji && final(self).panel_state == PanelState::ContentOpen,
            opened ==> final(self).search_panel.query@.len() == 0 && final(self).search_panel.page == 0
                && final(self).search_panel.highlighted == 0 && final(self).search_panel.items
                == old(self).search_panel.items && final(self).search_panel.columns
                == old(self).search_panel.columns,
            *final(self) == (ImeState {
                search_panel: final(self).search_panel,
                panel_state: final(self).panel_state,
                ..*old(self)
            }),
            !opened ==> final(self).search_panel == old(self).search_panel && final(self).panel_state == old(self).panel_state,
    {
        if emoji_plugins == 0 {
            return false;
        }
        self.search_panel.open(PanelMode::Emoji);
        self.panel_state = PanelState::ContentOpen;
        true
    }

    /// Handles a pointer press. Only left-button presses count. With the
    /// content grid open, a click on an item commits it and a click on the
    /// menu button goes back to the menu. With the menu open, a click in
    /// the panel picks the entry under it (an unavailable entry keeps the
    /// menu open; a click beside the entries closes the menu) and a click
    /// on the menu button closes it. With nothing open, a click on the menu
    /// button opens the menu.
    pub fn pointer_press(&mut self, pe: PointerEvent) -> (a: PointerAction)
        requires
            old(self).search_panel.wf(),
            widest(old(self).search_panel.items@) <= max_item_width(),
            (old(self).last_panel_width as i32) - MENU_BUTTON_WIDTH >= i32::MIN,
            old(self).panel_state == PanelState::ContentOpen ==> {
                let sp = old(self).search_panel;
                let w = if spec_panel_width(sp.items@) > old(self).last_panel_width {
                    spec_panel_width(sp.items@)
                } else {
                    old(self).last_panel_width as int
                };
                crate::menu::content_cell(pe.x as int, pe.y as int, (w as u32 as i32) as int, sp.columns as int) is Some
                    ==> pe.x * sp.columns <= usize::MAX
            },
        ensures
            final(self).search_panel.wf(),
            *final(self) == (ImeState {
                search_panel: final(self).search_panel,
                panel_state: final(self).panel_state,
                ..*old(self)
            }),
            !(pe.button == 272 && pe.pressed) ==> a == PointerAction::Ignore && final(self).panel_state == old(self).panel_state && final(self).search_panel == old(self).search_panel,
            pe.button == 272 && pe.pressed && old(self).panel_state == PanelState::ContentOpen ==> {
                let sp = old(self).search_panel;
                let w = if spec_panel_width(sp.items@) > old(self).last_panel_width {
                    spec_panel_width(sp.items@)
                } else {
                    old(self).last_panel_width as int
                };
                &&& final(self).panel_state == old(self).panel_state
                &&& final(self).search_panel == old(self).search_panel
                &&& match spec_content_item_hit(
                    pe.x as int,
                    pe.y as int,
                    (w as u32 as i32) as int,
                    sp.columns as int,
                    sp.spec_page_len() as int,
                ) {
                    Some(idx) => match sp.spec_commit_text(idx as int) {
                        Some(t) => a matches PointerAction::Commit(s) && s@ == t,
                        None => a == PointerAction::Ignore,
                    },
                    None => a == if pe.x >= (w as u32 as i32) - MENU_BUTTON_WIDTH && pe.x < (
                    w as u32 as i32) && 0 <= pe.y < CANDIDATE_HEIGHT {
                        PointerAction::ShowMenu
                    } else {
                        PointerAction::Ignore
                    },
                }
            },
            pe.button == 272 && pe.pressed && old(self).panel_state == PanelState::MenuOpen ==> {
                let lw = (old(self).last_panel_width as i32) as int;
                if pe.y >= CANDIDATE_HEIGHT {
                    match spec_menu_item_hit(pe.x as int, pe.y as int, lw) {
                        Some(action) => if !(action is Emoji || action is Symbols) {
                            a == PointerAction::KeepMenu && final(self).panel_state == old(self).panel_state && final(self).search_panel == old(self).search_panel
                        } else if action is Emoji {
                            a == PointerAction::OpenEmoji && final(self).panel_state
                                == PanelState::Closed && final(self).search_panel == old(self).search_panel
                        } else {
                            &&& a == PointerAction::OpenSymbols
                            &&& final(self).panel_state == PanelState::ContentOpen
                            &&& final(self).search_panel.active
                            &&& final(self).search_panel.mode == PanelMode::Symbols
                            &&& final(self).search_panel.query@.len() == 0
                            &&& final(self).search_panel.page == 0
                            &&& final(self).search_panel.highlighted == 0
                            &&& final(self).search_panel.items == old(self).search_panel.items
                            &&& final(self).search_panel.columns == old(self).search_panel.columns
                        },
                        None => a == PointerAction::CloseMenu && final(self).panel_state
                            == PanelState::Closed && final(self).search_panel == old(self).search_panel,
                    }
                } else if pe.x >= lw - MENU_BUTTON_WIDTH && pe.x < lw && 0 <= pe.y {
                    a == PointerAction::CloseMenu && final(self).panel_state == PanelState::Closed
                        && final(self).search_panel == old(self).search_panel
                } else {
                    a == PointerAction::Ignore && final(self).panel_state == old(self).panel_state
                        && final(self).search_panel == old(self).search_panel
                }
            },
            pe.button == 272 && pe.pressed && old(self).panel_state == PanelState::Closed ==> {
                let lw = (old(self).last_panel_width as i32) as int;
                &&& final(self).panel_state == old(self).panel_state
                &&& final(self).search_panel == old(self).search_panel
                &&& a == if pe.x >= lw - MENU_BUTTON_WIDTH && pe.x < lw && 0 <= pe.y
                    < CANDIDATE_HEIGHT {
                    PointerAction::ShowMenu
                } else {
                    PointerAction::Ignore
                }
            },
    {
        if !(pe.button == 272 && pe.pressed) {
            return PointerAction::Ignore;
        }
        match self.panel_state {
            PanelState::ContentOpen => {
                let pw = self.search_panel.panel_width();
                let width = if pw > self.last_panel_width {
                    pw
                } else {
                    self.last_panel_width
                };
                let page_len = self.search_panel.page_len();
                proof {
                    let cols = self.search_panel.columns as int;
                    let wi = (width as i32) as int;
                    if let Some((row, col)) = crate::menu::content_cell(pe.x as int, pe.y as int, wi, cols) {
                        assert(0 <= row < 3);
                        assert(0 <= col < cols) by (nonlinear_arith)
                            requires
                                col == (pe.x * cols) / wi,
                                0 <= pe.x < wi,
                                cols >= 4,
                        ;
                        assert(row * cols + col <= 30) by (nonlinear_arith)
                            requires
                                0 <= row < 3,
                                0 <= col < cols,
                                cols <= 10,
                        ;
                    }
                }
                if let Some(idx) = content_item_hit(
                    pe.x,
                    pe.y,
                    width,
                    self.search_panel.columns,
                    page_len,
                ) {
                    return match panel_commit_text(&self.search_panel, idx) {
                        Some(t) => PointerAction::Commit(t),
                        None => PointerAction::Ignore,
                    };
                }
                if menu_button_hit(pe.x, pe.y, width) {
                    PointerAction::ShowMenu
                } else {
                    PointerAction::Ignore
                }
            },
            PanelState::MenuOpen => {
                if pe.y >= CANDIDATE_HEIGHT as i32 {
                    if let Some(action) = menu_item_hit(pe.x, pe.y, self.last_panel_width) {
                        if !action.is_available() {
                            return PointerAction::KeepMenu;
                        }
                        self.panel_state = PanelState::Closed;
                        match action {
                            MenuAction::Emoji => PointerAction::OpenEmoji,
                            _ => {
                                self.search_panel.open(PanelMode::Symbols);
                                self.panel_state = PanelState::ContentOpen;
                                PointerAction::OpenSymbols
                            },
                        }
                    } else {
                        self.panel_state = PanelState::Closed;
                        PointerAction::CloseMenu
                    }
                } else if menu_button_hit(pe.x, pe.y, self.last_panel_width) {
                    self.panel_state = PanelState::Closed;
                    PointerAction::CloseMenu
                } else {
                    PointerAction::Ignore
                }
            },
            PanelState::Closed => {
                if menu_button_hit(pe.x, pe.y, self.last_panel_width) {
                    PointerAction::ShowMenu
                } else {
                    PointerAction::Ignore
                }
            },
        }
    }
}

/// A key press that Rime takes is recorded, so the release of that key is
/// not forwarded (no orphan release reaches the application), whatever Rime
/// answers for the release.
pub proof fn lemma_consumed_press_release_suppressed(consumed: Set<u32>, key: u32, release_result: bool)
    ensures
        !spec_should_forward(false, release_result, consumed_after(consumed, true, true, key), key),
{
}

/// The release of a key clears its record, so the next press of that key
/// that Rime does not take is forwarded.
pub proof fn lemma_release_clears_record(consumed: Set<u32>, key: u32, release_result: bool)
    ensures
        !consumed_after(consumed, false, release_result, key).contains(key),
        spec_should_forward(true, false, consumed_after(consumed, false, release_result, key), key),
{
}

/// Records of other keys are untouched: suppressing one key's release
/// never affects another key.
pub proof fn lemma_other_keys_unaffected(
    consumed: Set<u32>,
    key: u32,
    other: u32,
    pressed: bool,
    result: bool,
)
    requires
        key != other,
    ensures
        consumed_after(consumed, pressed, result, key).contains(other) == consumed.contains(other),
{
}

/// In the search panel, Left undoes Right (and Tab): the highlight moves
/// cyclically within the page.
pub proof fn lemma_left_undoes_right(h: int, n: int)
    requires
        0 <= h < n,
    ensures
        (((h + 1) % n) + n - 1) % n == h,
        0 <= (h + 1) % n < n,
{

    if h + 1 < n {
        vstd::arithmetic::div_mod::lemma_small_mod((h + 1) as nat, n as nat);
        vstd::arithmetic::div_mod::lemma_small_mod(h as nat, n as nat);
        assert((h + n) % n == h % n) by {
            vstd::arithmetic::div_mod::lemma_mod_add_multiples_vanish(h, n);
        }
    } else {
        assert((h + 1) % n == 0) by {
            vstd::arithmetic::div_mod::lemma_mod_self_0(n);
        }
        vstd::arithmetic::div_mod::lemma_small_mod((n - 1) as nat, n as nat);
    }
}

} // verus!
