//! Geometry of the candidate bar's menu panel: constants, sizes of the
//! content grid (emoji and symbols), the menu entries, and hit testing of
//! pointer positions against the menu button, the menu grid and the
//! content grid.

use vstd::prelude::*;

use crate::text::chars_of;

verus! {

/// Width of the menu button area at the right end of the candidate bar.
pub const MENU_BUTTON_WIDTH: u32 = 36;

/// Height of the candidate bar.
pub const CANDIDATE_HEIGHT: u32 = 36;

/// Height of one menu row.
pub const MENU_ITEM_HEIGHT: u32 = 44;

/// Number of menu columns.
pub const MENU_COLUMNS: usize = 2;

/// Upper bound on the number of content grid columns.
pub const CONTENT_COLUMNS_MAX: usize = 10;

/// Number of rows of the content grid (fixed; empty cells stay blank).
pub const CONTENT_ROWS: usize = 3;

/// Lower bound on the side of a content grid cell.
pub const CONTENT_ITEM_SIZE: u32 = 36;

/// Gap between content grid cells.
pub const CONTENT_GAP: u32 = 6;

/// Widest the content panel should get (wider cells reduce the columns).
pub const CONTENT_MAX_WIDTH: u32 = 660;

/// Estimated rendering width of one character at 16px: zero for combining
/// marks, variation selectors, the keycap mark and skin-tone modifiers, 10
/// for ASCII, 17 for anything else.
pub open spec fn char_render_width(c: char) -> nat {
    let u = c as u32;
    if (0x300 <= u && u <= 0x36F) || (0xFE00 <= u && u <= 0xFE0F) || u == 0x20E3 || (0x1F3FB <= u
        && u <= 0x1F3FF) {
        0
    } else if u < 0x80 {
        10
    } else {
        17
    }
}

/// Estimated rendering width of a text: the sum over its characters.
pub open spec fn text_render_width(s: Seq<char>) -> nat
    decreases s.len(),
{
    if s.len() == 0 {
        0
    } else {
        text_render_width(s.drop_last()) + char_render_width(s.last())
    }
}

proof fn lemma_text_render_width_prefix(s: Seq<char>, i: int)
    requires
        0 <= i < s.len(),
    ensures
        text_render_width(s.take(i + 1)) == text_render_width(s.take(i)) + char_render_width(s[i]),
{
    assert(s.take(i + 1).drop_last() =~= s.take(i));
}

proof fn lemma_text_render_width_monotone(s: Seq<char>, i: int, j: int)
    requires
        0 <= i <= j <= s.len(),
    ensures
        text_render_width(s.take(i)) <= text_render_width(s.take(j)),
    decreases j - i,
{
    if i < j {
        lemma_text_render_width_prefix(s, j - 1);
        lemma_text_render_width_monotone(s, i, j - 1);
    }
}

/// Estimated rendering width of `text` (used to size content grid cells).
pub fn content_text_width(text: &str) -> (w: u32)
    requires
        text_render_width(text@) <= u32::MAX,
    ensures
        w == text_render_width(text@),
{
    let cs = chars_of(text);
    let mut total: u32 = 0;
    let mut i: usize = 0;
    while i < cs.len()
        invariant
            cs@ == text@,
            i <= cs.len(),
            total == text_render_width(cs@.take(i as int)),
            text_render_width(cs@) <= u32::MAX,
        decreases cs.len() - i,
    {
        proof {
            lemma_text_render_width_prefix(cs@, i as int);
            lemma_text_render_width_monotone(cs@, i as int + 1, cs@.len() as int);
            assert(cs@.take(cs@.len() as int) =~= cs@);
        }
        let u = cs[i] as u32;
        let w: u32 = if (0x300 <= u && u <= 0x36F) || (0xFE00 <= u && u <= 0xFE0F) || u == 0x20E3
            || (0x1F3FB <= u && u <= 0x1F3FF) {
            0
        } else if u < 0x80 {
            10
        } else {
            17
        };
        total = total + w;
        i = i + 1;
    }
    assert(cs@.take(i as int) =~= cs@);
    total
}

/// Side of a content grid cell: the widest item plus padding, at least `CONTENT_ITEM_SIZE`.
pub fn content_cell_width(widest: u32) -> (w: u32)
    requires
        widest + 16 <= u32::MAX,
    ensures
        w == if widest + 16 >= CONTENT_ITEM_SIZE {
            widest + 16
        } else {
            CONTENT_ITEM_SIZE as int
        },
{
    let padded = widest + 16;
    if padded >= CONTENT_ITEM_SIZE {
        padded
    } else {
        CONTENT_ITEM_SIZE
    }
}

/// Number of content columns for a cell width: as many as fit within
/// `CONTENT_MAX_WIDTH`, clamped to 4..=10.
pub open spec fn spec_content_columns(cell_width: nat) -> nat {
    let cols = (CONTENT_MAX_WIDTH + CONTENT_GAP) / ((cell_width + CONTENT_GAP) as int);
    if cols < 4 {
        4
    } else if cols > CONTENT_COLUMNS_MAX {
        CONTENT_COLUMNS_MAX as nat
    } else {
        cols as nat
    }
}

/// Number of content columns for cells of width `cell_width`.
pub fn content_columns_for(cell_width: u32) -> (c: usize)
    requires
        cell_width + CONTENT_GAP <= u32::MAX,
    ensures
        c == spec_content_columns(cell_width as nat),
        4 <= c <= CONTENT_COLUMNS_MAX,
{
    let cols = (CONTENT_MAX_WIDTH + CONTENT_GAP) / (cell_width + CONTENT_GAP);
    if cols < 4 {
        4
    } else if cols > CONTENT_COLUMNS_MAX as u32 {
        CONTENT_COLUMNS_MAX
    } else {
        cols as usize
    }
}

/// Rendered width of a content panel with `columns` (taken as `u32`) cells of side `cell_width`.
pub open spec fn spec_content_panel_width(cell_width: nat, columns: nat) -> int {
    columns * cell_width + (columns - 1) * CONTENT_GAP
}

/// Rendered width of the content panel.
pub fn content_panel_width(cell_width: u32, columns: usize) -> (w: u32)
    requires
        columns as u32 >= 1,
        spec_content_panel_width(cell_width as nat, (columns as u32) as nat) <= u32::MAX,
    ensures
        w == spec_content_panel_width(cell_width as nat, (columns as u32) as nat),
{
    let c = columns as u32;
    proof {
        assert(c * cell_width <= spec_content_panel_width(cell_width as nat, c as nat))
            by (nonlinear_arith)
            requires
                c >= 1,
        ;
        assert((c - 1) * CONTENT_GAP <= spec_content_panel_width(cell_width as nat, c as nat))
            by (nonlinear_arith)
            requires
                c >= 1,
        ;
    }
    c * cell_width + (c - 1) * CONTENT_GAP
}

/// One item of the content grid (an emoji or a symbol).
#[derive(Debug, Clone, PartialEq, Eq)]
pub struct GridItem {
    pub text: String,
    pub comment: String,
}

/// What the area under the candidate bar currently shows.
#[derive(Debug, Clone, PartialEq, Eq)]
pub enum PanelView {
    /// Nothing expanded (candidate bar only).
    Closed,
    /// The menu grid, with the highlighted entry if any.
    Menu(Option<usize>),
    /// The content grid (emoji or symbols); `highlighted` is an index within the page.
    Content { items: Vec<GridItem>, highlighted: Option<usize> },
}

impl Default for PanelView {
    fn default() -> (v: Self)
        ensures
            v is Closed,
    {
        PanelView::Closed
    }
}

/// Height of the expanded area for a view.
pub fn panel_height_for(view: &PanelView) -> (h: u32)
    ensures
        h == match view {
            PanelView::Closed => 0,
            PanelView::Menu(_) => menu_height(),
            PanelView::Content { .. } => content_height(),
        },
{
    match view {
        PanelView::Closed => 0,
        PanelView::Menu(_) => menu_panel_height(),
        PanelView::Content { .. } => content_panel_height(),
    }
}

/// Items per content page (the grid's capacity).
pub fn content_capacity(columns: usize) -> (c: usize)
    requires
        columns * CONTENT_ROWS <= usize::MAX,
    ensures
        c == columns * CONTENT_ROWS,
{
    columns * CONTENT_ROWS
}

/// Height of the content grid: fixed rows with gaps between them.
pub open spec fn content_height() -> int {
    CONTENT_ROWS * (CONTENT_ITEM_SIZE + CONTENT_GAP) - CONTENT_GAP
}

/// Total height of the content panel.
pub fn content_panel_height() -> (h: u32)
    ensures
        h == content_height(),
        h == 120,
{
    CONTENT_ROWS as u32 * (CONTENT_ITEM_SIZE + CONTENT_GAP) - CONTENT_GAP
}

/// An entry of the menu panel.
#[derive(Debug, Clone, Copy, PartialEq, Eq, Structural)]
pub enum MenuAction {
    Emoji,
    Symbols,
    Clipboard,
    QuickSend,
}

/// Position of an entry in the menu grid, counted from 0.
pub open spec fn action_index(a: MenuAction) -> nat {
    match a {
        MenuAction::Emoji => 0,
        MenuAction::Symbols => 1,
        MenuAction::Clipboard => 2,
        MenuAction::QuickSend => 3,
    }
}

/// The entry at a position of the menu grid.
pub open spec fn action_at(idx: nat) -> Option<MenuAction> {
    if idx == 0 {
        Some(MenuAction::Emoji)
    } else if idx == 1 {
        Some(MenuAction::Symbols)
    } else if idx == 2 {
        Some(MenuAction::Clipboard)
    } else if idx == 3 {
        Some(MenuAction::QuickSend)
    } else {
        None
    }
}

impl MenuAction {
    /// Every entry, in grid order.
    pub const ALL: [MenuAction; 4] = [
        MenuAction::Emoji,
        MenuAction::Symbols,
        MenuAction::Clipboard,
        MenuAction::QuickSend,
    ];

    /// The entry's label.
    pub fn label(self) -> (s: &'static str)
        ensures
            s@ == match self {
                MenuAction::Emoji => "表情"@,
                MenuAction::Symbols => "符号"@,
                MenuAction::Clipboard => "剪切板"@,
                MenuAction::QuickSend => "快捷发送"@,
            },
    {
        match self {
            MenuAction::Emoji => "表情",
            MenuAction::Symbols => "符号",
            MenuAction::Clipboard => "剪切板",
            MenuAction::QuickSend => "快捷发送",
        }
    }

    /// Row of the entry in the grid (from 0).
    pub fn row(self) -> (r: usize)
        ensures
            r == action_index(self) / (MENU_COLUMNS as nat),
    {
        self.index() / MENU_COLUMNS
    }

    /// Column of the entry in the grid (from 0).
    pub fn col(self) -> (c: usize)
        ensures
            c == action_index(self) % (MENU_COLUMNS as nat),
    {
        self.index() % MENU_COLUMNS
    }

    /// Position of the entry in the panel (from 0).
    pub fn index(self) -> (i: usize)
        ensures
            i == action_index(self),
    {
        match self {
            MenuAction::Emoji => 0,
            MenuAction::Symbols => 1,
            MenuAction::Clipboard => 2,
            MenuAction::QuickSend => 3,
        }
    }

    /// Whether the entry is implemented (others are greyed out and ignore clicks).
    pub fn is_available(self) -> (b: bool)
        ensures
            b == (self is Emoji || self is Symbols),
    {
        match self {
            MenuAction::Emoji | MenuAction::Symbols => true,
            _ => false,
        }
    }
}

/// Height of the menu panel: two columns, so two rows for the four entries.
pub open spec fn menu_height() -> int {
    MENU_ITEM_HEIGHT * (4int / MENU_COLUMNS as int)
}

/// Total height of the menu panel.
pub fn menu_panel_height() -> (h: u32)
    ensures
        h == menu_height(),
        h == 88,
{
    MENU_ITEM_HEIGHT * (MenuAction::ALL.len() as u32 / MENU_COLUMNS as u32)
}

/// Height of the expanded container: candidate bar plus menu.
pub fn expanded_height() -> (h: u32)
    ensures
        h == CANDIDATE_HEIGHT + menu_height(),
{
    CANDIDATE_HEIGHT + menu_panel_height()
}

/// Whether a point (surface coordinates) is on the menu button at the right
/// end of a candidate bar `panel_width` wide (taken as `i32`).
pub fn menu_button_hit(x: i32, y: i32, panel_width: u32) -> (b: bool)
    requires
        (panel_width as i32) - MENU_BUTTON_WIDTH >= i32::MIN,
    ensures
        b == (x >= (panel_width as i32) - MENU_BUTTON_WIDTH && x < (panel_width as i32) && 0 <= y
            && y < CANDIDATE_HEIGHT),
{
    let w = panel_width as i32;
    let start = w - MENU_BUTTON_WIDTH as i32;
    x >= start && x < w && y >= 0 && y < CANDIDATE_HEIGHT as i32
}

/// The menu entry under a point: the panel spans y in [36, 36 + 88), two
/// columns each half the container wide (taken as `i32`), rows
/// `MENU_ITEM_HEIGHT` high.
pub open spec fn spec_menu_item_hit(x: int, y: int, container_width: int) -> Option<MenuAction> {
    if y < CANDIDATE_HEIGHT || y >= CANDIDATE_HEIGHT + menu_height() || x < 0 || x
        >= container_width {
        None
    } else {
        let row = (y - CANDIDATE_HEIGHT) / (MENU_ITEM_HEIGHT as int);
        let col = (x * MENU_COLUMNS) / container_width;
        action_at((row * MENU_COLUMNS + col) as nat)
    }
}

/// The menu entry under a point, if any.
pub fn menu_item_hit(x: i32, y: i32, container_width: u32) -> (r: Option<MenuAction>)
    ensures
        r == spec_menu_item_hit(x as int, y as int, (container_width as i32) as int),
{
    let panel_start = CANDIDATE_HEIGHT as i32;
    let panel_end = panel_start + menu_panel_height() as i32;
    if y < panel_start || y >= panel_end {
        return None;
    }
    let w = container_width as i32;
    if x < 0 || x >= w {
        return None;
    }
    let row = (y - panel_start) as usize / MENU_ITEM_HEIGHT as usize;
    proof {
        assert((x as usize) * MENU_COLUMNS < 2 * (w as int)) by (nonlinear_arith)
            requires
                0 <= x < w,
        ;
        assert(((x as int) * 2) / (w as int) < 2) by (nonlinear_arith)
            requires
                0 <= x < w,
        ;
    }
    let col = (x as usize) * MENU_COLUMNS / (w as usize);
    let idx = row * MENU_COLUMNS + col;
    if idx < 4 {
        Some(MenuAction::ALL[idx])
    } else {
        None
    }
}

/// Row and column of a point inside the content grid; `None` outside the grid.
pub open spec fn content_cell(x: int, y: int, panel_width: int, columns: int) -> Option<(int, int)> {
    if y < CANDIDATE_HEIGHT || y >= CANDIDATE_HEIGHT + content_height() || x < 0 || x
        >= panel_width {
        None
    } else {
        Some(
            (
                (y - CANDIDATE_HEIGHT) / ((CONTENT_ITEM_SIZE + CONTENT_GAP) as int),
                (x * columns) / panel_width,
            ),
        )
    }
}

/// The page index of the content item under a point: the grid spans y in
/// [36, 36 + 120), `columns` columns over `panel_width` (taken as `i32`),
/// rows `CONTENT_ITEM_SIZE + CONTENT_GAP` high; `None` outside the grid or
/// past the last of `item_count` items.
pub open spec fn spec_content_item_hit(
    x: int,
    y: int,
    panel_width: int,
    columns: int,
    item_count: int,
) -> Option<usize> {
    match content_cell(x, y, panel_width, columns) {
        None => None,
        Some((row, col)) => {
            let idx = row * columns + col;
            if idx < item_count {
                Some(idx as usize)
            } else {
                None
            }
        },
    }
}

/// The page index of the content item under a point, if any.
pub fn content_item_hit(
    x: i32,
    y: i32,
    panel_width: u32,
    columns: usize,
    item_count: usize,
) -> (r: Option<usize>)
    requires
        content_cell(x as int, y as int, (panel_width as i32) as int, columns as int) matches Some(
            (row, col),
        ) ==> x * columns <= usize::MAX && row * columns + col <= usize::MAX,
    ensures
        r == spec_content_item_hit(
            x as int,
            y as int,
            (panel_width as i32) as int,
            columns as int,
            item_count as int,
        ),
        r matches Some(i) ==> i < item_count,
{
    let panel_start = CANDIDATE_HEIGHT as i32;
    let panel_end = panel_start + content_panel_height() as i32;
    if y < panel_start || y >= panel_end {
        return None;
    }
    let w = panel_width as i32;
    if x < 0 || x >= w {
        return None;
    }
    let row = (y - panel_start) as usize / (CONTENT_ITEM_SIZE + CONTENT_GAP) as usize;
    let col = (x as usize) * columns / (w as usize);
    let idx = row * columns + col;
    if idx < item_count {
        Some(idx)
    } else {
        None
    }
}

/// With at least four cells of that width fitting in `CONTENT_MAX_WIDTH`,
/// the content panel sized by `content_columns_for` stays within
/// `CONTENT_MAX_WIDTH`.
pub proof fn lemma_content_panel_fits(cell_width: nat)
    requires
        4 * (cell_width + CONTENT_GAP) <= CONTENT_MAX_WIDTH + CONTENT_GAP,
    ensures
        spec_content_panel_width(cell_width, spec_content_columns(cell_width))
            <= CONTENT_MAX_WIDTH,
{
    let d = cell_width + CONTENT_GAP;
    let q = (CONTENT_MAX_WIDTH + CONTENT_GAP) / (d as int);
    assert(q * d <= CONTENT_MAX_WIDTH + CONTENT_GAP) by (nonlinear_arith)
        requires
            d > 0,
            q == (CONTENT_MAX_WIDTH + CONTENT_GAP) / (d as int),
    ;
    assert(q >= 4) by (nonlinear_arith)
        requires
            d > 0,
            4 * d <= CONTENT_MAX_WIDTH + CONTENT_GAP,
            q == (CONTENT_MAX_WIDTH + CONTENT_GAP) / (d as int),
    ;
    let c = spec_content_columns(cell_width);
    assert(c <= q);
    assert(c * d <= q * d) by (nonlinear_arith)
        requires
            c <= q,
            d > 0,
    ;
    assert(spec_content_panel_width(cell_width, c) == c * d - CONTENT_GAP) by (nonlinear_arith)
        requires
            d == cell_width + CONTENT_GAP,
    ;
}

/// A hit on the menu grid names the entry whose row and column contain the point.
pub proof fn lemma_menu_hit_position(x: int, y: int, container_width: int)
    requires
        spec_menu_item_hit(x, y, container_width) is Some,
    ensures
        ({
            let a = spec_menu_item_hit(x, y, container_width)->0;
            &&& action_index(a) / (MENU_COLUMNS as nat) == (y - CANDIDATE_HEIGHT) / (
            MENU_ITEM_HEIGHT as int)
            &&& action_index(a) % (MENU_COLUMNS as nat) == (x * MENU_COLUMNS) / container_width
        }),
{
    let row = (y - CANDIDATE_HEIGHT) / (MENU_ITEM_HEIGHT as int);
    let col = (x * MENU_COLUMNS) / container_width;
    assert(0 <= col < 2) by (nonlinear_arith)
        requires
            0 <= x < container_width,
            col == (x * 2) / container_width,
    ;
    assert(0 <= row < 2);
}

} // verus!
