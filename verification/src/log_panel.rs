//! The log panel: its keys, and where each message goes in its scrolling
//! view.

use vstd::prelude::*;
use crate::layout::Rect;
use crate::state::{AppState, Focus, LogScroll, sat_add16, sat_sub16, scrolled_to_bottom};

verus! {

/// A key of the log panel.
#[derive(Clone, Copy, PartialEq, Eq, Structural, Debug)]
pub enum LogKey {
    /// Up arrow or `k`.
    Up,
    /// Down arrow or `j`.
    Down,
    /// Left arrow or `h`.
    Left,
    /// Right arrow or `l`.
    Right,
    End,
    Home,
    PageUp,
    PageDown,
    Other,
}

/// The log panel keys shown in the footer.
pub fn log_panel_footer_text() -> (r: Vec<&'static str>)
    ensures
        r@ == seq!["ScrollUp[k/up]", "ScrollDown[j/down]"],
{
    let r = vec!["ScrollUp[k/up]", "ScrollDown[j/down]"];
    assert(r@ =~= seq!["ScrollUp[k/up]", "ScrollDown[j/down]"]);
    r
}

/// Focuses the log panel, as a click on it does.
pub fn focus_log_panel(state: &mut AppState)
    ensures
        *final(state) == (AppState { focused: Focus::LogPanel, ..*old(state) }),
{
    state.focused = Focus::LogPanel;
}

/// The height of a page, one row before the first drawing.
pub open spec fn page(s: LogScroll) -> int {
    match s.page_height {
        Some(h) => h as int,
        None => 1,
    }
}

/// The scroll position after `code`: a row up or down, a column left or
/// right, a page up or down (keeping one row of the previous page), to the
/// top left, or to the bottom. Each move stops at the edges of `u16`.
pub open spec fn scrolled(s: LogScroll, code: LogKey) -> LogScroll {
    match code {
        LogKey::Up => LogScroll { y: sat_sub16(s.y as int, 1), ..s },
        LogKey::Down => LogScroll { y: sat_add16(s.y as int, 1), ..s },
        LogKey::Left => LogScroll { x: sat_sub16(s.x as int, 1), ..s },
        LogKey::Right => LogScroll { x: sat_add16(s.x as int, 1), ..s },
        LogKey::End => scrolled_to_bottom(s),
        LogKey::Home => LogScroll { x: 0, y: 0, ..s },
        LogKey::PageUp => LogScroll { y: sat_sub16(sat_add16(s.y as int, 1) as int, page(s)), ..s },
        LogKey::PageDown => LogScroll { y: sat_sub16(sat_add16(s.y as int, page(s)) as int, 1), ..s },
        LogKey::Other => s,
    }
}

fn add16(a: u16, b: u16) -> (r: u16)
    ensures
        r == sat_add16(a as int, b as int),
{
    if a > u16::MAX - b { u16::MAX } else { a + b }
}

fn sub16(a: u16, b: u16) -> (r: u16)
    ensures
        r == sat_sub16(a as int, b as int),
{
    if a < b { 0 } else { a - b }
}

/// Scrolls the log panel (see `scrolled`). Only the scroll position
/// changes.
pub fn handle_event(state: &mut AppState, code: LogKey)
    ensures
        *final(state) == (AppState {
            log_panel_scroll_state: scrolled(old(state).log_panel_scroll_state, code),
            ..*old(state)
        }),
{
    let s = state.log_panel_scroll_state;
    let page_height: u16 = match s.page_height {
        Some(h) => h,
        None => 1,
    };
    match code {
        LogKey::Up => state.log_panel_scroll_state.y = sub16(s.y, 1),
        LogKey::Down => state.log_panel_scroll_state.y = add16(s.y, 1),
        LogKey::Left => state.log_panel_scroll_state.x = sub16(s.x, 1),
        LogKey::Right => state.log_panel_scroll_state.x = add16(s.x, 1),
        LogKey::End => state.log_panel_scroll_state.scroll_to_bottom(),
        LogKey::Home => {
            state.log_panel_scroll_state.x = 0;
            state.log_panel_scroll_state.y = 0;
        },
        LogKey::PageUp => state.log_panel_scroll_state.y = sub16(add16(s.y, 1), page_height),
        LogKey::PageDown => state.log_panel_scroll_state.y = sub16(add16(s.y, page_height), 1),
        LogKey::Other => {},
    }
}

/// The rows that messages `a..b` take, each followed by a separator row.
pub open spec fn rows(h: Seq<u16>, a: int, b: int) -> int
    decreases b - a,
{
    if b <= a {
        0
    } else {
        rows(h, a, b - 1) + h[b - 1] + 1
    }
}

/// The largest number of rows the scrolling view may reach, so that its
/// surface stays below `u16::MAX`.
pub open spec fn max_rows(width: u16) -> int {
    u16::MAX as int / width as int
}

/// The first message kept when messages `0..n` are shown: the messages from
/// `k` on fit (take fewer rows than the limit) and, if `k > 0`, those from
/// `k - 1` on do not. Older messages are dropped.
pub open spec fn is_first_kept(h: Seq<u16>, limit: int, n: int, k: int) -> bool {
    &&& 0 <= k <= n
    &&& rows(h, k, n) < limit
    &&& (k == 0 || rows(h, k - 1, n) >= limit)
}

/// The rows that the kept messages take once the first `i` messages were
/// shown.
pub open spec fn window_rows(h: Seq<u16>, limit: int, i: int) -> int {
    rows(h, choose|k: int| is_first_kept(h, limit, i, k), i)
}

/// Where each message goes in the scrolling view of the log panel.
pub struct LogLayout {
    /// The first message shown; older ones are dropped.
    pub first: usize,
    /// The area of each shown message, from `first` on.
    pub areas: Vec<Rect>,
    /// The rows that the shown messages and their separators take.
    pub scrollable_height: u16,
}

proof fn lemma_rows_split(h: Seq<u16>, a: int, m: int, b: int)
    requires
        a <= m <= b,
    ensures
        rows(h, a, b) == rows(h, a, m) + rows(h, m, b),
    decreases b - m,
{
    if m < b {
        lemma_rows_split(h, a, m, b - 1);
    }
}

proof fn lemma_rows_nonneg(h: Seq<u16>, a: int, b: int)
    ensures
        rows(h, a, b) >= 0,
    decreases b - a,
{
    if a < b {
        lemma_rows_nonneg(h, a, b - 1);
    }
}

proof fn lemma_first_kept_unique(h: Seq<u16>, limit: int, n: int, k1: int, k2: int)
    requires
        is_first_kept(h, limit, n, k1),
        is_first_kept(h, limit, n, k2),
    ensures
        k1 == k2,
{
    if k1 < k2 {
        lemma_rows_split(h, k1, k2 - 1, n);
        lemma_rows_nonneg(h, k1, k2 - 1);
    } else if k2 < k1 {
        lemma_rows_split(h, k2, k1 - 1, n);
        lemma_rows_nonneg(h, k2, k1 - 1);
    }
}

proof fn lemma_first_kept_search(h: Seq<u16>, limit: int, n: int, j: int)
    requires
        0 <= j <= n,
        rows(h, j, n) < limit,
    ensures
        exists|k: int| is_first_kept(h, limit, n, k),
    decreases j,
{
    if j == 0 || rows(h, j - 1, n) >= limit {
        assert(is_first_kept(h, limit, n, j));
    } else {
        lemma_first_kept_search(h, limit, n, j - 1);
    }
}

/// The kept messages always take fewer rows than the limit.
pub proof fn lemma_window_below_limit(h: Seq<u16>, limit: int, i: int)
    requires
        limit >= 1,
        0 <= i,
    ensures
        window_rows(h, limit, i) < limit,
{
    lemma_first_kept_search(h, limit, i, i);
}

/// With paragraphs at least two columns wide and each message shorter than
/// the limit, adding a message never overflows the row count: what
/// `layout_messages` asks of its caller.
pub proof fn lemma_layout_fits(h: Seq<u16>, para_width: u16)
    requires
        para_width >= 2,
        forall|i: int| 0 <= i < h.len() ==> h[i] + 1 < max_rows(para_width),
    ensures
        forall|i: int| 0 <= i < h.len() ==> window_rows(h, max_rows(para_width), i) + h[i] + 1 <= u16::MAX,
{
    let limit: int = max_rows(para_width);
    assert(1 <= limit <= 32767) by (nonlinear_arith)
        requires
            limit == 65535int / (para_width as int),
            2 <= para_width <= 65535,
    ;
    assert forall|i: int| 0 <= i < h.len() implies window_rows(h, limit, i) + h[i] + 1 <= u16::MAX by {
        lemma_window_below_limit(h, limit, i);
    }
}

/// `r` lays out messages of heights `h` in paragraphs `para_width` columns
/// wide: the first kept message, the area of each kept message (full width,
/// below the previous ones and their separators), and the rows they take.
pub open spec fn laid_out(h: Seq<u16>, para_width: u16, r: LogLayout) -> bool {
    &&& is_first_kept(h, max_rows(para_width), h.len() as int, r.first as int)
    &&& r.scrollable_height == rows(h, r.first as int, h.len() as int)
    &&& r.areas@.len() == h.len() - r.first
    &&& forall|j: int| 0 <= j < r.areas@.len() ==> #[trigger] r.areas@[j] == (Rect {
        x: 0,
        y: rows(h, r.first as int, r.first + j) as u16,
        width: para_width,
        height: h[r.first + j],
    })
}

/// In the log panel each shown message starts right below the previous one
/// and its separator row, and the view ends right below the last one.
pub proof fn law_log_messages_stacked(h: Seq<u16>, para_width: u16, r: LogLayout, j: int)
    requires
        para_width > 0,
        laid_out(h, para_width, r),
        0 <= j < r.areas@.len(),
    ensures
        j + 1 < r.areas@.len() ==> r.areas@[j + 1].y == r.areas@[j].y + r.areas@[j].height + 1,
        j + 1 == r.areas@.len() ==> r.scrollable_height == r.areas@[j].y + r.areas@[j].height + 1,
{
    let f = r.first as int;
    let n = h.len() as int;
    let limit = max_rows(para_width);
    assert(limit <= 65535) by (nonlinear_arith)
        requires
            limit == 65535int / (para_width as int),
            1 <= para_width,
    ;
    lemma_rows_split(h, f, f + j + 1, n);
    lemma_rows_nonneg(h, f + j + 1, n);
    lemma_rows_nonneg(h, f, f + j);
    assert(rows(h, f, f + j + 1) == rows(h, f, f + j) + h[f + j] + 1);
    assert(r.areas@[j] == (Rect { x: 0, y: rows(h, f, f + j) as u16, width: para_width, height: h[f + j] }));
    if j + 1 < r.areas@.len() {
        assert(r.areas@[j + 1] == (Rect { x: 0, y: rows(h, f, f + j + 1) as u16, width: para_width, height: h[f + j + 1] }));
    }
}

/// Lays out the messages of the log panel, given the height of each once
/// wrapped to `para_width` columns: each message gets a full-width area
/// below the previous one and a separator row; the oldest messages are
/// dropped until the view takes fewer rows than `u16::MAX / para_width`.
pub fn layout_messages(heights: &Vec<u16>, para_width: u16) -> (r: LogLayout)
    requires
        para_width > 0,
        forall|i: int| 0 <= i < heights@.len() ==> heights@[i] + 1 < max_rows(para_width),
        forall|i: int| 0 <= i < heights@.len() ==>
            window_rows(heights@, max_rows(para_width), i) + heights@[i] + 1 <= u16::MAX,
    ensures
        laid_out(heights@, para_width, r),
{
    let ghost h = heights@;
    let limit: u16 = u16::MAX / para_width;
    assert(limit >= 1) by (nonlinear_arith)
        requires
            limit == u16::MAX / para_width,
            0 < para_width <= u16::MAX,
    ;
    let n = heights.len();
    let mut first: usize = 0;
    let mut total: u16 = 0;
    let mut i: usize = 0;
    while i < n
        invariant
            h == heights@,
            n == h.len(),
            limit == max_rows(para_width),
            limit >= 1,
            forall|j: int| 0 <= j < h.len() ==> h[j] + 1 < limit,
            forall|j: int| 0 <= j < h.len() ==> window_rows(h, limit as int, j) + h[j] + 1 <= u16::MAX,
            i <= n,
            is_first_kept(h, limit as int, i as int, first as int),
            total == rows(h, first as int, i as int),
        decreases n - i,
    {
        proof {
            assert(window_rows(h, limit as int, i as int) == total) by {
                let k = choose|k: int| is_first_kept(h, limit as int, i as int, k);
                lemma_first_kept_unique(h, limit as int, i as int, k, first as int);
            }
        }
        total = total + heights[i] + 1;
        i = i + 1;
        proof {
            lemma_rows_nonneg(h, first as int, i as int);
        }
        while total >= limit
            invariant
                h == heights@,
                n == h.len(),
                limit == max_rows(para_width),
                limit >= 1,
                1 <= i <= n,
                h[i - 1] + 1 < limit,
                first < i,
                total == rows(h, first as int, i as int),
                first == 0 || rows(h, first - 1, i as int) >= limit,
            decreases i - first,
        {
            proof {
                lemma_rows_split(h, first as int, first + 1, i as int);
                lemma_rows_nonneg(h, first + 1, i as int);
                assert(rows(h, first as int, first as int) == 0);
                assert(rows(h, first as int, first + 1) == h[first as int] + 1);
                if first + 1 == i {
                    assert(rows(h, first as int, i as int) == h[first as int] + 1);
                }
                assert(first + 1 < i);
            }
            total = total - heights[first] - 1;
            first = first + 1;
        }
        proof {
            if first > 0 {
                lemma_rows_split(h, first - 1, (i - 1) as int, i as int);
                lemma_rows_nonneg(h, (i - 1) as int, i as int);
            }
        }
    }
    let mut areas: Vec<Rect> = Vec::new();
    let mut y: u16 = 0;
    let mut j: usize = first;
    while j < n
        invariant
            h == heights@,
            n == h.len(),
            first <= j <= n,
            total == rows(h, first as int, n as int),
            total < u16::MAX,
            total < limit,
            y == rows(h, first as int, j as int),
            areas@.len() == j - first,
            forall|k: int| 0 <= k < areas@.len() ==> #[trigger] areas@[k] == (Rect {
                x: 0,
                y: rows(h, first as int, first + k) as u16,
                width: para_width,
                height: h[first + k],
            }),
        decreases n - j,
    {
        areas.push(Rect { x: 0, y, width: para_width, height: heights[j] });
        proof {
            lemma_rows_split(h, first as int, j + 1, n as int);
            lemma_rows_nonneg(h, j + 1, n as int);
            assert(rows(h, first as int, j + 1) == y + h[j as int] + 1);
        }
        y = y + heights[j] + 1;
        j = j + 1;
    }
    LogLayout { first, areas, scrollable_height: total }
}

} // verus!
