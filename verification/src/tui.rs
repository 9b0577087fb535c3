//! The interactive terminal UI's decisions: a two-pane ticket browser (list
//! on the left, detail on the right) with vim-style keys, mouse selection and
//! a periodic refresh.
//!
//! `App::handle` takes one event and the current time and returns the next
//! state and, at most, one action for the caller to carry out (load the
//! list, load a ticket, claim, close, reply). Drawing and the event sources
//! belong to the caller.

use vstd::prelude::*;

use crate::client::{Comment, PartyRef, Ticket, TicketQuery, TicketSummary};
use crate::format::{html_text, html_to_text};
use crate::text::{
    chars_of, concat, decimal, eq_str, lines, slice_of, string_from, string_of,
};
use crate::time::chrono_formatted;

verus! {

broadcast use vstd::string::group_string_axioms;

/// How long the list stays before the next tick reloads it (30 s, in ns).
pub open spec fn refresh_interval() -> int {
    30_000_000_000
}

/// How long a status message stays on screen (4 s, in ns).
pub open spec fn flash_duration() -> int {
    4_000_000_000
}

// ── events, actions and state ───────────────────────────────────────────

/// Which pane has the keyboard.
#[derive(Debug, Clone, Copy, PartialEq, Eq, Structural)]
pub enum Pane {
    List,
    Detail,
    Search,
    Help,
}

/// A screen rectangle, in terminal cells.
#[derive(Debug, Clone, Copy, PartialEq, Eq)]
pub struct Rect {
    pub x: u16,
    pub y: u16,
    pub width: u16,
    pub height: u16,
}

/// The keys the UI tells apart.
#[derive(Debug, Clone, Copy, PartialEq, Eq, Structural)]
pub enum Key {
    Char(char),
    Enter,
    Esc,
    Backspace,
    Up,
    Down,
    PageUp,
    PageDown,
    F(u8),
    Other,
}

/// A key press, and whether Control was held.
#[derive(Debug, Clone, Copy, PartialEq, Eq)]
pub struct KeyInput {
    pub key: Key,
    pub ctrl: bool,
}

/// The mouse events the UI tells apart.
#[derive(Debug, Clone, Copy, PartialEq, Eq)]
pub enum MouseKind {
    LeftDown,
    ScrollDown,
    ScrollUp,
    Other,
}

/// A mouse event at a terminal cell.
#[derive(Debug, Clone, Copy, PartialEq, Eq)]
pub struct MouseInput {
    pub kind: MouseKind,
    pub column: u16,
    pub row: u16,
}

/// What can happen to the UI.
#[derive(Debug)]
pub enum AppEvent {
    /// The clock ticked.
    Tick,
    Key(KeyInput),
    Mouse(MouseInput),
    /// A list request answered.
    TicketsLoaded(Vec<TicketSummary>),
    /// A ticket request answered.
    TicketLoaded(Ticket),
    /// An action succeeded; the text says how.
    Status(String),
    /// A change to a ticket (a claim or a close) went through; the text says
    /// how. The list is stale from now on.
    Changed(String),
    /// An action failed; the text says why.
    Error(String),
}

/// What the UI asks its caller to do.
#[derive(Debug)]
pub enum Action {
    /// Load the ticket list with this query.
    Refresh(TicketQuery),
    /// Load the ticket with this id for the detail pane.
    LoadDetail(String),
    /// Assign the ticket to the signed-in user and set it IN_PROGRESS.
    Claim { id: String, number: String },
    /// Close the ticket.
    Close { id: String, number: String },
    /// Post a reply to the ticket, written in the user's editor.
    Reply { id: String, number: String },
}

/// The UI state.
pub struct App {
    pub pane: Pane,
    pub tickets: Vec<TicketSummary>,
    /// The selected row of the list.
    pub selected: Option<usize>,
    pub search: String,
    pub status_filter: Option<String>,
    pub detail: Option<Ticket>,
    pub detail_scroll: u16,
    /// The last status message and when it was shown (ns).
    pub status_msg: Option<(String, u64)>,
    /// When the list was last reloaded by a tick (ns); `None` forces a reload.
    pub last_refresh: Option<u64>,
    pub quit: bool,
    /// Where the list and detail panes were drawn last.
    pub list_area: Option<Rect>,
    pub detail_area: Option<Rect>,
    /// The first list row on screen, as drawn last.
    pub list_offset: usize,
}

// ── the model ───────────────────────────────────────────────────────────

pub open spec fn opt_text(o: Option<String>) -> Option<Seq<char>> {
    match o {
        Some(s) => Some(s@),
        None => None,
    }
}

/// The state as values.
pub ghost struct AppView {
    pub pane: Pane,
    pub tickets: Seq<TicketSummary>,
    pub selected: Option<usize>,
    pub search: Seq<char>,
    pub status_filter: Option<Seq<char>>,
    pub detail: Option<Ticket>,
    pub detail_scroll: u16,
    pub status_msg: Option<(Seq<char>, u64)>,
    pub last_refresh: Option<u64>,
    pub quit: bool,
    pub list_area: Option<Rect>,
    pub detail_area: Option<Rect>,
    pub list_offset: usize,
}

impl View for App {
    type V = AppView;

    open spec fn view(&self) -> AppView {
        AppView {
            pane: self.pane,
            tickets: self.tickets@,
            selected: self.selected,
            search: self.search@,
            status_filter: opt_text(self.status_filter),
            detail: self.detail,
            detail_scroll: self.detail_scroll,
            status_msg: match self.status_msg {
                Some(m) => Some((m.0@, m.1)),
                None => None,
            },
            last_refresh: self.last_refresh,
            quit: self.quit,
            list_area: self.list_area,
            detail_area: self.detail_area,
            list_offset: self.list_offset,
        }
    }
}

/// An event as values.
pub ghost enum EventView {
    Tick,
    Key(KeyInput),
    Mouse(MouseInput),
    TicketsLoaded(Seq<TicketSummary>),
    TicketLoaded(Ticket),
    Status(Seq<char>),
    Changed(Seq<char>),
    Error(Seq<char>),
}

impl View for AppEvent {
    type V = EventView;

    open spec fn view(&self) -> EventView {
        match self {
            AppEvent::Tick => EventView::Tick,
            AppEvent::Key(k) => EventView::Key(*k),
            AppEvent::Mouse(m) => EventView::Mouse(*m),
            AppEvent::TicketsLoaded(ts) => EventView::TicketsLoaded(ts@),
            AppEvent::TicketLoaded(t) => EventView::TicketLoaded(*t),
            AppEvent::Status(s) => EventView::Status(s@),
            AppEvent::Changed(s) => EventView::Changed(s@),
            AppEvent::Error(s) => EventView::Error(s@),
        }
    }
}

/// A ticket list query as values.
pub ghost struct QueryView {
    pub status: Option<Seq<char>>,
    pub assignee: Option<Seq<char>>,
    pub search: Option<Seq<char>>,
    pub page: Option<u32>,
    pub page_size: Option<u32>,
}

pub open spec fn query_view(q: TicketQuery) -> QueryView {
    QueryView {
        status: opt_text(q.status),
        assignee: opt_text(q.assignee),
        search: opt_text(q.search),
        page: q.page,
        page_size: q.page_size,
    }
}

/// An action as values; the ticket actions carry id and number.
pub ghost enum ActionView {
    Refresh(QueryView),
    LoadDetail(Seq<char>),
    Claim(Seq<char>, Seq<char>),
    Close(Seq<char>, Seq<char>),
    Reply(Seq<char>, Seq<char>),
}

impl View for Action {
    type V = ActionView;

    open spec fn view(&self) -> ActionView {
        match self {
            Action::Refresh(q) => ActionView::Refresh(query_view(*q)),
            Action::LoadDetail(id) => ActionView::LoadDetail(id@),
            Action::Claim { id, number } => ActionView::Claim(id@, number@),
            Action::Close { id, number } => ActionView::Close(id@, number@),
            Action::Reply { id, number } => ActionView::Reply(id@, number@),
        }
    }
}

pub open spec fn action_view(a: Option<Action>) -> Option<ActionView> {
    match a {
        Some(x) => Some(x@),
        None => None,
    }
}

/// The selection points into the list whenever the list has tickets; while
/// it is empty the selection is cleared or on the first row.
pub open spec fn selection_ok(s: AppView) -> bool {
    &&& s.tickets.len() > 0 ==> (s.selected is Some && s.selected->0 < s.tickets.len())
    &&& s.tickets.len() == 0 ==> (s.selected is None || s.selected == Some(0usize))
}

/// The state when the UI starts.
pub open spec fn initial() -> AppView {
    AppView {
        pane: Pane::List,
        tickets: seq![],
        selected: Some(0),
        search: seq![],
        status_filter: None,
        detail: None,
        detail_scroll: 0,
        status_msg: None,
        last_refresh: None,
        quit: false,
        list_area: None,
        detail_area: None,
        list_offset: 0,
    }
}

/// The query a reload sends: the status filter, the search unless it is
/// empty, page 1 of 100.
pub open spec fn refresh_query(s: AppView) -> QueryView {
    QueryView {
        status: s.status_filter,
        assignee: None,
        search: if s.search.len() == 0 {
            None
        } else {
            Some(s.search)
        },
        page: Some(1),
        page_size: Some(100),
    }
}

/// A tick reloads the list when it never was, or 30 s after the last time.
pub open spec fn refresh_due(s: AppView, now: u64) -> bool {
    match s.last_refresh {
        None => true,
        Some(t) => now - t >= refresh_interval(),
    }
}

/// Shows a status message from `now` on.
pub open spec fn flash(s: AppView, msg: Seq<char>, now: u64) -> AppView {
    AppView { status_msg: Some((msg, now)), ..s }
}

/// The status message still on screen at `now`.
pub open spec fn visible_flash(s: AppView, now: u64) -> Option<Seq<char>> {
    match s.status_msg {
        Some((m, t)) => if now - t < flash_duration() {
            Some(m)
        } else {
            None
        },
        None => None,
    }
}

/// The ticket under the selection, if the selection is on a row.
pub open spec fn selected_ticket(s: AppView) -> Option<TicketSummary> {
    match s.selected {
        Some(i) => if i < s.tickets.len() {
            Some(s.tickets[i as int])
        } else {
            None
        },
        None => None,
    }
}

/// Moves the selection by `delta` rows, wrapping around at either end; no
/// effect on an empty list.
pub open spec fn move_selection(s: AppView, delta: int) -> AppView {
    if s.tickets.len() == 0 {
        s
    } else {
        let cur = match s.selected {
            Some(i) => i as int,
            None => 0,
        };
        AppView { selected: Some(((cur + delta) % (s.tickets.len() as int)) as usize), ..s }
    }
}

/// The selection after the list is replaced by `len` tickets: kept, but
/// moved onto the last row if it would fall off the end.
pub open spec fn clamp_selection(sel: Option<usize>, len: nat) -> Option<usize> {
    if len == 0 {
        None
    } else {
        let cur = match sel {
            Some(i) => i as int,
            None => 0,
        };
        Some(
            if cur <= len - 1 {
                cur as usize
            } else {
                (len - 1) as usize
            },
        )
    }
}

pub open spec fn scroll_down(v: u16, by: int) -> u16 {
    if v + by > u16::MAX {
        u16::MAX
    } else {
        (v + by) as u16
    }
}

pub open spec fn scroll_up(v: u16, by: int) -> u16 {
    if v - by < 0 {
        0
    } else {
        (v - by) as u16
    }
}

pub open spec fn sat_add(a: u16, b: u16) -> int {
    if a + b > u16::MAX {
        u16::MAX as int
    } else {
        a + b
    }
}

/// The cell `(x, y)` lies in `r`.
pub open spec fn in_rect(r: Rect, x: u16, y: u16) -> bool {
    x >= r.x && x < sat_add(r.x, r.width) && y >= r.y && y < sat_add(r.y, r.height)
}

pub open spec fn in_area(a: Option<Rect>, x: u16, y: u16) -> bool {
    match a {
        Some(r) => in_rect(r, x, y),
        None => false,
    }
}

/// The ticket row under the cell `(col, row)`: inside the list pane's
/// borders, counted from the first row on screen, and only if there is a
/// ticket there.
pub open spec fn row_at(s: AppView, col: u16, row: u16) -> Option<usize> {
    match s.list_area {
        None => None,
        Some(a) => if !in_rect(a, col, row) {
            None
        } else if a.y + 1 > u16::MAX {
            None
        } else {
            let top = a.y + 1;
            let bottom = if sat_add(a.y, a.height) >= 1 {
                sat_add(a.y, a.height) - 1
            } else {
                0
            };
            if row < top || row >= bottom {
                None
            } else if s.list_offset + (row - top) > usize::MAX {
                None
            } else {
                let abs = s.list_offset + (row - top);
                if abs < s.tickets.len() {
                    Some(abs as usize)
                } else {
                    None
                }
            }
        },
    }
}

/// Keys while typing a search.
pub open spec fn search_key(s: AppView, key: Key) -> AppView {
    match key {
        Key::Esc => AppView { search: seq![], pane: Pane::List, last_refresh: None, ..s },
        Key::Enter => AppView { pane: Pane::List, last_refresh: None, ..s },
        Key::Backspace => if s.search.len() > 0 {
            AppView { search: s.search.drop_last(), ..s }
        } else {
            s
        },
        Key::Char(c) => AppView { search: s.search.push(c), ..s },
        _ => s,
    }
}

pub open spec fn reply_hint(number: Seq<char>) -> Seq<char> {
    "Reply on "@ + number + " — open detail (Enter) first."@
}

/// Keys in the list pane.
pub open spec fn list_key(s: AppView, key: Key, now: u64) -> (AppView, Option<ActionView>) {
    match key {
        Key::Char('q') => (AppView { quit: true, ..s }, None),
        Key::Char('?') => (AppView { pane: Pane::Help, ..s }, None),
        Key::Char('j') | Key::Down => (move_selection(s, 1), None),
        Key::Char('k') | Key::Up => (move_selection(s, -1), None),
        Key::PageDown => (move_selection(s, 10), None),
        Key::PageUp => (move_selection(s, -10), None),
        Key::Char('g') => (AppView { selected: Some(0), ..s }, None),
        Key::Char('G') => if s.tickets.len() > 0 {
            (AppView { selected: Some((s.tickets.len() - 1) as usize), ..s }, None)
        } else {
            (s, None)
        },
        Key::Enter => match selected_ticket(s) {
            Some(t) => (
                AppView { detail: None, pane: Pane::Detail, ..s },
                Some(ActionView::LoadDetail(t.id@)),
            ),
            None => (s, None),
        },
        Key::Char('/') => (AppView { pane: Pane::Search, ..s }, None),
        Key::Char('r') => match selected_ticket(s) {
            Some(t) => (flash(s, reply_hint(t.ticket_number@), now), None),
            None => (s, None),
        },
        Key::Char('c') => match selected_ticket(s) {
            Some(t) => (s, Some(ActionView::Claim(t.id@, t.ticket_number@))),
            None => (s, None),
        },
        Key::Char('x') => match selected_ticket(s) {
            Some(t) => (s, Some(ActionView::Close(t.id@, t.ticket_number@))),
            None => (s, None),
        },
        Key::Char('R') | Key::F(5) => (flash(AppView { last_refresh: None, ..s }, "Refreshing…"@, now), None),
        _ => (s, None),
    }
}

/// Keys in the detail pane.
pub open spec fn detail_key(s: AppView, key: Key) -> (AppView, Option<ActionView>) {
    match key {
        Key::Char('q') | Key::Esc => (AppView { pane: Pane::List, detail: None, ..s }, None),
        Key::Char('j') | Key::Down => (AppView { detail_scroll: scroll_down(s.detail_scroll, 1), ..s }, None),
        Key::Char('k') | Key::Up => (AppView { detail_scroll: scroll_up(s.detail_scroll, 1), ..s }, None),
        Key::PageDown => (AppView { detail_scroll: scroll_down(s.detail_scroll, 10), ..s }, None),
        Key::PageUp => (AppView { detail_scroll: scroll_up(s.detail_scroll, 10), ..s }, None),
        Key::Char('?') => (AppView { pane: Pane::Help, ..s }, None),
        Key::Char('c') => match s.detail {
            Some(t) => (s, Some(ActionView::Claim(t.id@, t.ticket_number@))),
            None => (s, None),
        },
        Key::Char('x') => match s.detail {
            Some(t) => (
                AppView { pane: Pane::List, detail: None, ..s },
                Some(ActionView::Close(t.id@, t.ticket_number@)),
            ),
            None => (s, None),
        },
        Key::Char('r') => match s.detail {
            Some(t) => (s, Some(ActionView::Reply(t.id@, t.ticket_number@))),
            None => (s, None),
        },
        _ => (s, None),
    }
}

/// A key press. Control-C quits from anywhere.
pub open spec fn key_step(s: AppView, k: KeyInput, now: u64) -> (AppView, Option<ActionView>) {
    if k.ctrl && k.key == Key::Char('c') {
        (AppView { quit: true, ..s }, None)
    } else {
        match s.pane {
            Pane::Search => (search_key(s, k.key), None),
            Pane::Help => if k.key == Key::Esc || k.key == Key::Char('?') || k.key == Key::Char('q') {
                (AppView { pane: Pane::List, ..s }, None)
            } else {
                (s, None)
            },
            Pane::List => list_key(s, k.key, now),
            Pane::Detail => detail_key(s, k.key),
        }
    }
}

/// A mouse event: a click on a list row selects it and loads it into the
/// detail pane, a click in the detail pane focuses it; the wheel scrolls the
/// pane under the pointer (the list when it is not over the detail pane).
pub open spec fn mouse_step(s: AppView, m: MouseInput) -> (AppView, Option<ActionView>) {
    match m.kind {
        MouseKind::LeftDown => match row_at(s, m.column, m.row) {
            Some(idx) => (
                AppView { selected: Some(idx), detail: None, ..s },
                Some(ActionView::LoadDetail(s.tickets[idx as int].id@)),
            ),
            None => if in_area(s.detail_area, m.column, m.row) {
                (AppView { pane: Pane::Detail, ..s }, None)
            } else {
                (s, None)
            },
        },
        MouseKind::ScrollDown => if in_area(s.detail_area, m.column, m.row) {
            (AppView { detail_scroll: scroll_down(s.detail_scroll, 3), ..s }, None)
        } else {
            (move_selection(s, 3), None)
        },
        MouseKind::ScrollUp => if in_area(s.detail_area, m.column, m.row) {
            (AppView { detail_scroll: scroll_up(s.detail_scroll, 3), ..s }, None)
        } else {
            (move_selection(s, -3), None)
        },
        MouseKind::Other => (s, None),
    }
}

/// The state and action after one event at time `now`.
pub open spec fn step(s: AppView, e: EventView, now: u64) -> (AppView, Option<ActionView>) {
    match e {
        EventView::Tick => if refresh_due(s, now) {
            (
                AppView { last_refresh: Some(now), ..s },
                Some(ActionView::Refresh(refresh_query(s))),
            )
        } else {
            (s, None)
        },
        EventView::Key(k) => key_step(s, k, now),
        EventView::Mouse(m) => mouse_step(s, m),
        EventView::TicketsLoaded(ts) => (
            AppView { tickets: ts, selected: clamp_selection(s.selected, ts.len()), ..s },
            None,
        ),
        EventView::TicketLoaded(t) => (AppView { detail: Some(t), detail_scroll: 0, ..s }, None),
        EventView::Status(m) => (flash(s, m, now), None),
        EventView::Changed(m) => (AppView { last_refresh: None, ..flash(s, m, now) }, None),
        EventView::Error(m) => (flash(s, "error: "@ + m, now), None),
    }
}

// ── the code ────────────────────────────────────────────────────────────

/// `String::pop`, the character itself dropped.
/// Trusted: the last character goes, if there is one.
#[verifier::external_body]
fn pop_char(s: &mut String)
    ensures
        final(s)@ == if old(s)@.len() > 0 {
            old(s)@.drop_last()
        } else {
            old(s)@
        },
{
    s.pop();
}

proof fn lemma_wrap_negative(x: int, len: int)
    requires
        len > 0,
        x < 0,
    ensures
        x % len == (if (-x) % len == 0 {
            0
        } else {
            len - (-x) % len
        }),
{
    let q = (-x) / len;
    let m = (-x) % len;
    vstd::arithmetic::div_mod::lemma_fundamental_div_mod(-x, len);
    assert(0 <= m < len);
    if m == 0 {
        assert(x == (-q) * len + 0) by (nonlinear_arith)
            requires
                -x == len * q + m,
                m == 0,
        ;
        vstd::arithmetic::div_mod::lemma_fundamental_div_mod_converse(x, len, -q, 0);
    } else {
        assert(x == (-q - 1) * len + (len - m)) by (nonlinear_arith)
            requires
                -x == len * q + m,
        ;
        vstd::arithmetic::div_mod::lemma_fundamental_div_mod_converse(x, len, -q - 1, len - m);
    }
}

/// `(cur + delta).rem_euclid(len)`.
fn wrap_index(cur: usize, delta: i64, len: usize) -> (r: usize)
    requires
        len > 0,
    ensures
        r as int == (cur as int + delta as int) % (len as int),
        r < len,
{
    let c: u128 = cur as u128;
    let n: u128 = len as u128;
    if delta >= 0 {
        let x: u128 = c + delta as u128;
        let r = x % n;
        r as usize
    } else {
        let d: u128 = (-(delta as i128)) as u128;
        if d <= c {
            let r = (c - d) % n;
            r as usize
        } else {
            let back: u128 = d - c;
            let m = back % n;
            proof {
                lemma_wrap_negative(cur as int + delta as int, len as int);
            }
            if m == 0 {
                0
            } else {
                (n - m) as usize
            }
        }
    }
}

fn in_rect_exec(r: Rect, x: u16, y: u16) -> (b: bool)
    ensures
        b == in_rect(r, x, y),
{
    x >= r.x && x < r.x.saturating_add(r.width) && y >= r.y && y < r.y.saturating_add(r.height)
}

fn in_area_exec(a: Option<Rect>, x: u16, y: u16) -> (b: bool)
    ensures
        b == in_area(a, x, y),
{
    match a {
        Some(r) => in_rect_exec(r, x, y),
        None => false,
    }
}

impl App {
    /// The state when the UI starts: the list pane, nothing loaded yet, the
    /// first row selected.
    pub fn new() -> (a: App)
        ensures
            a@ == initial(),
    {
        let a = App {
            pane: Pane::List,
            tickets: Vec::new(),
            selected: Some(0),
            search: String::new(),
            status_filter: None,
            detail: None,
            detail_scroll: 0,
            status_msg: None,
            last_refresh: None,
            quit: false,
            list_area: None,
            detail_area: None,
            list_offset: 0,
        };
        assert(a@.tickets =~= seq![]);
        assert(a@.search =~= seq![]);
        a
    }

    /// The query that reloads the list.
    pub fn refresh_query(&self) -> (q: TicketQuery)
        ensures
            query_view(q) == refresh_query(self@),
    {
        let status = match &self.status_filter {
            Some(s) => Some(s.clone()),
            None => None,
        };
        let search = if self.search.as_str().unicode_len() == 0 {
            None
        } else {
            Some(self.search.clone())
        };
        TicketQuery { status, assignee: None, search, page: Some(1), page_size: Some(100) }
    }

    /// The status message still on screen at `now`.
    pub fn flash_visible(&self, now: u64) -> (r: Option<String>)
        ensures
            opt_text(r) == visible_flash(self@, now),
    {
        match &self.status_msg {
            Some((m, t)) => {
                if now.saturating_sub(*t) < 4_000_000_000 {
                    Some(m.clone())
                } else {
                    None
                }
            },
            None => None,
        }
    }

    fn show(&mut self, msg: String, now: u64)
        ensures
            final(self)@ == flash(old(self)@, msg@, now),
    {
        self.status_msg = Some((msg, now));
    }

    fn selected_index(&self) -> (r: Option<usize>)
        ensures
            match r {
                Some(i) => i < self.tickets@.len() && selected_ticket(self@) == Some(
                    self.tickets@[i as int],
                ),
                None => selected_ticket(self@) is None,
            },
    {
        match self.selected {
            Some(i) => if i < self.tickets.len() {
                Some(i)
            } else {
                None
            },
            None => None,
        }
    }

    fn move_by(&mut self, delta: i64)
        ensures
            final(self)@ == move_selection(old(self)@, delta as int),
    {
        if self.tickets.len() == 0 {
            return;
        }
        let cur = match self.selected {
            Some(i) => i,
            None => 0,
        };
        let next = wrap_index(cur, delta, self.tickets.len());
        self.selected = Some(next);
    }

    /// The ticket row under a cell of the screen, if any.
    pub fn row_at(&self, col: u16, row: u16) -> (r: Option<usize>)
        ensures
            r == row_at(self@, col, row),
            r matches Some(i) ==> i < self.tickets@.len(),
    {
        let a = match self.list_area {
            Some(a) => a,
            None => {
                return None;
            },
        };
        if !in_rect_exec(a, col, row) {
            return None;
        }
        if a.y == u16::MAX {
            return None;
        }
        let top = a.y + 1;
        let bottom = a.y.saturating_add(a.height).saturating_sub(1);
        if row < top || row >= bottom {
            return None;
        }
        let visible = (row - top) as usize;
        if self.list_offset > usize::MAX - visible {
            return None;
        }
        let abs = self.list_offset + visible;
        if abs < self.tickets.len() {
            Some(abs)
        } else {
            None
        }
    }

    fn search_key(&mut self, key: Key)
        ensures
            final(self)@ == search_key(old(self)@, key),
    {
        match key {
            Key::Esc => {
                self.search = String::new();
                self.pane = Pane::List;
                self.last_refresh = None;
            },
            Key::Enter => {
                self.pane = Pane::List;
                self.last_refresh = None;
            },
            Key::Backspace => {
                pop_char(&mut self.search);
            },
            Key::Char(c) => {
                crate::text::push_char(&mut self.search, c);
            },
            _ => {},
        }
    }

    fn list_key(&mut self, key: Key, now: u64) -> (r: Option<Action>)
        ensures
            (final(self)@, action_view(r)) == list_key(old(self)@, key, now),
    {
        match key {
            Key::Char('q') => {
                self.quit = true;
                None
            },
            Key::Char('?') => {
                self.pane = Pane::Help;
                None
            },
            Key::Char('j') | Key::Down => {
                self.move_by(1);
                None
            },
            Key::Char('k') | Key::Up => {
                self.move_by(-1);
                None
            },
            Key::PageDown => {
                self.move_by(10);
                None
            },
            Key::PageUp => {
                self.move_by(-10);
                None
            },
            Key::Char('g') => {
                self.selected = Some(0);
                None
            },
            Key::Char('G') => {
                if self.tickets.len() > 0 {
                    self.selected = Some(self.tickets.len() - 1);
                }
                None
            },
            Key::Enter => match self.selected_index() {
                Some(i) => {
                    let id = self.tickets[i].id.clone();
                    self.detail = None;
                    self.pane = Pane::Detail;
                    Some(Action::LoadDetail(id))
                },
                None => None,
            },
            Key::Char('/') => {
                self.pane = Pane::Search;
                None
            },
            Key::Char('r') => match self.selected_index() {
                Some(i) => {
                    let a = concat("Reply on ", self.tickets[i].ticket_number.as_str());
                    let msg = concat(a.as_str(), " — open detail (Enter) first.");
                    self.show(msg, now);
                    None
                },
                None => None,
            },
            Key::Char('c') => match self.selected_index() {
                Some(i) => Some(
                    Action::Claim {
                        id: self.tickets[i].id.clone(),
                        number: self.tickets[i].ticket_number.clone(),
                    },
                ),
                None => None,
            },
            Key::Char('x') => match self.selected_index() {
                Some(i) => Some(
                    Action::Close {
                        id: self.tickets[i].id.clone(),
                        number: self.tickets[i].ticket_number.clone(),
                    },
                ),
                None => None,
            },
            Key::Char('R') | Key::F(5) => {
                self.last_refresh = None;
                self.show(string_of("Refreshing…"), now);
                None
            },
            _ => None,
        }
    }

    fn detail_key(&mut self, key: Key) -> (r: Option<Action>)
        ensures
            (final(self)@, action_view(r)) == detail_key(old(self)@, key),
    {
        match key {
            Key::Char('q') | Key::Esc => {
                self.pane = Pane::List;
                self.detail = None;
                None
            },
            Key::Char('j') | Key::Down => {
                self.detail_scroll = self.detail_scroll.saturating_add(1);
                None
            },
            Key::Char('k') | Key::Up => {
                self.detail_scroll = self.detail_scroll.saturating_sub(1);
                None
            },
            Key::PageDown => {
                self.detail_scroll = self.detail_scroll.saturating_add(10);
                None
            },
            Key::PageUp => {
                self.detail_scroll = self.detail_scroll.saturating_sub(10);
                None
            },
            Key::Char('?') => {
                self.pane = Pane::Help;
                None
            },
            Key::Char('c') => match &self.detail {
                Some(t) => Some(Action::Claim { id: t.id.clone(), number: t.ticket_number.clone() }),
                None => None,
            },
            Key::Char('x') => {
                let a = match &self.detail {
                    Some(t) => Some(
                        Action::Close { id: t.id.clone(), number: t.ticket_number.clone() },
                    ),
                    None => None,
                };
                if a.is_some() {
                    self.pane = Pane::List;
                    self.detail = None;
                }
                a
            },
            Key::Char('r') => match &self.detail {
                Some(t) => Some(Action::Reply { id: t.id.clone(), number: t.ticket_number.clone() }),
                None => None,
            },
            _ => None,
        }
    }

    fn key(&mut self, k: KeyInput, now: u64) -> (r: Option<Action>)
        ensures
            (final(self)@, action_view(r)) == key_step(old(self)@, k, now),
    {
        if k.ctrl && k.key == Key::Char('c') {
            self.quit = true;
            return None;
        }
        match self.pane {
            Pane::Search => {
                self.search_key(k.key);
                None
            },
            Pane::Help => {
                if k.key == Key::Esc || k.key == Key::Char('?') || k.key == Key::Char('q') {
                    self.pane = Pane::List;
                }
                None
            },
            Pane::List => self.list_key(k.key, now),
            Pane::Detail => self.detail_key(k.key),
        }
    }

    fn mouse(&mut self, m: MouseInput) -> (r: Option<Action>)
        ensures
            (final(self)@, action_view(r)) == mouse_step(old(self)@, m),
    {
        match m.kind {
            MouseKind::LeftDown => match self.row_at(m.column, m.row) {
                Some(idx) => {
                    self.selected = Some(idx);
                    let id = self.tickets[idx].id.clone();
                    self.detail = None;
                    Some(Action::LoadDetail(id))
                },
                None => {
                    if in_area_exec(self.detail_area, m.column, m.row) {
                        self.pane = Pane::Detail;
                    }
                    None
                },
            },
            MouseKind::ScrollDown => {
                if in_area_exec(self.detail_area, m.column, m.row) {
                    self.detail_scroll = self.detail_scroll.saturating_add(3);
                } else {
                    self.move_by(3);
                }
                None
            },
            MouseKind::ScrollUp => {
                if in_area_exec(self.detail_area, m.column, m.row) {
                    self.detail_scroll = self.detail_scroll.saturating_sub(3);
                } else {
                    self.move_by(-3);
                }
                None
            },
            MouseKind::Other => None,
        }
    }

    /// Takes one event at time `now` (nanoseconds on a monotonic clock) and
    /// returns the action it calls for, if any.
    pub fn handle(&mut self, ev: AppEvent, now: u64) -> (r: Option<Action>)
        ensures
            (final(self)@, action_view(r)) == step(old(self)@, ev@, now),
    {
        match ev {
            AppEvent::Tick => {
                let due = match self.last_refresh {
                    None => true,
                    Some(t) => now >= t && now - t >= 30_000_000_000,
                };
                if due {
                    let q = self.refresh_query();
                    self.last_refresh = Some(now);
                    Some(Action::Refresh(q))
                } else {
                    None
                }
            },
            AppEvent::Key(k) => self.key(k, now),
            AppEvent::Mouse(m) => self.mouse(m),
            AppEvent::TicketsLoaded(ts) => {
                let len = ts.len();
                self.tickets = ts;
                if len == 0 {
                    self.selected = None;
                } else {
                    let cur = match self.selected {
                        Some(i) => i,
                        None => 0,
                    };
                    self.selected = Some(
                        if cur <= len - 1 {
                            cur
                        } else {
                            len - 1
                        },
                    );
                }
                None
            },
            AppEvent::TicketLoaded(t) => {
                self.detail = Some(t);
                self.detail_scroll = 0;
                None
            },
            AppEvent::Status(s) => {
                self.show(s, now);
                None
            },
            AppEvent::Changed(s) => {
                self.show(s, now);
                self.last_refresh = None;
                None
            },
            AppEvent::Error(s) => {
                let msg = concat("error: ", s.as_str());
                self.show(msg, now);
                None
            },
        }
    }

    /// Records where the panes were drawn and the first list row on screen.
    pub fn set_layout(&mut self, list_area: Rect, detail_area: Rect, list_offset: usize)
        ensures
            final(self)@ == (AppView {
                list_area: Some(list_area),
                detail_area: Some(detail_area),
                list_offset,
                ..old(self)@
            }),
    {
        self.list_area = Some(list_area);
        self.detail_area = Some(detail_area);
        self.list_offset = list_offset;
    }
}

// ── laws ────────────────────────────────────────────────────────────────

/// The UI starts with the selection where it belongs.
pub proof fn lemma_initial_selection_ok()
    ensures
        selection_ok(initial()),
{
}

/// Whatever happens, the selection stays on a row of the list whenever the
/// list has tickets (and is cleared or on the first row while it is empty).
pub proof fn lemma_step_keeps_selection_ok(s: AppView, e: EventView, now: u64)
    requires
        selection_ok(s),
    ensures
        selection_ok(step(s, e, now).0),
{
    if s.tickets.len() > 0 {
        let len = s.tickets.len() as int;
        let cur = match s.selected {
            Some(i) => i as int,
            None => 0,
        };
        assert forall|d: int| #[trigger] ((cur + d) % len) >= 0 && (cur + d) % len < len by {
            vstd::arithmetic::div_mod::lemma_mod_bound(cur + d, len);
        }
    }
}

/// Control-C quits from any pane and changes nothing else.
pub proof fn lemma_ctrl_c_quits(s: AppView, now: u64)
    ensures
        step(s, EventView::Key(KeyInput { key: Key::Char('c'), ctrl: true }), now) == (
        AppView { quit: true, ..s },
        None::<ActionView>,
        ),
{
}

/// While searching, typing a character and then Backspace leaves the state
/// as it was.
pub proof fn lemma_type_then_backspace(s: AppView, c: char, now: u64, later: u64)
    requires
        s.pane == Pane::Search,
    ensures
        step(
            step(s, EventView::Key(KeyInput { key: Key::Char(c), ctrl: false }), now).0,
            EventView::Key(KeyInput { key: Key::Backspace, ctrl: false }),
            later,
        ).0 == s,
{
    let s1 = step(s, EventView::Key(KeyInput { key: Key::Char(c), ctrl: false }), now).0;
    assert(s1.search.drop_last() =~= s.search);
}

/// Finishing a search with Enter goes back to the list, and the next tick
/// reloads it with the typed search.
pub proof fn lemma_search_enter_then_tick_reloads(s: AppView, now: u64, later: u64)
    requires
        s.pane == Pane::Search,
    ensures
        ({
            let s1 = step(s, EventView::Key(KeyInput { key: Key::Enter, ctrl: false }), now).0;
            &&& s1.pane == Pane::List
            &&& step(s1, EventView::Tick, later) == (
                AppView { last_refresh: Some(later), ..s1 },
                Some(ActionView::Refresh(refresh_query(s1))),
            )
            &&& refresh_query(s1).search == (if s.search.len() == 0 {
                None
            } else {
                Some(s.search)
            })
        }),
{
}

/// `R` in the list asks for a reload: the next tick reloads, however soon.
pub proof fn lemma_refresh_key_then_tick_reloads(s: AppView, now: u64, later: u64)
    requires
        s.pane == Pane::List,
    ensures
        ({
            let s1 = step(s, EventView::Key(KeyInput { key: Key::Char('R'), ctrl: false }), now).0;
            step(s1, EventView::Tick, later) == (
                AppView { last_refresh: Some(later), ..s1 },
                Some(ActionView::Refresh(refresh_query(s1))),
            )
        }),
{
}

/// A tick within 30 s of the last reload does nothing.
pub proof fn lemma_no_reload_within_interval(s: AppView, now: u64)
    requires
        s.last_refresh is Some,
        now - s.last_refresh->0 < refresh_interval(),
    ensures
        step(s, EventView::Tick, now) == (s, None::<ActionView>),
{
}

/// The list reloads every 30 seconds: a tick 30 s or more after the last
/// reload asks for the list again with the current filter and search, and the
/// next interval counts from that tick.
pub proof fn lemma_reload_after_interval(s: AppView, now: u64)
    requires
        s.last_refresh is Some,
        now - s.last_refresh->0 >= refresh_interval(),
    ensures
        step(s, EventView::Tick, now) == (
            AppView { last_refresh: Some(now), ..s },
            Some(ActionView::Refresh(refresh_query(s))),
        ),
{
}

/// After a claim or close goes through, the next tick reloads the list,
/// however soon it comes.
pub proof fn lemma_change_then_tick_reloads(s: AppView, m: Seq<char>, now: u64, later: u64)
    ensures
        ({
            let s1 = step(s, EventView::Changed(m), now).0;
            step(s1, EventView::Tick, later) == (
                AppView { last_refresh: Some(later), ..s1 },
                Some(ActionView::Refresh(refresh_query(s1))),
            )
        }),
{
}

/// In a non-empty list, moving down one row and back up one row returns to
/// the same row, also across the wrap at the end.
pub proof fn lemma_down_then_up(s: AppView, now: u64, later: u64)
    requires
        selection_ok(s),
        0 < s.tickets.len() <= usize::MAX,
        s.pane == Pane::List,
    ensures
        step(
            step(s, EventView::Key(KeyInput { key: Key::Char('j'), ctrl: false }), now).0,
            EventView::Key(KeyInput { key: Key::Char('k'), ctrl: false }),
            later,
        ).0 == s,
{
    let len = s.tickets.len() as int;
    let cur = s.selected->0 as int;
    let s1 = step(s, EventView::Key(KeyInput { key: Key::Char('j'), ctrl: false }), now).0;
    if cur + 1 < len {
        vstd::arithmetic::div_mod::lemma_small_mod((cur + 1) as nat, len as nat);
        vstd::arithmetic::div_mod::lemma_small_mod(cur as nat, len as nat);
        assert(s1.selected == Some((cur + 1) as usize));
        assert((cur + 1 - 1) % len == cur);
    } else {
        vstd::arithmetic::div_mod::lemma_fundamental_div_mod_converse(cur + 1, len, 1, 0);
        vstd::arithmetic::div_mod::lemma_fundamental_div_mod_converse(-1, len, -1, len - 1);
        assert(s1.selected == Some(0usize));
        assert((0 - 1) % len == len - 1);
    }
}

/// The wheel over the list moves the selection the way it turns: turning it
/// up three notches' worth moves the selection three rows up, when that stays
/// inside the list.
pub proof fn lemma_wheel_up_over_list(s: AppView, column: u16, row: u16, now: u64, i: usize)
    requires
        selection_ok(s),
        s.selected == Some(i),
        3 <= i,
        !in_area(s.detail_area, column, row),
    ensures
        step(s, EventView::Mouse(MouseInput { kind: MouseKind::ScrollUp, column, row }), now).0
            == (AppView { selected: Some((i - 3) as usize), ..s }),
{
    vstd::arithmetic::div_mod::lemma_small_mod((i - 3) as nat, s.tickets.len());
}

/// Turning the wheel down and then up over the list comes back to the same
/// row, also across the wrap at either end.
pub proof fn lemma_wheel_down_then_up(s: AppView, column: u16, row: u16, now: u64, later: u64)
    requires
        selection_ok(s),
        0 < s.tickets.len() <= usize::MAX,
        !in_area(s.detail_area, column, row),
    ensures
        step(
            step(s, EventView::Mouse(MouseInput { kind: MouseKind::ScrollDown, column, row }), now).0,
            EventView::Mouse(MouseInput { kind: MouseKind::ScrollUp, column, row }),
            later,
        ).0 == s,
{
    let n = s.tickets.len() as int;
    let i = s.selected->0 as int;
    let a = (i + 3) % n;
    vstd::arithmetic::div_mod::lemma_mod_bound(i + 3, n);
    vstd::arithmetic::div_mod::lemma_sub_mod_noop(i + 3, 3, n);
    vstd::arithmetic::div_mod::lemma_sub_mod_noop_right(a, 3, n);
    vstd::arithmetic::div_mod::lemma_small_mod(i as nat, n as nat);
    assert((a - 3) % n == i);
}

/// Enter on a selected ticket opens the detail pane and asks for that
/// ticket; Esc then goes back to the list with the detail cleared.
pub proof fn lemma_open_then_back(s: AppView, now: u64, later: u64)
    requires
        s.pane == Pane::List,
        selected_ticket(s) is Some,
    ensures
        ({
            let (s1, a) = step(s, EventView::Key(KeyInput { key: Key::Enter, ctrl: false }), now);
            let s2 = step(s1, EventView::Key(KeyInput { key: Key::Esc, ctrl: false }), later).0;
            &&& s1.pane == Pane::Detail
            &&& a == Some(ActionView::LoadDetail(selected_ticket(s)->0.id@))
            &&& s2.pane == Pane::List
            &&& s2.detail is None
            &&& s2.selected == s.selected
        }),
{
}

/// A status message shows for four seconds from when it was given.
pub proof fn lemma_flash_lasts_four_seconds(s: AppView, msg: Seq<char>, now: u64, later: u64)
    ensures
        visible_flash(flash(s, msg, now), later) == (if later - now < flash_duration() {
            Some(msg)
        } else {
            None
        }),
{
}

// ── drawing: labels and styles ──────────────────────────────────────────

/// The colours the UI draws with.
#[derive(Debug, Clone, Copy, PartialEq, Eq)]
pub enum Color {
    Red,
    Yellow,
    Cyan,
    Green,
    DarkGray,
    White,
    Blue,
    Black,
}

/// How a piece of text is drawn: foreground, background, bold.
#[derive(Debug, Clone, Copy, PartialEq, Eq)]
pub struct TextStyle {
    pub fg: Option<Color>,
    pub bg: Option<Color>,
    pub bold: bool,
}

pub open spec fn plain() -> TextStyle {
    TextStyle { fg: None, bg: None, bold: false }
}

pub open spec fn colored(c: Color) -> TextStyle {
    TextStyle { fg: Some(c), bg: None, bold: false }
}

pub open spec fn colored_bold(c: Color) -> TextStyle {
    TextStyle { fg: Some(c), bg: None, bold: true }
}

pub open spec fn bold_style() -> TextStyle {
    TextStyle { fg: None, bg: None, bold: true }
}

fn style(fg: Option<Color>, bg: Option<Color>, bold: bool) -> (r: TextStyle)
    ensures
        r == (TextStyle { fg, bg, bold }),
{
    TextStyle { fg, bg, bold }
}

/// The four-letter status column of the list.
pub open spec fn short_status_of(s: Seq<char>) -> Seq<char> {
    if s == "OPEN"@ {
        "OPEN"@
    } else if s == "IN_PROGRESS"@ {
        "WORK"@
    } else if s == "PENDING"@ {
        "PEND"@
    } else if s == "RESOLVED"@ {
        "DONE"@
    } else if s == "CLOSED"@ {
        "CLSD"@
    } else if s.len() <= 4 {
        s
    } else {
        s.take(4)
    }
}

/// A status in four letters: OPEN, WORK, PEND, DONE, CLSD, or the first four
/// characters of any other status.
pub fn short_status(s: &str) -> (r: String)
    ensures
        r@ == short_status_of(s@),
{
    if eq_str(s, "OPEN") {
        string_of("OPEN")
    } else if eq_str(s, "IN_PROGRESS") {
        string_of("WORK")
    } else if eq_str(s, "PENDING") {
        string_of("PEND")
    } else if eq_str(s, "RESOLVED") {
        string_of("DONE")
    } else if eq_str(s, "CLOSED") {
        string_of("CLSD")
    } else {
        let v = chars_of(s);
        if v.len() <= 4 {
            string_from(&v)
        } else {
            let t = slice_of(&v, 0, 4);
            assert(t@ =~= s@.take(4));
            string_from(&t)
        }
    }
}

/// The four-letter priority column of the list.
pub open spec fn short_priority_of(p: Seq<char>) -> Seq<char> {
    if p == "CRITICAL"@ {
        "CRIT"@
    } else if p == "HIGH"@ {
        "HIGH"@
    } else if p == "NORMAL"@ {
        "NORM"@
    } else if p == "LOW"@ {
        "LOW "@
    } else {
        "????"@
    }
}

/// A priority in four letters: CRIT, HIGH, NORM, "LOW ", or ???? for any
/// other priority.
pub fn short_priority(p: &str) -> (r: &'static str)
    ensures
        r@ == short_priority_of(p@),
{
    if eq_str(p, "CRITICAL") {
        "CRIT"
    } else if eq_str(p, "HIGH") {
        "HIGH"
    } else if eq_str(p, "NORMAL") {
        "NORM"
    } else if eq_str(p, "LOW") {
        "LOW "
    } else {
        "????"
    }
}

/// How a person is named on screen: the name, else the email, else "?".
pub open spec fn party_label_of(p: PartyRef) -> Seq<char> {
    match p.name {
        Some(n) => n@,
        None => match p.email {
            Some(e) => e@,
            None => "?"@,
        },
    }
}

/// The name shown for a person.
pub fn party_label(p: &PartyRef) -> (r: String)
    ensures
        r@ == party_label_of(*p),
{
    match &p.name {
        Some(n) => n.clone(),
        None => match &p.email {
            Some(e) => e.clone(),
            None => string_of("?"),
        },
    }
}

/// The style of a status in the detail pane.
pub open spec fn status_color_of(s: Seq<char>) -> TextStyle {
    if s == "OPEN"@ {
        colored_bold(Color::Red)
    } else if s == "IN_PROGRESS"@ {
        colored_bold(Color::Yellow)
    } else if s == "PENDING"@ {
        colored(Color::Cyan)
    } else if s == "RESOLVED"@ {
        colored(Color::Green)
    } else {
        colored(Color::DarkGray)
    }
}

/// A status's style in the detail pane: OPEN bold red, IN_PROGRESS bold
/// yellow, PENDING cyan, RESOLVED green, anything else dark grey.
pub fn status_color(s: &str) -> (r: TextStyle)
    ensures
        r == status_color_of(s@),
{
    if eq_str(s, "OPEN") {
        style(Some(Color::Red), None, true)
    } else if eq_str(s, "IN_PROGRESS") {
        style(Some(Color::Yellow), None, true)
    } else if eq_str(s, "PENDING") {
        style(Some(Color::Cyan), None, false)
    } else if eq_str(s, "RESOLVED") {
        style(Some(Color::Green), None, false)
    } else {
        style(Some(Color::DarkGray), None, false)
    }
}

/// The style of a priority in the detail pane.
pub open spec fn priority_color_of(p: Seq<char>) -> TextStyle {
    if p == "CRITICAL"@ {
        TextStyle { fg: Some(Color::White), bg: Some(Color::Red), bold: true }
    } else if p == "HIGH"@ {
        colored_bold(Color::Red)
    } else if p == "LOW"@ {
        colored(Color::DarkGray)
    } else {
        plain()
    }
}

/// A priority's style in the detail pane: CRITICAL bold white on red, HIGH
/// bold red, LOW dark grey, anything else plain.
pub fn priority_color(p: &str) -> (r: TextStyle)
    ensures
        r == priority_color_of(p@),
{
    if eq_str(p, "CRITICAL") {
        style(Some(Color::White), Some(Color::Red), true)
    } else if eq_str(p, "HIGH") {
        style(Some(Color::Red), None, true)
    } else if eq_str(p, "LOW") {
        style(Some(Color::DarkGray), None, false)
    } else {
        style(None, None, false)
    }
}

/// The style of a status in a list row.
pub open spec fn list_status_style_of(s: Seq<char>) -> TextStyle {
    if s == "OPEN"@ {
        colored(Color::Red)
    } else if s == "IN_PROGRESS"@ {
        colored(Color::Yellow)
    } else if s == "PENDING"@ {
        colored(Color::Cyan)
    } else if s == "RESOLVED"@ {
        colored(Color::Green)
    } else {
        colored(Color::DarkGray)
    }
}

/// A status's style in a list row: OPEN red, IN_PROGRESS yellow, PENDING
/// cyan, RESOLVED green, anything else dark grey.
pub fn list_status_style(s: &str) -> (r: TextStyle)
    ensures
        r == list_status_style_of(s@),
{
    if eq_str(s, "OPEN") {
        style(Some(Color::Red), None, false)
    } else if eq_str(s, "IN_PROGRESS") {
        style(Some(Color::Yellow), None, false)
    } else if eq_str(s, "PENDING") {
        style(Some(Color::Cyan), None, false)
    } else if eq_str(s, "RESOLVED") {
        style(Some(Color::Green), None, false)
    } else {
        style(Some(Color::DarkGray), None, false)
    }
}

/// The style of a priority in a list row.
pub open spec fn list_priority_style_of(p: Seq<char>) -> TextStyle {
    if p == "CRITICAL"@ {
        colored_bold(Color::Red)
    } else if p == "HIGH"@ {
        colored(Color::Red)
    } else if p == "LOW"@ {
        colored(Color::DarkGray)
    } else {
        plain()
    }
}

/// A priority's style in a list row: CRITICAL bold red, HIGH red, LOW dark
/// grey, anything else plain.
pub fn list_priority_style(p: &str) -> (r: TextStyle)
    ensures
        r == list_priority_style_of(p@),
{
    if eq_str(p, "CRITICAL") {
        style(Some(Color::Red), None, true)
    } else if eq_str(p, "HIGH") {
        style(Some(Color::Red), None, false)
    } else if eq_str(p, "LOW") {
        style(Some(Color::DarkGray), None, false)
    } else {
        style(None, None, false)
    }
}

/// HTML to text for the detail pane: the `<!--html-->` marker dropped, tags
/// removed, block elements turned into line breaks, entities decoded, as
/// `html_to_text` does.
pub fn strip_html(input: &str) -> (r: String)
    ensures
        r@ == html_text(input@),
{
    html_to_text(input)
}

// ── drawing: text ───────────────────────────────────────────────────────

/// A piece of text and how it is drawn.
#[derive(Debug, Clone)]
pub struct Span {
    pub text: String,
    pub style: TextStyle,
}

pub open spec fn span_view(s: Span) -> (Seq<char>, TextStyle) {
    (s.text@, s.style)
}

pub open spec fn line_view(l: Vec<Span>) -> Seq<(Seq<char>, TextStyle)> {
    l@.map_values(|s: Span| span_view(s))
}

pub open spec fn lines_view(ls: Seq<Vec<Span>>) -> Seq<Seq<(Seq<char>, TextStyle)>> {
    ls.map_values(|l: Vec<Span>| line_view(l))
}

/// A line of one plain piece of text.
pub open spec fn text_line(t: Seq<char>) -> Seq<(Seq<char>, TextStyle)> {
    seq![(t, plain())]
}

fn span(text: String, style: TextStyle) -> (r: Span)
    ensures
        span_view(r) == (text@, style),
{
    Span { text, style }
}

fn line1(a: Span) -> (r: Vec<Span>)
    ensures
        line_view(r) == seq![span_view(a)],
{
    let mut r: Vec<Span> = Vec::new();
    r.push(a);
    assert(line_view(r) =~= seq![span_view(a)]);
    r
}

fn plain_line(t: String) -> (r: Vec<Span>)
    ensures
        line_view(r) == text_line(t@),
{
    line1(span(t, style(None, None, false)))
}

fn push_line(out: &mut Vec<Vec<Span>>, l: Vec<Span>)
    ensures
        lines_view(final(out)@) == lines_view(old(out)@).push(line_view(l)),
{
    let ghost before = lines_view(out@);
    out.push(l);
    assert(lines_view(out@) =~= before.push(line_view(l)));
}

fn push_span(l: &mut Vec<Span>, s: Span)
    ensures
        line_view(*final(l)) == line_view(*old(l)).push(span_view(s)),
{
    let ghost before = line_view(*l);
    l.push(s);
    assert(line_view(*l) =~= before.push(span_view(s)));
}

/// `format!("{:<10} ", s)`: padded with spaces to ten characters, then a space.
pub open spec fn number_column(s: Seq<char>) -> Seq<char> {
    if s.len() < 10 {
        s + Seq::new((10 - s.len()) as nat, |i: int| ' ') + " "@
    } else {
        s + " "@
    }
}

fn number_column_of(s: &str) -> (r: String)
    ensures
        r@ == number_column(s@),
{
    let mut v = chars_of(s);
    let ghost orig = v@;
    let n0: usize = v.len();
    let mut k: usize = v.len();
    assert(v@ =~= orig + Seq::new((k - orig.len()) as nat, |i: int| ' '));
    while k < 10
        invariant
            orig.len() <= k,
            k <= 10 || k == orig.len(),
            v@ == orig + Seq::new((k - orig.len()) as nat, |i: int| ' '),
        decreases 10 - k,
    {
        v.push(' ');
        k = k + 1;
        assert(v@ =~= orig + Seq::new((k - orig.len()) as nat, |i: int| ' '));
    }
    let ghost padded = v@;
    v.push(' ');
    proof {
        reveal_strlit(" ");
    }
    assert(v@ =~= padded + " "@);
    if k > n0 {
        assert(k == 10);
    } else {
        assert(k == orig.len());
        assert(padded =~= orig);
    }
    assert(v@ =~= number_column(s@));
    string_from(&v)
}

/// A row of the ticket list: number, short status, short priority, title.
pub open spec fn list_line_of(t: TicketSummary) -> Seq<(Seq<char>, TextStyle)> {
    seq![
        (number_column(t.ticket_number@), colored(Color::DarkGray)),
        (short_status_of(t.status@), list_status_style_of(t.status@)),
        (" "@, plain()),
        (short_priority_of(t.priority@), list_priority_style_of(t.priority@)),
        (" "@, plain()),
        (t.title@, plain()),
    ]
}

/// The rows of the ticket list.
pub fn list_lines(tickets: &Vec<TicketSummary>) -> (r: Vec<Vec<Span>>)
    ensures
        lines_view(r@) == tickets@.map_values(|t: TicketSummary| list_line_of(t)),
{
    let mut out: Vec<Vec<Span>> = Vec::new();
    let mut i: usize = 0;
    while i < tickets.len()
        invariant
            i <= tickets.len(),
            lines_view(out@) == tickets@.take(i as int).map_values(
                |t: TicketSummary| list_line_of(t),
            ),
        decreases tickets.len() - i,
    {
        let t = &tickets[i];
        let mut l: Vec<Span> = Vec::new();
        push_span(&mut l, span(number_column_of(t.ticket_number.as_str()), style(Some(Color::DarkGray), None, false)));
        push_span(&mut l, span(short_status(t.status.as_str()), list_status_style(t.status.as_str())));
        push_span(&mut l, span(string_of(" "), style(None, None, false)));
        push_span(&mut l, span(string_of(short_priority(t.priority.as_str())), list_priority_style(t.priority.as_str())));
        push_span(&mut l, span(string_of(" "), style(None, None, false)));
        push_span(&mut l, span(t.title.clone(), style(None, None, false)));
        assert(line_view(l) =~= list_line_of(*t));
        push_line(&mut out, l);
        i = i + 1;
        assert(tickets@.take(i as int).map_values(|t: TicketSummary| list_line_of(t)) =~= tickets@.take(
            (i - 1) as int,
        ).map_values(|t: TicketSummary| list_line_of(t)).push(list_line_of(tickets@[i - 1])));
    }
    assert(tickets@.take(tickets.len() as int) =~= tickets@);
    out
}

/// The title of the list pane.
pub open spec fn list_title_of(s: AppView) -> Seq<char> {
    if s.search.len() == 0 {
        "Tickets"@
    } else {
        "Tickets — search: "@ + s.search
    }
}

/// The text of the bottom line: a fresh status message, else the keys of
/// the current pane.
pub open spec fn status_bar_of(s: AppView, now: u64) -> Seq<char> {
    match visible_flash(s, now) {
        Some(m) => m,
        None => match s.pane {
            Pane::List => "j/k:nav  Enter:open  /:search  c:claim  x:close  R:refresh  ?:help  q:quit"@,
            Pane::Detail => "j/k:scroll  r:reply  c:claim  x:close  Esc:back  ?:help  q:back"@,
            Pane::Search => "/"@ + s.search + "  Enter:apply  Esc:cancel"@,
            Pane::Help => "Esc / ? / q to dismiss"@,
        },
    }
}

/// Whether a comment is marked internal, as shown after its author.
pub open spec fn internal_mark(internal: bool) -> Seq<char> {
    if internal {
        " [internal]"@
    } else {
        ""@
    }
}

/// "1 reply", "n replies".
pub open spec fn replies_label(n: nat) -> Seq<char> {
    decimal(n) + if n == 1 {
        " reply"@
    } else {
        " replies"@
    }
}

/// Each line of a text as its own plain line, after `indent`.
pub open spec fn indented_lines(ls: Seq<Seq<char>>, indent: Seq<char>) -> Seq<Seq<(Seq<char>, TextStyle)>> {
    ls.map_values(|l: Seq<char>| text_line(indent + l))
}

/// The text of a stored body as the detail pane shows it.
pub open spec fn shown_body(body: Seq<char>) -> Seq<char> {
    html_text(body)
}

/// The lines of one reply: author (bold), the internal mark (yellow), the
/// time (dark grey), then the body indented by two, then an empty line.
pub open spec fn comment_lines(c: Comment) -> Seq<Seq<(Seq<char>, TextStyle)>> {
    seq![
        seq![
            (party_label_of(c.author), bold_style()),
            (internal_mark(c.is_internal), colored(Color::Yellow)),
            ("  "@ + chrono_formatted(c.created_at.secs as int, c.created_at.nanos as int, "%Y-%m-%d %H:%M"@), colored(Color::DarkGray)),
        ],
    ] + indented_lines(lines(shown_body(c.body@)), "  "@) + seq![text_line(""@)]
}

pub open spec fn comments_lines(cs: Seq<Comment>) -> Seq<Seq<(Seq<char>, TextStyle)>>
    decreases cs.len(),
{
    if cs.len() == 0 {
        seq![]
    } else {
        comments_lines(cs.drop_last()) + comment_lines(cs.last())
    }
}

/// The head of the detail pane: number and title, status, priority and
/// requester, assignee and site when there are some, an empty line.
pub open spec fn detail_head(t: Ticket) -> Seq<Seq<(Seq<char>, TextStyle)>> {
    seq![
        seq![(t.ticket_number@, bold_style()), ("  "@, plain()), (t.title@, plain())],
        seq![
            ("["@ + t.status@ + "]"@, status_color_of(t.status@)),
            (" "@, plain()),
            ("["@ + t.priority@ + "]"@, priority_color_of(t.priority@)),
            ("  opened by "@ + party_label_of(t.requester), plain()),
        ],
    ] + match t.assigned_agent {
        Some(a) => seq![text_line("  assigned to "@ + party_label_of(a))],
        None => seq![],
    } + match t.site {
        Some(st) => seq![text_line("  site "@ + st.name@)],
        None => seq![],
    } + seq![text_line(""@)]
}

/// The whole detail pane for a loaded ticket.
pub open spec fn detail_lines_of(t: Ticket) -> Seq<Seq<(Seq<char>, TextStyle)>> {
    detail_head(t) + indented_lines(lines(shown_body(t.description@)), ""@) + seq![
        text_line(""@),
        seq![("── "@ + replies_label(t.comments@.len()) + " ──"@, colored(Color::DarkGray))],
        text_line(""@),
    ] + comments_lines(t.comments@)
}

/// Every time on the ticket's replies is one chrono can hold.
pub open spec fn comment_times_ok(t: Ticket) -> bool {
    forall|i: int| 0 <= i < t.comments@.len() ==> (#[trigger] t.comments@[i]).created_at.wf()
}

fn push_indented(out: &mut Vec<Vec<Span>>, text: &String, indent: &str)
    ensures
        lines_view(final(out)@) == lines_view(old(out)@) + indented_lines(lines(text@), indent@),
{
    let v = chars_of(text.as_str());
    let ls = crate::text::split_lines(&v);
    let ghost m = ls@.map_values(|l: Vec<char>| l@);
    let ghost start = lines_view(out@);
    let mut i: usize = 0;
    while i < ls.len()
        invariant
            i <= ls.len(),
            m == ls@.map_values(|l: Vec<char>| l@),
            m == lines(text@),
            lines_view(out@) == start + indented_lines(m.take(i as int), indent@),
        decreases ls.len() - i,
    {
        let piece = string_from(&ls[i]);
        let t = concat(indent, piece.as_str());
        push_line(out, plain_line(t));
        i = i + 1;
        assert(indented_lines(m.take(i as int), indent@) =~= indented_lines(m.take((i - 1) as int), indent@).push(
            text_line(indent@ + m[i - 1]),
        ));
    }
    assert(m.take(ls.len() as int) =~= m);
}

fn push_comment(out: &mut Vec<Vec<Span>>, c: &Comment)
    requires
        c.created_at.wf(),
    ensures
        lines_view(final(out)@) == lines_view(old(out)@) + comment_lines(*c),
{
    let ghost start = lines_view(out@);
    let mut head: Vec<Span> = Vec::new();
    push_span(&mut head, span(party_label(&c.author), style(None, None, true)));
    let mark = if c.is_internal {
        string_of(" [internal]")
    } else {
        string_of("")
    };
    push_span(&mut head, span(mark, style(Some(Color::Yellow), None, false)));
    let when = crate::time::format_instant(c.created_at, "%Y-%m-%d %H:%M");
    push_span(&mut head, span(concat("  ", when.as_str()), style(Some(Color::DarkGray), None, false)));
    let ghost hv = line_view(head);
    assert(hv =~= comment_lines(*c)[0]);
    push_line(out, head);
    let body = strip_html(c.body.as_str());
    push_indented(out, &body, "  ");
    let ghost mid = lines_view(out@);
    assert(mid == start.push(hv) + indented_lines(lines(shown_body(c.body@)), "  "@));
    push_line(out, plain_line(string_of("")));
    assert(lines_view(out@) == mid.push(text_line(""@)));
    assert(comment_lines(*c) =~= seq![hv] + indented_lines(lines(shown_body(c.body@)), "  "@) + seq![text_line(""@)]);
    assert(lines_view(out@) =~= start + comment_lines(*c));
}

/// The lines of the detail pane for a loaded ticket.
pub fn detail_lines(t: &Ticket) -> (r: Vec<Vec<Span>>)
    requires
        comment_times_ok(*t),
    ensures
        lines_view(r@) == detail_lines_of(*t),
{
    let mut out: Vec<Vec<Span>> = Vec::new();
    let mut first: Vec<Span> = Vec::new();
    push_span(&mut first, span(t.ticket_number.clone(), style(None, None, true)));
    push_span(&mut first, span(string_of("  "), style(None, None, false)));
    push_span(&mut first, span(t.title.clone(), style(None, None, false)));
    let ghost l0 = line_view(first);
    assert(l0 =~= seq![(t.ticket_number@, bold_style()), ("  "@, plain()), (t.title@, plain())]);
    push_line(&mut out, first);
    let mut second: Vec<Span> = Vec::new();
    let st = concat("[", t.status.as_str());
    push_span(&mut second, span(concat(st.as_str(), "]"), status_color(t.status.as_str())));
    push_span(&mut second, span(string_of(" "), style(None, None, false)));
    let pr = concat("[", t.priority.as_str());
    push_span(&mut second, span(concat(pr.as_str(), "]"), priority_color(t.priority.as_str())));
    let who = party_label(&t.requester);
    push_span(&mut second, span(concat("  opened by ", who.as_str()), style(None, None, false)));
    let ghost l1 = line_view(second);
    assert(l1 =~= seq![
        ("["@ + t.status@ + "]"@, status_color_of(t.status@)),
        (" "@, plain()),
        ("["@ + t.priority@ + "]"@, priority_color_of(t.priority@)),
        ("  opened by "@ + party_label_of(t.requester), plain()),
    ]);
    push_line(&mut out, second);
    assert(lines_view(out@) =~= seq![l0, l1]);
    let ghost agent_lines: Seq<Seq<(Seq<char>, TextStyle)>> = match &t.assigned_agent {
        Some(a) => seq![text_line("  assigned to "@ + party_label_of(*a))],
        None => seq![],
    };
    let ghost site_lines: Seq<Seq<(Seq<char>, TextStyle)>> = match &t.site {
        Some(st) => seq![text_line("  site "@ + st.name@)],
        None => seq![],
    };
    if let Some(a) = &t.assigned_agent {
        let n = party_label(a);
        push_line(&mut out, plain_line(concat("  assigned to ", n.as_str())));
    }
    assert(lines_view(out@) =~= seq![l0, l1] + agent_lines);
    if let Some(site) = &t.site {
        push_line(&mut out, plain_line(concat("  site ", site.name.as_str())));
    }
    assert(lines_view(out@) =~= seq![l0, l1] + agent_lines + site_lines);
    push_line(&mut out, plain_line(string_of("")));
    assert(lines_view(out@) =~= detail_head(*t));
    let body = strip_html(t.description.as_str());
    push_indented(&mut out, &body, "");
    push_line(&mut out, plain_line(string_of("")));
    let n = t.comments.len();
    let count = crate::text::decimal_string(n as u64);
    let label = if n == 1 {
        concat(count.as_str(), " reply")
    } else {
        concat(count.as_str(), " replies")
    };
    let a = concat("── ", label.as_str());
    push_line(&mut out, line1(span(concat(a.as_str(), " ──"), style(Some(Color::DarkGray), None, false))));
    push_line(&mut out, plain_line(string_of("")));
    let ghost before = lines_view(out@);
    assert(before =~= detail_head(*t) + indented_lines(lines(shown_body(t.description@)), ""@) + seq![
        text_line(""@),
        seq![("── "@ + replies_label(t.comments@.len()) + " ──"@, colored(Color::DarkGray))],
        text_line(""@),
    ]);
    let mut i: usize = 0;
    while i < t.comments.len()
        invariant
            i <= t.comments@.len(),
            comment_times_ok(*t),
            lines_view(out@) == before + comments_lines(t.comments@.take(i as int)),
        decreases t.comments.len() - i,
    {
        assert(t.comments@.take(i + 1).drop_last() =~= t.comments@.take(i as int));
        push_comment(&mut out, &t.comments[i]);
        i = i + 1;
    }
    assert(t.comments@.take(t.comments.len() as int) =~= t.comments@);
    out
}

/// The preview of the selected ticket while the list has the keyboard.
pub open spec fn preview_lines_of(t: TicketSummary) -> Seq<Seq<(Seq<char>, TextStyle)>> {
    seq![
        seq![(t.ticket_number@, bold_style())],
        text_line(t.title@),
        text_line(""@),
        text_line(t.status@ + " · "@ + t.priority@ + " · opened by "@ + party_label_of(t.requester)),
        text_line(""@),
        seq![("Press Enter to open detail."@, colored(Color::DarkGray))],
    ]
}

/// What the detail pane shows: its title, its lines, whether long lines
/// wrap, and how far it is scrolled (when it scrolls).
pub struct DetailPane {
    pub title: String,
    pub lines: Vec<Vec<Span>>,
    pub wrap: bool,
    pub scroll: Option<u16>,
}

pub ghost struct DetailPaneView {
    pub title: Seq<char>,
    pub lines: Seq<Seq<(Seq<char>, TextStyle)>>,
    pub wrap: bool,
    pub scroll: Option<u16>,
}

pub open spec fn detail_pane_view(d: DetailPane) -> DetailPaneView {
    DetailPaneView { title: d.title@, lines: lines_view(d.lines@), wrap: d.wrap, scroll: d.scroll }
}

/// The detail pane for a state: a preview of the selected ticket (or "No
/// tickets.") while the list has the keyboard and nothing is loaded,
/// "Loading…" while a ticket is on its way, else the loaded ticket.
pub open spec fn detail_pane_of(s: AppView) -> DetailPaneView {
    if s.pane != Pane::Detail && s.detail is None {
        DetailPaneView {
            title: "Detail"@,
            lines: match selected_ticket(s) {
                Some(t) => preview_lines_of(t),
                None => seq![text_line("No tickets."@)],
            },
            wrap: true,
            scroll: None,
        }
    } else {
        match s.detail {
            None => DetailPaneView {
                title: "Detail"@,
                lines: seq![seq![("Loading…"@, colored(Color::DarkGray))]],
                wrap: false,
                scroll: None,
            },
            Some(t) => DetailPaneView {
                title: "Detail — "@ + t.ticket_number@,
                lines: detail_lines_of(t),
                wrap: true,
                scroll: Some(s.detail_scroll),
            },
        }
    }
}

impl App {
    /// The title of the list pane.
    pub fn list_title(&self) -> (r: String)
        ensures
            r@ == list_title_of(self@),
    {
        if self.search.as_str().unicode_len() == 0 {
            string_of("Tickets")
        } else {
            concat("Tickets — search: ", self.search.as_str())
        }
    }

    /// The text of the bottom line at time `now`.
    pub fn status_bar_text(&self, now: u64) -> (r: String)
        ensures
            r@ == status_bar_of(self@, now),
    {
        match self.flash_visible(now) {
            Some(m) => m,
            None => match self.pane {
                Pane::List => string_of(
                    "j/k:nav  Enter:open  /:search  c:claim  x:close  R:refresh  ?:help  q:quit",
                ),
                Pane::Detail => string_of(
                    "j/k:scroll  r:reply  c:claim  x:close  Esc:back  ?:help  q:back",
                ),
                Pane::Search => {
                    let a = concat("/", self.search.as_str());
                    concat(a.as_str(), "  Enter:apply  Esc:cancel")
                },
                Pane::Help => string_of("Esc / ? / q to dismiss"),
            },
        }
    }

    /// What the detail pane shows.
    pub fn detail_pane(&self) -> (r: DetailPane)
        requires
            self.detail matches Some(t) ==> comment_times_ok(t),
        ensures
            detail_pane_view(r) == detail_pane_of(self@),
    {
        if self.pane != Pane::Detail && self.detail.is_none() {
            let lines = match self.selected_index() {
                Some(i) => {
                    let t = &self.tickets[i];
                    let mut out: Vec<Vec<Span>> = Vec::new();
                    push_line(&mut out, line1(span(t.ticket_number.clone(), style(None, None, true))));
                    push_line(&mut out, plain_line(t.title.clone()));
                    push_line(&mut out, plain_line(string_of("")));
                    let a = concat(t.status.as_str(), " · ");
                    let b = concat(a.as_str(), t.priority.as_str());
                    let c = concat(b.as_str(), " · opened by ");
                    let who = party_label(&t.requester);
                    push_line(&mut out, plain_line(concat(c.as_str(), who.as_str())));
                    push_line(&mut out, plain_line(string_of("")));
                    push_line(
                        &mut out,
                        line1(span(string_of("Press Enter to open detail."), style(Some(Color::DarkGray), None, false))),
                    );
                    assert(lines_view(out@) =~= preview_lines_of(*t));
                    out
                },
                None => {
                    let mut out: Vec<Vec<Span>> = Vec::new();
                    push_line(&mut out, plain_line(string_of("No tickets.")));
                    assert(lines_view(out@) =~= seq![text_line("No tickets."@)]);
                    out
                },
            };
            DetailPane { title: string_of("Detail"), lines, wrap: true, scroll: None }
        } else {
            match &self.detail {
                None => {
                    let mut out: Vec<Vec<Span>> = Vec::new();
                    push_line(&mut out, line1(span(string_of("Loading…"), style(Some(Color::DarkGray), None, false))));
                    assert(lines_view(out@) =~= seq![seq![("Loading…"@, colored(Color::DarkGray))]]);
                    DetailPane { title: string_of("Detail"), lines: out, wrap: false, scroll: None }
                },
                Some(t) => {
                    let lines = detail_lines(t);
                    DetailPane {
                        title: concat("Detail — ", t.ticket_number.as_str()),
                        lines,
                        wrap: true,
                        scroll: Some(self.detail_scroll),
                    }
                },
            }
        }
    }
}

} // verus!
