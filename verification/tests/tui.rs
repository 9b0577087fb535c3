use csshd::client::{Comment, NamedRef, PartyRef, Ticket, TicketSummary};
use csshd::time::Timestamp;
use csshd::tui::{
    list_lines, party_label, priority_color, short_priority, short_status, status_color,
    strip_html, Action, App, AppEvent, Color, Key, KeyInput, MouseInput, MouseKind, Pane, Rect,
    TextStyle,
};

const SEC: u64 = 1_000_000_000;

fn party(name: Option<&str>, email: Option<&str>) -> PartyRef {
    PartyRef { id: None, name: name.map(str::to_string), email: email.map(str::to_string) }
}

fn summary(i: usize) -> TicketSummary {
    TicketSummary {
        id: format!("id{i}"),
        ticket_number: format!("CSS-0000{i}"),
        title: format!("title {i}"),
        status: "OPEN".to_string(),
        priority: "HIGH".to_string(),
        source: None,
        created_at: Timestamp::new(0, 0),
        updated_at: Timestamp::new(0, 0),
        requester: party(Some("Req"), None),
        assigned_agent: None,
        site: None,
    }
}

fn key(c: char) -> AppEvent {
    AppEvent::Key(KeyInput { key: Key::Char(c), ctrl: false })
}

fn special(k: Key) -> AppEvent {
    AppEvent::Key(KeyInput { key: k, ctrl: false })
}

fn loaded(n: usize) -> App {
    let mut app = App::new();
    app.handle(AppEvent::TicketsLoaded((0..n).map(summary).collect()), 0);
    app
}

#[test]
fn first_tick_reloads_then_waits_thirty_seconds() {
    let mut app = App::new();
    match app.handle(AppEvent::Tick, 5) {
        Some(Action::Refresh(q)) => {
            assert_eq!(q.page, Some(1));
            assert_eq!(q.page_size, Some(100));
            assert_eq!(q.search, None);
        }
        other => panic!("expected a refresh, got {other:?}"),
    }
    assert!(app.handle(AppEvent::Tick, 5 + 29 * SEC).is_none());
    assert!(matches!(app.handle(AppEvent::Tick, 5 + 30 * SEC), Some(Action::Refresh(_))));
}

#[test]
fn selection_wraps_both_ways() {
    let mut app = loaded(3);
    assert_eq!(app.selected, Some(0));
    app.handle(key('k'), 0);
    assert_eq!(app.selected, Some(2));
    app.handle(key('j'), 0);
    assert_eq!(app.selected, Some(0));
    app.handle(special(Key::PageDown), 0);
    assert_eq!(app.selected, Some(1));
    app.handle(special(Key::PageUp), 0);
    assert_eq!(app.selected, Some(0));
    app.handle(key('G'), 0);
    assert_eq!(app.selected, Some(2));
    app.handle(key('g'), 0);
    assert_eq!(app.selected, Some(0));
}

#[test]
fn reload_keeps_the_cursor_in_range() {
    let mut app = loaded(5);
    app.handle(key('G'), 0);
    app.handle(AppEvent::TicketsLoaded((0..2).map(summary).collect()), 0);
    assert_eq!(app.selected, Some(1));
    app.handle(AppEvent::TicketsLoaded(vec![]), 0);
    assert_eq!(app.selected, None);
}

#[test]
fn enter_opens_detail_and_escape_returns() {
    let mut app = loaded(2);
    app.handle(key('j'), 0);
    match app.handle(special(Key::Enter), 0) {
        Some(Action::LoadDetail(id)) => assert_eq!(id, "id1"),
        other => panic!("expected a detail load, got {other:?}"),
    }
    assert_eq!(app.pane, Pane::Detail);
    app.handle(special(Key::Esc), 0);
    assert_eq!(app.pane, Pane::List);
    assert!(app.detail.is_none());
}

#[test]
fn claim_and_close_from_the_list() {
    let mut app = loaded(1);
    match app.handle(key('c'), 0) {
        Some(Action::Claim { id, number }) => {
            assert_eq!(id, "id0");
            assert_eq!(number, "CSS-00000");
        }
        other => panic!("expected a claim, got {other:?}"),
    }
    assert!(matches!(app.handle(key('x'), 0), Some(Action::Close { .. })));
    let mut empty = App::new();
    assert!(empty.handle(key('c'), 0).is_none());
}

#[test]
fn search_typing_and_cancel() {
    let mut app = loaded(1);
    app.handle(key('/'), 0);
    assert_eq!(app.pane, Pane::Search);
    app.handle(key('a'), 0);
    app.handle(key('b'), 0);
    app.handle(special(Key::Backspace), 0);
    assert_eq!(app.search, "a");
    app.handle(special(Key::Enter), 0);
    assert_eq!(app.pane, Pane::List);
    assert_eq!(app.list_title(), "Tickets — search: a");
    match app.handle(AppEvent::Tick, 1) {
        Some(Action::Refresh(q)) => assert_eq!(q.search.as_deref(), Some("a")),
        other => panic!("expected a refresh, got {other:?}"),
    }
    app.handle(key('/'), 2);
    app.handle(special(Key::Esc), 2);
    assert_eq!(app.search, "");
    assert_eq!(app.list_title(), "Tickets");
}

#[test]
fn control_c_quits_even_while_searching() {
    let mut app = loaded(1);
    app.handle(key('/'), 0);
    app.handle(AppEvent::Key(KeyInput { key: Key::Char('c'), ctrl: true }), 0);
    assert!(app.quit);
    assert_eq!(app.search, "");
}

#[test]
fn help_pane_opens_and_closes() {
    let mut app = loaded(1);
    app.handle(key('?'), 0);
    assert_eq!(app.pane, Pane::Help);
    app.handle(key('x'), 0);
    assert_eq!(app.pane, Pane::Help);
    app.handle(key('q'), 0);
    assert_eq!(app.pane, Pane::List);
    assert!(!app.quit);
}

#[test]
fn status_messages_fade_after_four_seconds() {
    let mut app = loaded(1);
    app.handle(AppEvent::Error("boom".to_string()), 10);
    assert_eq!(app.status_bar_text(10 + 3 * SEC), "error: boom");
    assert_eq!(
        app.status_bar_text(10 + 4 * SEC),
        "j/k:nav  Enter:open  /:search  c:claim  x:close  R:refresh  ?:help  q:quit"
    );
    app.handle(key('r'), 20);
    assert_eq!(app.status_bar_text(21), "Reply on CSS-00000 — open detail (Enter) first.");
}

#[test]
fn refresh_key_forces_the_next_tick() {
    let mut app = loaded(1);
    app.handle(AppEvent::Tick, 0);
    assert!(app.handle(AppEvent::Tick, 1).is_none());
    app.handle(key('R'), 2);
    assert_eq!(app.status_bar_text(3), "Refreshing…");
    assert!(matches!(app.handle(AppEvent::Tick, 3), Some(Action::Refresh(_))));
}

#[test]
fn mouse_clicks_select_rows_and_scroll() {
    let mut app = loaded(3);
    app.set_layout(
        Rect { x: 0, y: 0, width: 40, height: 10 },
        Rect { x: 40, y: 0, width: 60, height: 10 },
        0,
    );
    assert_eq!(app.row_at(5, 0), None);
    assert_eq!(app.row_at(5, 2), Some(1));
    assert_eq!(app.row_at(5, 4), None);
    match app.handle(AppEvent::Mouse(MouseInput { kind: MouseKind::LeftDown, column: 5, row: 3 }), 0) {
        Some(Action::LoadDetail(id)) => assert_eq!(id, "id2"),
        other => panic!("expected a detail load, got {other:?}"),
    }
    assert_eq!(app.selected, Some(2));
    app.handle(AppEvent::Mouse(MouseInput { kind: MouseKind::ScrollDown, column: 50, row: 3 }), 0);
    assert_eq!(app.detail_scroll, 3);
    app.handle(AppEvent::Mouse(MouseInput { kind: MouseKind::ScrollDown, column: 5, row: 3 }), 0);
    assert_eq!(app.selected, Some(2));
    app.handle(AppEvent::Mouse(MouseInput { kind: MouseKind::LeftDown, column: 50, row: 3 }), 0);
    assert_eq!(app.pane, Pane::Detail);
}

#[test]
fn detail_keys_scroll_claim_close_and_reply() {
    let mut app = loaded(1);
    app.handle(special(Key::Enter), 0);
    let t = Ticket {
        id: "id0".to_string(),
        ticket_number: "CSS-00000".to_string(),
        title: "t".to_string(),
        description: "d".to_string(),
        status: "OPEN".to_string(),
        priority: "LOW".to_string(),
        created_at: Timestamp::new(0, 0),
        updated_at: Timestamp::new(0, 0),
        requester: party(None, Some("r@x")),
        assigned_agent: None,
        site: None,
        comments: vec![],
    };
    app.handle(AppEvent::TicketLoaded(t), 0);
    app.handle(key('k'), 0);
    assert_eq!(app.detail_scroll, 0);
    app.handle(special(Key::PageDown), 0);
    assert_eq!(app.detail_scroll, 10);
    assert!(matches!(app.handle(key('r'), 0), Some(Action::Reply { .. })));
    assert!(matches!(app.handle(key('c'), 0), Some(Action::Claim { .. })));
    assert!(matches!(app.handle(key('x'), 0), Some(Action::Close { .. })));
    assert_eq!(app.pane, Pane::List);
    assert!(app.detail.is_none());
}

#[test]
fn short_labels() {
    assert_eq!(short_status("IN_PROGRESS"), "WORK");
    assert_eq!(short_status("RESOLVED"), "DONE");
    assert_eq!(short_status("WAITING_ON_REQUESTER"), "WAIT");
    assert_eq!(short_status("NEW"), "NEW");
    assert_eq!(short_priority("LOW"), "LOW ");
    assert_eq!(short_priority("URGENT"), "????");
    assert_eq!(party_label(&party(None, Some("e@x"))), "e@x");
    assert_eq!(party_label(&party(None, None)), "?");
}

#[test]
fn styles() {
    assert_eq!(status_color("OPEN"), TextStyle { fg: Some(Color::Red), bg: None, bold: true });
    assert_eq!(status_color("CLOSED"), TextStyle { fg: Some(Color::DarkGray), bg: None, bold: false });
    assert_eq!(
        priority_color("CRITICAL"),
        TextStyle { fg: Some(Color::White), bg: Some(Color::Red), bold: true }
    );
    assert_eq!(priority_color("NORMAL"), TextStyle { fg: None, bg: None, bold: false });
}

#[test]
fn tui_strip_html_keeps_block_structure() {
    assert_eq!(strip_html("<!--html--><p>one</p><p>two</p>"), "one\ntwo");
    assert_eq!(strip_html("a<br>b<li>c</li>"), "a\nb\nc");
    assert_eq!(strip_html("&amp;lt;"), "&lt;");
}

#[test]
fn list_rows_pad_the_number() {
    let lines = list_lines(&vec![summary(1)]);
    let texts: Vec<&str> = lines[0].iter().map(|s| s.text.as_str()).collect();
    assert_eq!(texts, vec!["CSS-00001  ", "OPEN", " ", "HIGH", " ", "title 1"]);
}

#[test]
fn detail_pane_shows_the_ticket() {
    let mut app = loaded(1);
    let pane = app.detail_pane();
    assert_eq!(pane.title, "Detail");
    assert_eq!(pane.lines[3][0].text, "OPEN · HIGH · opened by Req");
    app.handle(special(Key::Enter), 0);
    assert_eq!(app.detail_pane().lines[0][0].text, "Loading…");
    let t = Ticket {
        id: "id0".to_string(),
        ticket_number: "CSS-00000".to_string(),
        title: "Printer".to_string(),
        description: "<!--html-->a<br>b".to_string(),
        status: "OPEN".to_string(),
        priority: "LOW".to_string(),
        created_at: Timestamp::new(0, 0),
        updated_at: Timestamp::new(0, 0),
        requester: party(Some("Ann"), None),
        assigned_agent: Some(party(None, Some("agent@x"))),
        site: Some(NamedRef { id: "s".to_string(), name: "HQ".to_string() }),
        comments: vec![Comment {
            id: "c".to_string(),
            body: "x\ny".to_string(),
            is_internal: true,
            created_at: Timestamp::new(86_400, 0),
            author: party(Some("Bo"), None),
        }],
    };
    app.handle(AppEvent::TicketLoaded(t), 0);
    let pane = app.detail_pane();
    assert_eq!(pane.title, "Detail — CSS-00000");
    let texts: Vec<String> = pane
        .lines
        .iter()
        .map(|l| l.iter().map(|s| s.text.as_str()).collect::<String>())
        .collect();
    assert_eq!(
        texts,
        vec![
            "CSS-00000  Printer",
            "[OPEN] [LOW]  opened by Ann",
            "  assigned to agent@x",
            "  site HQ",
            "",
            "a",
            "b",
            "",
            "── 1 reply ──",
            "",
            "Bo [internal]  1970-01-02 00:00",
            "  x",
            "  y",
            "",
        ]
    );
}

#[test]
fn a_finished_change_reloads_at_the_next_tick() {
    let mut app = loaded(2);
    assert!(matches!(app.handle(AppEvent::Tick, 1), Some(Action::Refresh(_))));
    assert!(app.handle(AppEvent::Tick, 2 * SEC).is_none());
    assert!(app.handle(AppEvent::Changed("Claimed CSS-00001.".to_string()), 3 * SEC).is_none());
    assert_eq!(app.flash_visible(3 * SEC).as_deref(), Some("Claimed CSS-00001."));
    assert!(matches!(app.handle(AppEvent::Tick, 4 * SEC), Some(Action::Refresh(_))));
    assert!(app.handle(AppEvent::Status("Comment posted.".to_string()), 5 * SEC).is_none());
    assert!(app.handle(AppEvent::Tick, 6 * SEC).is_none());
}
