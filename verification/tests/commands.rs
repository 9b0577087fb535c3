use csshd::client::{Comment, PartyRef, Ticket, TicketSummary, TokenResponse, WhoAmI, NamedRef};
use csshd::commands::comment::{
    body_source, comment_from_editor, editor_command, editor_template, posted_message,
    prepare_comment, split_command, BodySource,
};
use csshd::commands::list::{list_query, more_note, ticket_rows, ListOpts};
use csshd::commands::login::{after_poll, signed_in_message, LoginStep};
use csshd::commands::view::{body_text, strip_html, view_lines_at};
use csshd::commands::whoami::whoami_lines;
use csshd::time::Timestamp;

fn party(name: Option<&str>, email: Option<&str>) -> PartyRef {
    PartyRef { id: None, name: name.map(str::to_string), email: email.map(str::to_string) }
}

#[test]
fn list_query_defaults() {
    let q = list_query(ListOpts {
        status: Some("in_progress".to_string()),
        mine: true,
        assignee: Some("alex".to_string()),
        search: None,
        page_size: None,
        json: false,
    });
    assert_eq!(q.status.as_deref(), Some("IN_PROGRESS"));
    assert_eq!(q.assignee.as_deref(), Some("me"));
    assert_eq!(q.page, Some(1));
    assert_eq!(q.page_size, Some(50));
    let q = list_query(ListOpts {
        status: None,
        mine: false,
        assignee: Some("alex".to_string()),
        search: Some("vpn".to_string()),
        page_size: Some(10),
        json: true,
    });
    assert_eq!(q.status.as_deref(), Some("OPEN,IN_PROGRESS"));
    assert_eq!(q.assignee.as_deref(), Some("alex"));
    assert_eq!(q.search.as_deref(), Some("vpn"));
    assert_eq!(q.page_size, Some(10));
}

#[test]
fn list_rows_name_the_agent() {
    let mut t = TicketSummary {
        id: "a".to_string(),
        ticket_number: "CSS-00001".to_string(),
        title: "x".to_string(),
        status: "OPEN".to_string(),
        priority: "LOW".to_string(),
        source: None,
        created_at: Timestamp::new(0, 0),
        updated_at: Timestamp::new(7, 0),
        requester: party(None, None),
        assigned_agent: Some(party(None, Some("e@x"))),
        site: None,
    };
    let rows = ticket_rows(&vec![t.clone()]);
    assert_eq!(rows[0].assignee.as_deref(), Some("e@x"));
    assert_eq!(rows[0].updated_at, Timestamp::new(7, 0));
    t.assigned_agent = Some(party(Some("Al"), Some("e@x")));
    assert_eq!(ticket_rows(&vec![t]).pop().unwrap().assignee.as_deref(), Some("Al"));
    assert_eq!(
        more_note(120, 50).unwrap(),
        "Showing 50 of 120 matching tickets — narrow with --status, --mine, or --search."
    );
    assert_eq!(more_note(50, 50), None);
}

#[test]
fn comment_sources_and_trimming() {
    assert_eq!(body_source(Some("-".to_string())), BodySource::Stdin);
    assert_eq!(body_source(Some("hi".to_string())), BodySource::Given("hi".to_string()));
    assert_eq!(body_source(None), BodySource::Editor);
    assert_eq!(prepare_comment("  hi \n").unwrap(), "hi");
    assert_eq!(prepare_comment(" \n\t").unwrap_err(), "Empty comment — aborting.");
    assert_eq!(posted_message("CSS-1", true), "Comment posted on CSS-1 (internal).");
    assert_eq!(posted_message("CSS-1", false), "Comment posted on CSS-1.");
}

#[test]
fn editor_choice_and_command_split() {
    assert_eq!(editor_command(Some("code -w".into()), Some("vim".into()), false), "code -w");
    assert_eq!(editor_command(None, Some("vim".into()), false), "vim");
    assert_eq!(editor_command(None, None, true), "notepad");
    assert_eq!(editor_command(None, None, false), "vi");
    let (cmd, args) = split_command("  code  -w ").unwrap();
    assert_eq!(cmd, "code");
    assert_eq!(args, vec!["-w".to_string()]);
    assert!(split_command("   ").is_none());
}

#[test]
fn editor_template_and_comment_lines() {
    let t = editor_template(true);
    assert!(t.contains("INTERNAL"));
    assert!(t.ends_with("only.\n\n"));
    assert!(!editor_template(false).contains("INTERNAL"));
    assert_eq!(comment_from_editor(&format!("{t}hello\n  # note\nworld\n")), "\nhello\nworld");
}

#[test]
fn view_strip_html_and_body() {
    assert_eq!(strip_html("<b>x</b> &amp;lt;"), "x &lt;");
    assert_eq!(strip_html("<p>one</p><p>two</p>"), "one\ntwo");
    assert_eq!(body_text("<!--html--><p>a</p>"), "a");
    assert_eq!(body_text("<p>a</p>"), "<p>a</p>");
}

#[test]
fn view_lines_without_colour() {
    let t = Ticket {
        id: "i".to_string(),
        ticket_number: "CSS-00002".to_string(),
        title: "VPN".to_string(),
        description: "<!--html--><p>down</p>".to_string(),
        status: "PENDING".to_string(),
        priority: "NORMAL".to_string(),
        created_at: Timestamp::new(1000, 0),
        updated_at: Timestamp::new(1000, 0),
        requester: party(None, Some("r@x")),
        assigned_agent: None,
        site: None,
        comments: vec![Comment {
            id: "c".to_string(),
            body: "ok".to_string(),
            is_internal: false,
            created_at: Timestamp::new(1000, 0),
            author: party(Some("Bo"), None),
        }],
    };
    let lines = view_lines_at(&t, false, Timestamp::new(1030, 0));
    assert_eq!(
        lines,
        vec![
            "",
            "CSS-00002  VPN",
            "  PENDING · NORMAL · opened by r@x · just now",
            "",
            "  down",
            "",
            "  ──────── 1 reply",
            "",
            "  Bo · just now",
            "    ok",
            "",
        ]
    );
    let coloured = view_lines_at(&t, true, Timestamp::new(1030, 0));
    assert_eq!(coloured[1], "\x1b[1mCSS-00002\x1b[0m  VPN");
    assert_eq!(coloured[2], "  \x1b[36mPENDING\x1b[39m · NORMAL · opened by r@x · just now");
}

#[test]
fn whoami_lines_and_absence() {
    let me = WhoAmI {
        id: "u".to_string(),
        email: "me@x".to_string(),
        name: None,
        display_name: None,
        role: "AGENT".to_string(),
        is_active: true,
        team: Some(NamedRef { id: "t".to_string(), name: "Desk".to_string() }),
        ooo_start: Some(Timestamp::new(0, 0)),
        ooo_end: Some(Timestamp::new(86_400, 0)),
    };
    assert_eq!(
        whoami_lines(&me, Timestamp::new(100, 0)),
        vec!["me@x <me@x>", "  Role: AGENT", "  Team: Desk", "  Out of office until Jan 02, 1970 00:00 UTC"]
    );
    assert_eq!(whoami_lines(&me, Timestamp::new(86_400, 0)).len(), 3);
    assert_eq!(
        signed_in_message(Some("Me".to_string()), "me@x", Timestamp::new(0, 0)),
        "Signed in as Me (me@x). Token expires Jan 01, 1970."
    );
}

#[test]
fn untouched_template_posts_nothing() {
    for internal in [false, true] {
        let body = comment_from_editor(&editor_template(internal));
        assert_eq!(body, "");
        assert_eq!(prepare_comment(&body), Err("Empty comment — aborting.".to_string()));
    }
    assert_eq!(
        editor_template(false),
        "# Type your comment for the ticket below. Lines starting with '#' are\n# ignored. Save and exit to post; quit without saving to abort.\n\n"
    );
}

#[test]
fn login_steps_after_a_poll() {
    assert!(matches!(after_poll(Ok(None)), LoginStep::PollAgain));
    let token = TokenResponse {
        access_token: "t".to_string(),
        expires_at: Timestamp::new(0, 0),
    };
    match after_poll(Ok(Some(token))) {
        LoginStep::Approved(t) => assert_eq!(t.access_token, "t"),
        other => panic!("expected approval, got {other:?}"),
    }
    match after_poll(Err("Login was denied in the browser.".to_string())) {
        LoginStep::Failed(e) => assert_eq!(e, "login failed: Login was denied in the browser."),
        other => panic!("expected failure, got {other:?}"),
    }
}

#[test]
fn bare_renderers_agree_and_drop_angles() {
    for input in ["<!--html--><p>a &amp; b</p>", "plain <b>x</b>", "<!--html-->", "a > b < c"] {
        assert_eq!(csshd::tui::strip_html(input), strip_html(input));
        let body = input.strip_prefix("<!--html-->").unwrap_or(input);
        assert_eq!(csshd::tui::strip_html(input), strip_html(body));
    }
    let out = strip_html("x <y> z > w < q");
    assert!(!out.contains('<'));
}
