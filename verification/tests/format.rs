use csshd::format::{
    html_to_text, priority_styled, relative_time, status_styled, ticket_table,
    ticket_table_in, TicketRow,
};
use csshd::time::Timestamp;

#[test]
fn paragraphs_become_separate_lines() {
    assert_eq!(html_to_text("<p>one</p><p>two</p>"), "one\ntwo");
}

#[test]
fn strips_the_html_marker() {
    assert_eq!(html_to_text("<!--html--><p>hi</p>"), "hi");
}

#[test]
fn breaks_and_list_items() {
    assert_eq!(html_to_text("a<br>b<br/>c"), "a\nb\nc");
    assert_eq!(html_to_text("<ul><li>x</li><li>y</li></ul>"), "x\ny");
}

#[test]
fn inline_tags_do_not_break() {
    assert_eq!(
        html_to_text("<p>hello <b>bold</b> and <i>italic</i></p>"),
        "hello bold and italic"
    );
}

#[test]
fn decodes_entities_without_double_decoding() {
    assert_eq!(html_to_text("a &amp; b"), "a & b");
    assert_eq!(html_to_text("&amp;lt;"), "&lt;");
    assert_eq!(
        html_to_text("&lt;tag&gt; &quot;q&quot; &#39;s&#39;"),
        "<tag> \"q\" 's'"
    );
}

#[test]
fn plain_text_passes_through() {
    assert_eq!(html_to_text("just text"), "just text");
}

#[test]
fn collapses_blank_runs_and_trims() {
    assert_eq!(
        html_to_text("<p>a</p><p></p><p></p><p>b</p><p></p>"),
        "a\nb"
    );
}

#[test]
fn html_single_blank_line_is_kept_and_trailing_spaces_go() {
    assert_eq!(html_to_text("a  \n\n\n\nb \r\n"), "a\n\nb");
    assert_eq!(html_to_text(""), "");
    assert_eq!(html_to_text("<DIV>Up</DIV>x"), "Up\nx");
    assert_eq!(html_to_text("a<p"), "a");
    assert_eq!(html_to_text("&nbsp;x&nbsp;"), " x");
}

#[test]
fn html_marker_only_stripped_once() {
    assert_eq!(html_to_text("<!--html--><!--html-->t"), "t");
}

fn ts(secs: i64) -> Timestamp {
    Timestamp::new(secs, 0)
}

#[test]
fn relative_time_thresholds() {
    let now = ts(1_800_000_000);
    assert_eq!(relative_time(ts(1_800_000_000 - 59), now), "just now");
    assert_eq!(relative_time(ts(1_800_000_000 + 500), now), "just now");
    assert_eq!(relative_time(ts(1_800_000_000 - 60), now), "1m ago");
    assert_eq!(relative_time(ts(1_800_000_000 - 3599), now), "59m ago");
    assert_eq!(relative_time(ts(1_800_000_000 - 3600), now), "1h ago");
    assert_eq!(relative_time(ts(1_800_000_000 - 86_399), now), "23h ago");
    assert_eq!(relative_time(ts(1_800_000_000 - 86_400 * 3), now), "3d ago");
    assert_eq!(relative_time(ts(1_800_000_000 - 86_400 * 14 + 1), now), "13d ago");
}

#[test]
fn relative_time_rounds_toward_zero() {
    let now = Timestamp::new(100, 300_000_000);
    assert_eq!(relative_time(Timestamp::new(40, 900_000_000), now), "just now");
    assert_eq!(relative_time(Timestamp::new(40, 300_000_000), now), "1m ago");
}

#[test]
fn relative_time_falls_back_to_the_date() {
    let now = ts(1_800_000_000);
    // 2024-03-04 12:00:00 UTC
    assert_eq!(relative_time(ts(1_709_553_600), now), "Mar 04, 2024");
    assert_eq!(relative_time(ts(0), now), "Jan 01, 1970");
}

#[test]
fn relative_time_at_the_ends_of_the_range() {
    let now = ts(8_210_266_876_799);
    assert!(!relative_time(ts(-8_334_601_228_800), now).is_empty());
    // chrono's earliest instant is the start of January 2 of year -262143.
    assert!(chrono::DateTime::from_timestamp(-8_334_601_228_800, 0).is_some());
    assert!(chrono::DateTime::from_timestamp(-8_334_601_228_801, 0).is_none());
    assert!(ts(-8_334_601_228_800).is_valid());
    assert!(!ts(-8_334_601_228_801).is_valid());
    assert!(!relative_time(ts(8_210_266_876_799 - 86_400 * 20), now).is_empty());
    assert_eq!(relative_time(ts(1_000_000), ts(1_000_000 + 86_400 * 30)), "Jan 12, 1970");
}

#[test]
fn status_colours() {
    assert_eq!(status_styled("OPEN", true), "\x1b[31m\x1b[1mOPEN\x1b[0m\x1b[39m");
    assert_eq!(
        status_styled("IN_PROGRESS", true),
        "\x1b[33m\x1b[1mIN PROGRESS\x1b[0m\x1b[39m"
    );
    assert_eq!(status_styled("PENDING", true), "\x1b[36mPENDING\x1b[39m");
    assert_eq!(status_styled("RESOLVED", true), "\x1b[32mRESOLVED\x1b[39m");
    assert_eq!(status_styled("CLOSED", true), "\x1b[2mCLOSED\x1b[0m");
    assert_eq!(status_styled("MERGED", true), "\x1b[2mMERGED\x1b[0m");
    assert_eq!(status_styled("WAITING", true), "WAITING");
}

#[test]
fn plain_labels_without_colour() {
    assert_eq!(status_styled("OPEN", false), "OPEN");
    assert_eq!(status_styled("IN_PROGRESS", false), "IN PROGRESS");
    assert_eq!(status_styled("CLOSED", false), "CLOSED");
    assert_eq!(status_styled("WAITING", false), "WAITING");
    assert_eq!(priority_styled("CRITICAL", false), "CRITICAL");
    assert_eq!(priority_styled("LOW", false), "LOW");
    assert_eq!(priority_styled("odd", false), "odd");
}

#[test]
fn priority_colours() {
    assert_eq!(priority_styled("CRITICAL", true), "\x1b[41m\x1b[1mCRITICAL\x1b[0m\x1b[49m");
    assert_eq!(priority_styled("HIGH", true), "\x1b[31m\x1b[1mHIGH\x1b[0m\x1b[39m");
    assert_eq!(priority_styled("NORMAL", true), "NORMAL");
    assert_eq!(priority_styled("LOW", true), "\x1b[2mLOW\x1b[0m");
    assert_eq!(priority_styled("odd", true), "odd");
}

#[test]
fn table_has_header_and_rows() {
    let rows = vec![
        TicketRow {
            number: "CSS-00001".to_string(),
            title: "Printer".to_string(),
            status: "OPEN".to_string(),
            priority: "LOW".to_string(),
            assignee: None,
            updated_at: ts(0),
        },
        TicketRow {
            number: "CSS-00002".to_string(),
            title: "VPN".to_string(),
            status: "CLOSED".to_string(),
            priority: "HIGH".to_string(),
            assignee: Some("Alex".to_string()),
            updated_at: ts(0),
        },
    ];
    let t = ticket_table_in(&rows, true, ts(86_400 * 20));
    let header: Vec<String> = t.header().unwrap().cell_iter().map(|c| c.content()).collect();
    assert_eq!(header, vec!["#", "Title", "Status", "Pri", "Assignee", "Updated"]);
    let cells: Vec<Vec<String>> = t
        .row_iter()
        .map(|r| r.cell_iter().map(|c| c.content()).collect())
        .collect();
    assert_eq!(cells.len(), 2);
    assert_eq!(cells[0][0], "CSS-00001");
    assert_eq!(cells[0][4], "—");
    assert_eq!(cells[0][5], "Jan 01, 1970");
    assert_eq!(cells[1][2], "\x1b[2mCLOSED\x1b[0m");
    assert_eq!(cells[1][4], "Alex");
    let plain = ticket_table_in(&rows, false, ts(86_400 * 20));
    let cells: Vec<Vec<String>> = plain
        .row_iter()
        .map(|r| r.cell_iter().map(|c| c.content()).collect())
        .collect();
    assert_eq!(cells[0][2], "OPEN");
    assert_eq!(cells[1][3], "HIGH");
    assert_eq!(ticket_table(&rows, ts(86_400 * 20)).row_iter().count(), 2);
}

#[test]
fn inline_tags_add_nothing() {
    assert_eq!(html_to_text("ab<span class=x>cd</span>ef"), html_to_text("abcdef"));
    assert_eq!(html_to_text("x<em>y"), "xy");
    assert_eq!(html_to_text("a<P>b"), "a\nb");
}

#[test]
fn rendered_text_is_tidy() {
    let inputs = [
        "<p>a  </p>\n\n\n<p>b</p>\t",
        "\n\n<div> x </div><br><br><br>y \r\n",
        "<p></p><p></p>",
        "  \n  \n",
        "<li>one</li><li>  </li><li>two</li>",
    ];
    for input in inputs {
        let out = html_to_text(input);
        let lines: Vec<&str> = out.split('\n').collect();
        for l in &lines {
            assert_eq!(l.trim_end(), *l, "trailing whitespace in {out:?}");
        }
        for w in lines.windows(2) {
            assert!(!(w[0].is_empty() && w[1].is_empty()), "two blank lines in {out:?}");
        }
        if !out.is_empty() {
            assert!(!lines[0].is_empty(), "leading blank line in {out:?}");
            assert!(!lines[lines.len() - 1].is_empty(), "trailing blank line in {out:?}");
        }
    }
}

#[test]
fn the_marker_changes_nothing() {
    for body in ["<p>hi</p> &amp; more", "plain", "", "<br>x<br>", "<!--html--><p>a</p>"] {
        assert_eq!(html_to_text(&format!("<!--html-->{body}")), html_to_text(body));
    }
}

#[test]
fn escaped_ampersands_decode_once() {
    assert_eq!(html_to_text("&amp;lt;b&amp;gt; &amp;amp; &amp;quot;"), "&lt;b&gt; &amp; &quot;");
    assert_eq!(html_to_text("&amp;#39;&amp;nbsp;"), "&#39;&nbsp;");
}
