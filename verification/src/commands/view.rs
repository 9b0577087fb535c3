//! `csshd view`: one ticket in detail, as lines of terminal text.

use vstd::prelude::*;

use crate::client::{Comment, Ticket};
use crate::format::{
    html_text, html_to_text, bold, bold_if, dimmed, dimmed_if, fg, html_marker, priority_styled,
    relative_label, relative_time, status_styled, stdout_takes_color, status_label,
    priority_label, yellow_if,
};
use crate::text::{
    chars_of, concat, decimal, decimal_string, has_prefix, lines, split_lines,
    starts_with, string_from, string_of, trim, trim_ws,
};
use crate::time::Timestamp;
use crate::tui::party_label_of;

verus! {

broadcast use vstd::string::group_string_axioms;

/// HTML to text for `csshd view`: tags removed, block elements turned into
/// line breaks, entities decoded, as `html_to_text` does.
pub fn strip_html(html: &str) -> (r: String)
    ensures
        r@ == html_text(html@),
{
    html_to_text(html)
}

/// The text of a stored body: an HTML body (marked `<!--html-->`) as plain
/// text, anything else as it is.
pub open spec fn body_text_of(body: Seq<char>) -> Seq<char> {
    if starts_with(body, html_marker()) {
        html_text(body)
    } else {
        body
    }
}

/// The text of a stored body.
pub fn body_text(body: &str) -> (r: String)
    ensures
        r@ == body_text_of(body@),
{
    let v = chars_of(body);
    let m = crate::format::marker();
    if has_prefix(&v, &m) {
        html_to_text(body)
    } else {
        string_from(&v)
    }
}

/// `styled` when colours are on, else `plain`.
pub open spec fn colored_or(color: bool, styled: Seq<char>, plain: Seq<char>) -> Seq<char> {
    if color {
        styled
    } else {
        plain
    }
}

pub open spec fn texts(v: Seq<String>) -> Seq<Seq<char>> {
    v.map_values(|s: String| s@)
}

/// Each line of `text`, after `indent`.
pub open spec fn indented(ls: Seq<Seq<char>>, indent: Seq<char>) -> Seq<Seq<char>> {
    ls.map_values(|l: Seq<char>| indent + l)
}

/// The head: a blank line, number and title, status · priority · requester ·
/// age, assignee and site when known, a blank line.
pub open spec fn view_head(t: Ticket, color: bool, now: Timestamp) -> Seq<Seq<char>> {
    seq![
        ""@,
        colored_or(color, bold(t.ticket_number@), t.ticket_number@) + "  "@ + t.title@,
        "  "@ + status_label(t.status@, color) + " · "@ + priority_label(t.priority@, color) + " · opened by "@
            + party_label_of(t.requester) + " · "@ + relative_label(t.created_at, now),
    ] + match t.assigned_agent {
        Some(a) => seq!["  Assigned to "@ + party_label_of(a)],
        None => seq![],
    } + match t.site {
        Some(st) => seq!["  Site: "@ + st.name@],
        None => seq![],
    } + seq![""@]
}

/// The description, indented by two, and a blank line; nothing when it is
/// blank.
pub open spec fn view_description(t: Ticket) -> Seq<Seq<char>> {
    let body = trim_ws(body_text_of(t.description@));
    if body.len() == 0 {
        seq![]
    } else {
        indented(lines(body), "  "@) + seq![""@]
    }
}

/// "1 reply", "n replies".
pub open spec fn reply_count(n: nat) -> Seq<char> {
    decimal(n) + " "@ + if n == 1 {
        "reply"@
    } else {
        "replies"@
    }
}

/// One reply: author · age and the internal mark, its body indented by
/// four, a blank line.
pub open spec fn view_comment(c: Comment, color: bool, now: Timestamp) -> Seq<Seq<char>> {
    let author = party_label_of(c.author);
    let when = relative_label(c.created_at, now);
    let mark = if c.is_internal {
        " [internal]"@
    } else {
        ""@
    };
    seq![
        "  "@ + colored_or(color, bold(author), author) + " · "@ + colored_or(color, dimmed(when), when)
            + colored_or(color, fg("33"@, mark), mark),
    ] + indented(lines(trim_ws(body_text_of(c.body@))), "    "@) + seq![""@]
}

pub open spec fn view_comments(cs: Seq<Comment>, color: bool, now: Timestamp) -> Seq<Seq<char>>
    decreases cs.len(),
{
    if cs.len() == 0 {
        seq![]
    } else {
        view_comments(cs.drop_last(), color, now) + view_comment(cs.last(), color, now)
    }
}

/// The replies: "(no replies)", or a rule with the count and then each reply.
pub open spec fn view_replies(t: Ticket, color: bool, now: Timestamp) -> Seq<Seq<char>> {
    let n = t.comments@.len();
    if n == 0 {
        seq!["  (no replies)"@]
    } else {
        seq![
            "  ────────"@ + " "@ + colored_or(color, dimmed(reply_count(n)), reply_count(n)),
            ""@,
        ] + view_comments(t.comments@, color, now)
    }
}

/// The lines `csshd view` prints for a ticket, with colours on or off and
/// ages measured at `now`.
pub open spec fn view_text(t: Ticket, color: bool, now: Timestamp) -> Seq<Seq<char>> {
    view_head(t, color, now) + view_description(t) + view_replies(t, color, now)
}

/// Every time on the ticket is one chrono can hold.
pub open spec fn ticket_times_ok(t: Ticket) -> bool {
    &&& t.created_at.wf()
    &&& forall|i: int| 0 <= i < t.comments@.len() ==> (#[trigger] t.comments@[i]).created_at.wf()
}

fn push_text(out: &mut Vec<String>, s: String)
    ensures
        texts(final(out)@) == texts(old(out)@).push(s@),
{
    let ghost before = texts(out@);
    out.push(s);
    assert(texts(out@) =~= before.push(s@));
}

fn push_indented(out: &mut Vec<String>, text: &Vec<char>, indent: &str)
    ensures
        texts(final(out)@) == texts(old(out)@) + indented(lines(text@), indent@),
{
    let ls = split_lines(text);
    let ghost m = ls@.map_values(|l: Vec<char>| l@);
    let ghost start = texts(out@);
    let mut i: usize = 0;
    while i < ls.len()
        invariant
            i <= ls.len(),
            m == ls@.map_values(|l: Vec<char>| l@),
            m == lines(text@),
            texts(out@) == start + indented(m.take(i as int), indent@),
        decreases ls.len() - i,
    {
        let piece = string_from(&ls[i]);
        push_text(out, concat(indent, piece.as_str()));
        i = i + 1;
        assert(indented(m.take(i as int), indent@) =~= indented(m.take((i - 1) as int), indent@).push(
            indent@ + m[i - 1],
        ));
    }
    assert(m.take(ls.len() as int) =~= m);
}

fn party_name(p: &crate::client::PartyRef) -> (r: String)
    ensures
        r@ == party_label_of(*p),
{
    crate::tui::party_label(p)
}

fn push_head(out: &mut Vec<String>, t: &Ticket, color: bool, now: Timestamp)
    requires
        ticket_times_ok(*t),
        now.wf(),
    ensures
        texts(final(out)@) == texts(old(out)@) + view_head(*t, color, now),
{
    let ghost start = texts(out@);
    push_text(out, string_of(""));
    let num = bold_if(color, t.ticket_number.clone());
    let h = concat(num.as_str(), "  ");
    push_text(out, concat(h.as_str(), t.title.as_str()));
    let st = status_styled(t.status.as_str(), color);
    let pr = priority_styled(t.priority.as_str(), color);
    let who = party_name(&t.requester);
    let age = relative_time(t.created_at, now);
    let l1 = concat("  ", st.as_str());
    let l2 = concat(l1.as_str(), " · ");
    let l3 = concat(l2.as_str(), pr.as_str());
    let l4 = concat(l3.as_str(), " · opened by ");
    let l5 = concat(l4.as_str(), who.as_str());
    let l6 = concat(l5.as_str(), " · ");
    push_text(out, concat(l6.as_str(), age.as_str()));
    let ghost three = texts(out@);
    assert(three =~= start + seq![
        ""@,
        colored_or(color, bold(t.ticket_number@), t.ticket_number@) + "  "@ + t.title@,
        "  "@ + status_label(t.status@, color) + " · "@ + priority_label(t.priority@, color) + " · opened by "@
            + party_label_of(t.requester) + " · "@ + relative_label(t.created_at, now),
    ]);
    let ghost agent: Seq<Seq<char>> = match &t.assigned_agent {
        Some(a) => seq!["  Assigned to "@ + party_label_of(*a)],
        None => seq![],
    };
    let ghost site: Seq<Seq<char>> = match &t.site {
        Some(st) => seq!["  Site: "@ + st.name@],
        None => seq![],
    };
    if let Some(a) = &t.assigned_agent {
        let n = party_name(a);
        push_text(out, concat("  Assigned to ", n.as_str()));
    }
    assert(texts(out@) =~= three + agent);
    if let Some(site) = &t.site {
        push_text(out, concat("  Site: ", site.name.as_str()));
    }
    assert(texts(out@) =~= three + agent + site);
    push_text(out, string_of(""));
    assert(texts(out@) =~= start + view_head(*t, color, now));
}

fn push_description(out: &mut Vec<String>, t: &Ticket)
    ensures
        texts(final(out)@) == texts(old(out)@) + view_description(*t),
{
    let ghost start = texts(out@);
    let desc = body_text(t.description.as_str());
    let dv = chars_of(desc.as_str());
    let trimmed = trim(&dv);
    if trimmed.len() > 0 {
        push_indented(out, &trimmed, "  ");
        push_text(out, string_of(""));
    }
    assert(texts(out@) =~= start + view_description(*t));
}

fn push_comment(out: &mut Vec<String>, c: &Comment, color: bool, now: Timestamp)
    requires
        c.created_at.wf(),
        now.wf(),
    ensures
        texts(final(out)@) == texts(old(out)@) + view_comment(*c, color, now),
{
    let ghost before = texts(out@);
    let author = bold_if(color, party_name(&c.author));
    let when = dimmed_if(color, relative_time(c.created_at, now));
    let mark = if c.is_internal {
        string_of(" [internal]")
    } else {
        string_of("")
    };
    let mark = yellow_if(color, mark);
    let a1 = concat("  ", author.as_str());
    let a2 = concat(a1.as_str(), " · ");
    let a3 = concat(a2.as_str(), when.as_str());
    push_text(out, concat(a3.as_str(), mark.as_str()));
    let ghost head = texts(out@);
    let cb = body_text(c.body.as_str());
    let cv = chars_of(cb.as_str());
    let ct = trim(&cv);
    push_indented(out, &ct, "    ");
    push_text(out, string_of(""));
    assert(texts(out@) =~= before + view_comment(*c, color, now));
}

fn push_replies(out: &mut Vec<String>, t: &Ticket, color: bool, now: Timestamp)
    requires
        ticket_times_ok(*t),
        now.wf(),
    ensures
        texts(final(out)@) == texts(old(out)@) + view_replies(*t, color, now),
{
    let ghost before_replies = texts(out@);
    let n = t.comments.len();
    if n == 0 {
        push_text(out, string_of("  (no replies)"));
        assert(texts(out@) =~= before_replies + view_replies(*t, color, now));
    } else {
        let count = decimal_string(n as u64);
        let c1 = concat(count.as_str(), " ");
        let label = if n == 1 {
            concat(c1.as_str(), "reply")
        } else {
            concat(c1.as_str(), "replies")
        };
        let shown = dimmed_if(color, label);
        let rule = concat("  ────────", " ");
        push_text(out, concat(rule.as_str(), shown.as_str()));
        push_text(out, string_of(""));
        let ghost top = texts(out@);
        let mut i: usize = 0;
        while i < n
            invariant
                n == t.comments@.len(),
                i <= n,
                ticket_times_ok(*t),
                now.wf(),
                texts(out@) == top + view_comments(t.comments@.take(i as int), color, now),
            decreases n - i,
        {
            assert(t.comments@.take(i + 1).drop_last() =~= t.comments@.take(i as int));
            let c = &t.comments[i];
            assert(c.created_at.wf());
            push_comment(out, c, color, now);
            i = i + 1;
        }
        assert(t.comments@.take(n as int) =~= t.comments@);
        assert(texts(out@) =~= before_replies + view_replies(*t, color, now));
    }
}

/// The lines of `csshd view` for a ticket, with colours on or off and ages
/// measured at `now`.
pub fn view_lines_at(t: &Ticket, color: bool, now: Timestamp) -> (r: Vec<String>)
    requires
        ticket_times_ok(*t),
        now.wf(),
    ensures
        texts(r@) == view_text(*t, color, now),
{
    let mut out: Vec<String> = Vec::new();
    assert(texts(out@) =~= seq![]);
    push_head(&mut out, t, color, now);
    push_description(&mut out, t);
    push_replies(&mut out, t, color, now);
    assert(texts(out@) =~= view_text(*t, color, now));
    out
}

/// The lines `csshd view` prints for a ticket: colours as the terminal takes
/// them, ages measured at `now`.
pub fn view_lines(t: &Ticket, now: Timestamp) -> (r: Vec<String>)
    requires
        ticket_times_ok(*t),
        now.wf(),
    ensures
        exists|color: bool| texts(r@) == view_text(*t, color, now),
{
    let color = stdout_takes_color();
    view_lines_at(t, color, now)
}

/// The head of `csshd view` names the assigned agent, by name, else email,
/// else "?", right after the status line; with no agent that line is the
/// site (or the blank line that ends the head).
pub proof fn lemma_view_names_the_assignee(t: Ticket, color: bool, now: Timestamp)
    ensures
        view_text(t, color, now).len() >= 4,
        t.assigned_agent matches Some(a) ==> view_text(t, color, now)[3] == "  Assigned to "@ + (
        match a.name {
            Some(n) => n@,
            None => match a.email {
                Some(e) => e@,
                None => "?"@,
            },
        }),
        t.assigned_agent is None ==> view_text(t, color, now)[3] == (match t.site {
            Some(st) => "  Site: "@ + st.name@,
            None => ""@,
        }),
{
    let h = view_head(t, color, now);
    assert(h.len() >= 4);
    assert(view_text(t, color, now)[3] == h[3]);
}

} // verus!
