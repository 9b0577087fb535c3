//! `csshd whoami`: the signed-in user as lines of text.

use vstd::prelude::*;

use crate::client::WhoAmI;
use crate::text::{concat, string_of};
use crate::time::{chrono_formatted, format_instant, Timestamp};

verus! {

broadcast use vstd::string::group_string_axioms;

pub open spec fn texts(v: Seq<String>) -> Seq<Seq<char>> {
    v.map_values(|s: String| s@)
}

/// Whether `now` falls in the out-of-office window `[start, end)`.
pub open spec fn out_of_office(me: WhoAmI, now: Timestamp) -> bool {
    match (me.ooo_start, me.ooo_end) {
        (Some(s), Some(e)) => s.total_nanos() <= now.total_nanos() && now.total_nanos()
            < e.total_nanos(),
        _ => false,
    }
}

/// The lines `csshd whoami` prints: name (or email) and email, role, team
/// when there is one, and the end of an absence that covers `now`.
pub open spec fn whoami_text(me: WhoAmI, now: Timestamp) -> Seq<Seq<char>> {
    seq![
        (match me.name {
            Some(n) => n@,
            None => me.email@,
        }) + " <"@ + me.email@ + ">"@,
        "  Role: "@ + me.role@,
    ] + (match me.team {
        Some(t) => seq!["  Team: "@ + t.name@],
        None => seq![],
    }) + (if out_of_office(me, now) {
        seq![
            "  Out of office until "@ + chrono_formatted(
                me.ooo_end->0.secs as int,
                me.ooo_end->0.nanos as int,
                "%b %d, %Y %H:%M UTC"@,
            ),
        ]
    } else {
        seq![]
    })
}

fn before_or_at(a: Timestamp, b: Timestamp) -> (r: bool)
    requires
        a.nanos < 1_000_000_000,
        b.nanos < 1_000_000_000,
    ensures
        r == (a.total_nanos() <= b.total_nanos()),
{
    if a.secs < b.secs {
        assert(a.secs * 1_000_000_000 + 1_000_000_000 <= b.secs * 1_000_000_000) by (nonlinear_arith)
            requires
                a.secs < b.secs,
        ;
        true
    } else if a.secs > b.secs {
        assert(b.secs * 1_000_000_000 + 1_000_000_000 <= a.secs * 1_000_000_000) by (nonlinear_arith)
            requires
                a.secs > b.secs,
        ;
        false
    } else {
        a.nanos <= b.nanos
    }
}

/// The lines of `csshd whoami`, the absence judged at `now`.
pub fn whoami_lines(me: &WhoAmI, now: Timestamp) -> (r: Vec<String>)
    requires
        me.ooo_end matches Some(e) ==> e.wf(),
        me.ooo_start matches Some(s) ==> s.nanos < 1_000_000_000,
        now.nanos < 1_000_000_000,
    ensures
        texts(r@) == whoami_text(*me, now),
{
    let mut out: Vec<String> = Vec::new();
    let who = match &me.name {
        Some(n) => n.clone(),
        None => me.email.clone(),
    };
    let a = concat(who.as_str(), " <");
    let b = concat(a.as_str(), me.email.as_str());
    out.push(concat(b.as_str(), ">"));
    out.push(concat("  Role: ", me.role.as_str()));
    if let Some(t) = &me.team {
        out.push(concat("  Team: ", t.name.as_str()));
    }
    if let (Some(s), Some(e)) = (me.ooo_start, me.ooo_end) {
        if before_or_at(s, now) && !before_or_at(e, now) {
            let until = format_instant(e, "%b %d, %Y %H:%M UTC");
            out.push(concat("  Out of office until ", until.as_str()));
        }
    }
    assert(texts(out@) =~= whoami_text(*me, now));
    out
}

} // verus!
