//! `csshd list`: the query it sends and the rows it shows.

use vstd::prelude::*;

use crate::client::{to_upper, uppercase, PartyRef, TicketQuery, TicketSummary};
use crate::format::TicketRow;
use crate::text::{concat, decimal, decimal_string, string_of};

verus! {

broadcast use vstd::string::group_string_axioms;

/// The options of `csshd list`.
#[derive(Debug, Clone)]
pub struct ListOpts {
    pub status: Option<String>,
    pub mine: bool,
    pub assignee: Option<String>,
    pub search: Option<String>,
    pub page_size: Option<u32>,
    pub json: bool,
}

/// The status filter sent when none is given: the daily working set, open
/// and in-progress tickets, as a comma-separated list.
pub open spec fn working_set() -> Seq<char> {
    "OPEN,IN_PROGRESS"@
}

/// The query `csshd list` sends: `--mine` as the assignee "me" (over any
/// `--assignee`), the status in upper case (the daily working set, OPEN and
/// IN_PROGRESS, when none is given), the search as given, the first page, 50
/// tickets unless a page size is given.
pub open spec fn list_query_matches(opts: ListOpts, q: TicketQuery) -> bool {
    &&& opts.mine ==> q.assignee is Some && q.assignee->0@ == "me"@
    &&& !opts.mine ==> q.assignee == opts.assignee
    &&& match opts.status {
        Some(s) => q.status is Some && q.status->0@ == uppercase(s@),
        None => q.status is Some && q.status->0@ == working_set(),
    }
    &&& q.search == opts.search
    &&& q.page == Some(1u32)
    &&& q.page_size == Some(
        match opts.page_size {
            Some(n) => n,
            None => 50u32,
        },
    )
}

/// The query for a set of `csshd list` options.
pub fn list_query(opts: ListOpts) -> (q: TicketQuery)
    ensures
        list_query_matches(opts, q),
{
    let assignee = if opts.mine {
        Some(string_of("me"))
    } else {
        opts.assignee
    };
    let status = match opts.status {
        Some(s) => Some(to_upper(s.as_str())),
        None => Some(string_of("OPEN,IN_PROGRESS")),
    };
    let page_size = match opts.page_size {
        Some(n) => n,
        None => 50,
    };
    TicketQuery { status, assignee, search: opts.search, page: Some(1), page_size: Some(page_size) }
}

/// Whom a list row names as assignee: the agent's name, else the agent's
/// email.
pub open spec fn assignee_of(a: Option<PartyRef>) -> Option<String> {
    match a {
        Some(p) => match p.name {
            Some(n) => Some(n),
            None => p.email,
        },
        None => None,
    }
}

/// The table row for a ticket.
pub open spec fn row_matches(t: TicketSummary, r: TicketRow) -> bool {
    &&& r.number == t.ticket_number
    &&& r.title == t.title
    &&& r.status == t.status
    &&& r.priority == t.priority
    &&& r.assignee == assignee_of(t.assigned_agent)
    &&& r.updated_at == t.updated_at
}

/// The table rows for the tickets of a page, in order.
pub fn ticket_rows(tickets: &Vec<TicketSummary>) -> (r: Vec<TicketRow>)
    ensures
        r@.len() == tickets@.len(),
        forall|i: int| 0 <= i < tickets@.len() ==> row_matches(tickets@[i], #[trigger] r@[i]),
{
    let mut out: Vec<TicketRow> = Vec::new();
    let mut i: usize = 0;
    while i < tickets.len()
        invariant
            i <= tickets.len(),
            out@.len() == i,
            forall|j: int| 0 <= j < i ==> row_matches(tickets@[j], #[trigger] out@[j]),
        decreases tickets.len() - i,
    {
        let t = &tickets[i];
        let assignee = match &t.assigned_agent {
            Some(a) => match &a.name {
                Some(n) => Some(n.clone()),
                None => match &a.email {
                    Some(e) => Some(e.clone()),
                    None => None,
                },
            },
            None => None,
        };
        out.push(
            TicketRow {
                number: t.ticket_number.clone(),
                title: t.title.clone(),
                status: t.status.clone(),
                priority: t.priority.clone(),
                assignee,
                updated_at: t.updated_at,
            },
        );
        i = i + 1;
    }
    out
}

/// The note under a page that holds fewer tickets than match.
pub open spec fn more_note_of(total: u32, shown: usize) -> Option<Seq<char>> {
    if total > (shown as u32) {
        Some(
            "Showing "@ + decimal(shown as nat) + " of "@ + decimal(total as nat)
                + " matching tickets — narrow with --status, --mine, or --search."@,
        )
    } else {
        None
    }
}

/// The note to print when only part of the matching tickets is shown.
pub fn more_note(total: u32, shown: usize) -> (r: Option<String>)
    ensures
        r is Some <==> more_note_of(total, shown) is Some,
        r is Some ==> more_note_of(total, shown) == Some(r->0@),
{
    if total > (shown as u32) {
        let a = concat("Showing ", decimal_string(shown as u64).as_str());
        let b = concat(a.as_str(), " of ");
        let c = concat(b.as_str(), decimal_string(total as u64).as_str());
        Some(concat(c.as_str(), " matching tickets — narrow with --status, --mine, or --search."))
    } else {
        None
    }
}

} // verus!
