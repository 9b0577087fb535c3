//! The helpdesk's `/api/v1/*` surface as data: the DTOs, the request URLs and
//! query strings, and how responses are judged and explained. Sending the
//! requests is left to the caller.

use vstd::prelude::*;

use crate::text::{
    chars_of, concat, decimal, decimal_string, drop_prefix, is_digit, slice_of, starts_with,
    string_from, string_of, strip_leading, strip_leading_char, trim, trim_ws, without_prefix,
};
use crate::text::{is_ws, trim_end_ws, trim_start_ws};
use crate::time::Timestamp;

verus! {

broadcast use vstd::string::group_string_axioms;

// ── DTOs ────────────────────────────────────────────────────────────────

/// The answer to `POST /api/v1/cli/auth/init`.
#[derive(Debug, Clone)]
pub struct DeviceCodeResponse {
    pub device_code: String,
    pub user_code: String,
    pub verification_uri: String,
    pub verification_uri_complete: String,
    pub expires_in: u32,
    pub interval: u32,
}

/// The answer to an approved `POST /api/v1/cli/auth/poll`.
#[derive(Debug, Clone)]
pub struct TokenResponse {
    pub access_token: String,
    pub expires_at: Timestamp,
}

/// The signed-in user, from `GET /api/v1/cli/whoami`.
#[derive(Debug, Clone)]
pub struct WhoAmI {
    pub id: String,
    pub email: String,
    pub name: Option<String>,
    pub display_name: Option<String>,
    pub role: String,
    pub is_active: bool,
    pub team: Option<NamedRef>,
    pub ooo_start: Option<Timestamp>,
    pub ooo_end: Option<Timestamp>,
}

/// A reference to a named record (team, site).
#[derive(Debug, Clone)]
pub struct NamedRef {
    pub id: String,
    pub name: String,
}

/// Filters and paging for `GET /api/v1/tickets`.
#[derive(Debug, Clone)]
pub struct TicketQuery {
    pub status: Option<String>,
    pub assignee: Option<String>,
    pub search: Option<String>,
    pub page: Option<u32>,
    pub page_size: Option<u32>,
}

impl Default for TicketQuery {
    fn default() -> (q: TicketQuery)
        ensures
            q.status is None,
            q.assignee is None,
            q.search is None,
            q.page is None,
            q.page_size is None,
    {
        TicketQuery { status: None, assignee: None, search: None, page: None, page_size: None }
    }
}

/// One page of `GET /api/v1/tickets`.
#[derive(Debug, Clone)]
pub struct TicketsPage {
    pub tickets: Vec<TicketSummary>,
    pub total: u32,
    pub page: u32,
    pub page_size: Option<u32>,
}

/// A ticket as the list endpoint gives it.
#[derive(Debug, Clone)]
pub struct TicketSummary {
    pub id: String,
    pub ticket_number: String,
    pub title: String,
    pub status: String,
    pub priority: String,
    pub source: Option<String>,
    pub created_at: Timestamp,
    pub updated_at: Timestamp,
    pub requester: PartyRef,
    pub assigned_agent: Option<PartyRef>,
    pub site: Option<NamedRef>,
}

/// A person on a ticket (requester, agent, comment author).
#[derive(Debug, Clone)]
pub struct PartyRef {
    pub id: Option<String>,
    pub name: Option<String>,
    pub email: Option<String>,
}

/// A ticket in full, from `GET /api/v1/tickets/{id}`.
#[derive(Debug, Clone)]
pub struct Ticket {
    pub id: String,
    pub ticket_number: String,
    pub title: String,
    pub description: String,
    pub status: String,
    pub priority: String,
    pub created_at: Timestamp,
    pub updated_at: Timestamp,
    pub requester: PartyRef,
    pub assigned_agent: Option<PartyRef>,
    pub site: Option<NamedRef>,
    pub comments: Vec<Comment>,
}

/// A reply on a ticket.
#[derive(Debug, Clone)]
pub struct Comment {
    pub id: String,
    pub body: String,
    pub is_internal: bool,
    pub created_at: Timestamp,
    pub author: PartyRef,
}

/// A change to a ticket, sent as the JSON body of `PATCH /api/v1/tickets/{id}`.
#[derive(Debug, Clone, PartialEq, Eq)]
pub enum TicketPatch {
    /// `{"assignedAgentId": agent_id, "status": "IN_PROGRESS"}`.
    Claim { agent_id: String },
    /// `{"status": "CLOSED"}`.
    Close,
}

/// The fields of a ticket change, in order, as names and string values.
pub open spec fn patch_fields_of(p: TicketPatch) -> Seq<(Seq<char>, Seq<char>)> {
    match p {
        TicketPatch::Claim { agent_id } => seq![
            ("assignedAgentId"@, agent_id@),
            ("status"@, "IN_PROGRESS"@),
        ],
        TicketPatch::Close => seq![("status"@, "CLOSED"@)],
    }
}

impl TicketPatch {
    /// The fields of the JSON object this change is sent as.
    pub fn fields(&self) -> (r: Vec<(String, String)>)
        ensures
            r@.map_values(|f: (String, String)| (f.0@, f.1@)) == patch_fields_of(*self),
    {
        let mut r: Vec<(String, String)> = Vec::new();
        match self {
            TicketPatch::Claim { agent_id } => {
                r.push((string_of("assignedAgentId"), agent_id.clone()));
                r.push((string_of("status"), string_of("IN_PROGRESS")));
            },
            TicketPatch::Close => {
                r.push((string_of("status"), string_of("CLOSED")));
            },
        }
        assert(r@.map_values(|f: (String, String)| (f.0@, f.1@)) =~= patch_fields_of(*self));
        r
    }
}

// ── the client ──────────────────────────────────────────────────────────

/// Where requests go and the bearer token they carry, if any.
#[derive(Debug, Clone)]
pub struct Client {
    pub base: String,
    pub token: Option<String>,
}

/// The `Authorization` header value for a token.
pub open spec fn bearer_value(token: Seq<char>) -> Seq<char> {
    "Bearer "@ + token
}

impl Client {
    /// A client for the helpdesk at `base`, carrying `token` if given.
    pub fn new(base: String, token: Option<String>) -> (c: Client)
        ensures
            c.base == base,
            c.token == token,
    {
        Client { base, token }
    }

    /// The full URL of an API path.
    pub fn url(&self, path: &str) -> (r: String)
        ensures
            r@ == self.base@ + path@,
    {
        concat(self.base.as_str(), path)
    }

    /// The `Authorization` header value, when a token is held.
    pub fn authorization(&self) -> (r: Option<String>)
        ensures
            r is Some <==> self.token is Some,
            self.token is Some ==> r->0@ == bearer_value(self.token->0@),
    {
        match &self.token {
            Some(t) => Some(concat("Bearer ", t.as_str())),
            None => None,
        }
    }
}

/// `/api/v1/tickets/{id}`.
pub open spec fn ticket_path_of(id: Seq<char>) -> Seq<char> {
    "/api/v1/tickets/"@ + id
}

/// `/api/v1/tickets/{id}/comments`.
pub open spec fn comments_path_of(id: Seq<char>) -> Seq<char> {
    "/api/v1/tickets/"@ + id + "/comments"@
}

/// The path of one ticket.
pub fn ticket_path(id: &str) -> (r: String)
    ensures
        r@ == ticket_path_of(id@),
{
    concat("/api/v1/tickets/", id)
}

/// The path of a ticket's comments.
pub fn comments_path(id: &str) -> (r: String)
    ensures
        r@ == comments_path_of(id@),
{
    let p = concat("/api/v1/tickets/", id);
    concat(p.as_str(), "/comments")
}

// ── the ticket list query ───────────────────────────────────────────────

pub open spec fn opt_pair(key: Seq<char>, v: Option<String>) -> Seq<(Seq<char>, Seq<char>)> {
    match v {
        Some(s) => seq![(key, s@)],
        None => seq![],
    }
}

pub open spec fn opt_num_pair(key: Seq<char>, v: Option<u32>) -> Seq<(Seq<char>, Seq<char>)> {
    match v {
        Some(n) => seq![(key, decimal(n as nat))],
        None => seq![],
    }
}

/// The query string of `GET /api/v1/tickets`, in order: `status`, `assignee`,
/// `q` (the search), `page` and `pageSize`, each only when set.
pub open spec fn query_pairs(q: TicketQuery) -> Seq<(Seq<char>, Seq<char>)> {
    opt_pair("status"@, q.status) + opt_pair("assignee"@, q.assignee) + opt_pair("q"@, q.search)
        + opt_num_pair("page"@, q.page) + opt_num_pair("pageSize"@, q.page_size)
}

pub open spec fn pair_texts(ps: Seq<(String, String)>) -> Seq<(Seq<char>, Seq<char>)> {
    ps.map_values(|p: (String, String)| (p.0@, p.1@))
}

fn push_pair(ps: &mut Vec<(String, String)>, key: &str, value: String)
    ensures
        pair_texts(final(ps)@) == pair_texts(old(ps)@).push((key@, value@)),
{
    let ghost before = pair_texts(ps@);
    ps.push((string_of(key), value));
    assert(pair_texts(ps@) =~= before.push((key@, value@)));
}

/// The query parameters of a ticket list request.
pub fn query_params(q: &TicketQuery) -> (r: Vec<(String, String)>)
    ensures
        pair_texts(r@) == query_pairs(*q),
{
    let mut ps: Vec<(String, String)> = Vec::new();
    let ghost p0 = pair_texts(ps@);
    assert(p0 =~= seq![]);
    if let Some(s) = &q.status {
        push_pair(&mut ps, "status", s.clone());
    }
    let ghost p1 = pair_texts(ps@);
    assert(p1 =~= opt_pair("status"@, q.status));
    if let Some(a) = &q.assignee {
        push_pair(&mut ps, "assignee", a.clone());
    }
    let ghost p2 = pair_texts(ps@);
    assert(p2 =~= p1 + opt_pair("assignee"@, q.assignee));
    if let Some(s) = &q.search {
        push_pair(&mut ps, "q", s.clone());
    }
    let ghost p3 = pair_texts(ps@);
    assert(p3 =~= p2 + opt_pair("q"@, q.search));
    if let Some(p) = q.page {
        push_pair(&mut ps, "page", decimal_string(p as u64));
    }
    let ghost p4 = pair_texts(ps@);
    assert(p4 =~= p3 + opt_num_pair("page"@, q.page));
    if let Some(p) = q.page_size {
        push_pair(&mut ps, "pageSize", decimal_string(p as u64));
    }
    assert(pair_texts(ps@) =~= p4 + opt_num_pair("pageSize"@, q.page_size));
    ps
}

// ── responses ───────────────────────────────────────────────────────────

/// How a response status is taken by the request helpers.
#[derive(Debug, Clone, Copy, PartialEq, Eq)]
pub enum ResponseStatus {
    /// Anything that is not an error: the body is decoded.
    Success,
    /// 401: the token is missing, wrong or expired.
    Unauthorized,
    /// Any other 4xx or 5xx.
    Failed,
}

/// The outcome a response status code stands for.
pub open spec fn response_status_of(code: u16) -> ResponseStatus {
    if code == 401 {
        ResponseStatus::Unauthorized
    } else if 400 <= code < 600 {
        ResponseStatus::Failed
    } else {
        ResponseStatus::Success
    }
}

/// Classifies a response status code.
pub fn classify_response(code: u16) -> (r: ResponseStatus)
    ensures
        r == response_status_of(code),
{
    if code == 401 {
        ResponseStatus::Unauthorized
    } else if 400 <= code && code < 600 {
        ResponseStatus::Failed
    } else {
        ResponseStatus::Success
    }
}

pub open spec fn unauthorized_text() -> Seq<char> {
    "Unauthorized — run `csshd login` to refresh credentials."@
}

/// The error for a 401 answer.
pub fn unauthorized_message() -> (r: String)
    ensures
        r@ == unauthorized_text(),
{
    string_of("Unauthorized — run `csshd login` to refresh credentials.")
}

/// What `serde_json::from_str::<Value>(body)` then `.get(key)` then
/// `.as_str()` gives: the string stored under `key` at the top level of the
/// JSON object in `body`, or `None` when `body` is not JSON, not an object,
/// lacks `key` or holds something other than a string there.
pub uninterp spec fn json_string_member(body: Seq<char>, key: Seq<char>) -> Option<Seq<char>>;

/// Looks up a top-level string member of a JSON text (serde_json).
/// Trusted: the result is `json_string_member` of the arguments.
#[verifier::external_body]
fn json_string_field(body: &str, key: &str) -> (r: Option<String>)
    ensures
        r is Some <==> json_string_member(body@, key@) is Some,
        r is Some ==> json_string_member(body@, key@) == Some(r->0@),
{
    match serde_json::from_str::<serde_json::Value>(body) {
        Ok(v) => v.get(key).and_then(serde_json::Value::as_str).map(str::to_string),
        Err(_) => None,
    }
}

/// The text of an optional string.
pub open spec fn opt_chars(o: Option<String>) -> Option<Seq<char>> {
    match o {
        Some(s) => Some(s@),
        None => None,
    }
}

/// The explanation to show, given what an error body holds under `message`
/// and under `error`: the message, else the error, else the body's first 200
/// characters.
pub open spec fn chosen_detail(
    message: Option<Seq<char>>,
    error: Option<Seq<char>>,
    body: Seq<char>,
) -> Seq<char> {
    match message {
        Some(m) => m,
        None => match error {
            Some(e) => e,
            None => if body.len() <= 200 {
                body
            } else {
                body.take(200)
            },
        },
    }
}

/// The explanation lifted out of an error body: its JSON `message`, else its
/// JSON `error`, else its first 200 characters.
pub open spec fn error_detail_of(body: Seq<char>) -> Seq<char> {
    chosen_detail(json_string_member(body, "message"@), json_string_member(body, "error"@), body)
}

/// Chooses the explanation for an error body from its JSON `message` and
/// `error` members (as looked up), falling back on the body's first 200
/// characters.
pub fn choose_detail(message: Option<String>, error: Option<String>, body: &str) -> (r: String)
    ensures
        r@ == chosen_detail(opt_chars(message), opt_chars(error), body@),
{
    match message {
        Some(m) => m,
        None => match error {
            Some(e) => e,
            None => {
                let v = chars_of(body);
                if v.len() <= 200 {
                    string_from(&v)
                } else {
                    let t = slice_of(&v, 0, 200);
                    assert(t@ =~= body@.take(200));
                    string_from(&t)
                }
            },
        },
    }
}

/// The explanation to show for an error response body.
pub fn error_detail(body: &str) -> (r: String)
    ensures
        r@ == error_detail_of(body@),
{
    let message = json_string_field(body, "message");
    let error = json_string_field(body, "error");
    choose_detail(message, error, body)
}

/// `"{method} {path} ({status}): {detail}"`.
pub open spec fn request_error_text(
    method: Seq<char>,
    path: Seq<char>,
    status: Seq<char>,
    detail: Seq<char>,
) -> Seq<char> {
    method + " "@ + path + " ("@ + status + "): "@ + detail
}

/// The error for a failed request; `status` is the status as displayed
/// ("404 Not Found").
pub fn request_error(method: &str, path: &str, status: &str, body: &str) -> (r: String)
    ensures
        r@ == request_error_text(method@, path@, status@, error_detail_of(body@)),
{
    let detail = error_detail(body);
    let a = concat(method, " ");
    let b = concat(a.as_str(), path);
    let c = concat(b.as_str(), " (");
    let d = concat(c.as_str(), status);
    let e = concat(d.as_str(), "): ");
    concat(e.as_str(), detail.as_str())
}

/// The error for a failed ticket list request: the status and the whole body.
pub fn list_error(status: &str, body: &str) -> (r: String)
    ensures
        r@ == "GET /api/v1/tickets ("@ + status@ + "): "@ + body@,
{
    let a = concat("GET /api/v1/tickets (", status);
    let b = concat(a.as_str(), "): ");
    concat(b.as_str(), body)
}

// ── device-code polling ─────────────────────────────────────────────────

/// What one poll of `/api/v1/cli/auth/poll` means.
#[derive(Debug, Clone, Copy, PartialEq, Eq)]
pub enum PollStatus {
    /// 200: the token is in the body.
    Approved,
    /// 428 (`authorization_pending`): not approved yet, poll again.
    Pending,
    /// 410: the login session ran out.
    Expired,
    /// 403: the user denied the login.
    Denied,
    /// 400 (`invalid_grant`): the device code names no login session.
    Invalid,
    /// Anything else.
    Unexpected,
}

pub open spec fn poll_status_of(code: u16) -> PollStatus {
    if code == 200 {
        PollStatus::Approved
    } else if code == 428 {
        PollStatus::Pending
    } else if code == 410 {
        PollStatus::Expired
    } else if code == 403 {
        PollStatus::Denied
    } else if code == 400 {
        PollStatus::Invalid
    } else {
        PollStatus::Unexpected
    }
}

/// Classifies the status code of a poll answer.
pub fn poll_status(code: u16) -> (r: PollStatus)
    ensures
        r == poll_status_of(code),
{
    if code == 200 {
        PollStatus::Approved
    } else if code == 428 {
        PollStatus::Pending
    } else if code == 410 {
        PollStatus::Expired
    } else if code == 403 {
        PollStatus::Denied
    } else if code == 400 {
        PollStatus::Invalid
    } else {
        PollStatus::Unexpected
    }
}

/// The error a poll answer ends the login with, if it ends it with one;
/// `status` is the status as displayed.
pub open spec fn poll_error_text(code: u16, status: Seq<char>) -> Option<Seq<char>> {
    match poll_status_of(code) {
        PollStatus::Approved | PollStatus::Pending => None,
        PollStatus::Expired => Some("Login session expired — run `csshd login` again."@),
        PollStatus::Denied => Some("Login was denied in the browser."@),
        PollStatus::Invalid => Some("This login session is invalid — run `csshd login` again."@),
        PollStatus::Unexpected => Some("auth poll: unexpected status "@ + status),
    }
}

/// The error a poll answer ends the login with, if any.
pub fn poll_error(code: u16, status: &str) -> (r: Option<String>)
    ensures
        r is Some <==> poll_error_text(code, status@) is Some,
        r is Some ==> poll_error_text(code, status@) == Some(r->0@),
{
    match poll_status(code) {
        PollStatus::Approved | PollStatus::Pending => None,
        PollStatus::Expired => Some(string_of("Login session expired — run `csshd login` again.")),
        PollStatus::Denied => Some(string_of("Login was denied in the browser.")),
        PollStatus::Invalid => Some(
            string_of("This login session is invalid — run `csshd login` again."),
        ),
        PollStatus::Unexpected => Some(concat("auth poll: unexpected status ", status)),
    }
}

// ── ticket numbers ──────────────────────────────────────────────────────

/// What `str::to_uppercase` gives: the string in upper case by the Unicode
/// case mapping.
pub uninterp spec fn uppercase(s: Seq<char>) -> Seq<char>;

/// The upper case of an ASCII character: `a`–`z` become `A`–`Z`, every
/// other character stays.
pub open spec fn ascii_upper(c: char) -> char {
    if 'a' <= c && c <= 'z' {
        ((c as u32) - 32) as char
    } else {
        c
    }
}

/// Every character is ASCII.
pub open spec fn all_ascii(s: Seq<char>) -> bool {
    forall|i: int| 0 <= i < s.len() ==> (#[trigger] s[i] as u32) < 128
}

/// `str::to_uppercase`.
/// Trusted: the result is `uppercase` of the argument. For an ASCII text the
/// Unicode upper-case mapping that std documents maps `a`–`z` to `A`–`Z` and
/// leaves every other ASCII character as it is.
#[verifier::external_body]
pub(crate) fn to_upper(s: &str) -> (r: String)
    ensures
        r@ == uppercase(s@),
        all_ascii(s@) ==> r@ == s@.map_values(|c: char| ascii_upper(c)),
{
    s.to_uppercase()
}

/// How a ticket argument is looked up.
#[derive(Debug, Clone, PartialEq, Eq)]
pub enum TicketRef {
    /// An internal id, used as it is.
    Id(String),
    /// A ticket number in its canonical `CSS-NNNNN` form, to search for.
    Number(String),
}

pub open spec fn all_digits(s: Seq<char>) -> bool {
    forall|i: int| 0 <= i < s.len() ==> is_digit(#[trigger] s[i])
}

/// `format!("{:0>5}", n)`: left-padded with zeros to five characters.
pub open spec fn pad5(n: Seq<char>) -> Seq<char> {
    if n.len() < 5 {
        Seq::new((5 - n.len()) as nat, |i: int| '0') + n
    } else {
        n
    }
}

/// The digits of a ticket argument: trimmed, upper-cased, without a leading
/// `CSS-` and without leading zeros.
pub open spec fn ticket_digits(input: Seq<char>) -> Seq<char> {
    strip_leading(without_prefix(uppercase(trim_ws(input)), "CSS-"@), '0')
}

/// The lookup a ticket argument stands for, given its digits after
/// normalisation: none, or anything but digits, make it an internal id.
pub open spec fn ticket_ref_from(input: Seq<char>, d: Seq<char>) -> (Seq<char>, bool) {
    if d.len() == 0 || !all_digits(d) {
        (input, false)
    } else {
        ("CSS-"@ + pad5(d), true)
    }
}

/// A ticket argument like `CSS-04234`, `css-4234` or `4234` stands for the
/// ticket number `CSS-04234`; anything without digits after that
/// normalisation (or with other characters) is an internal id.
pub open spec fn ticket_ref_of(input: Seq<char>) -> (Seq<char>, bool) {
    ticket_ref_from(input, ticket_digits(input))
}

/// The digits of an ASCII ticket argument: as `ticket_digits`, with the
/// ASCII upper case.
pub open spec fn ascii_ticket_digits(input: Seq<char>) -> Seq<char> {
    strip_leading(
        without_prefix(trim_ws(input).map_values(|c: char| ascii_upper(c)), "CSS-"@),
        '0',
    )
}

/// `ticket_ref_of` for an argument whose trimmed text is ASCII.
pub open spec fn ascii_ticket_ref_of(input: Seq<char>) -> (Seq<char>, bool) {
    ticket_ref_from(input, ascii_ticket_digits(input))
}

/// `r` is the lookup that `p` describes.
pub open spec fn ref_is(r: TicketRef, p: (Seq<char>, bool)) -> bool {
    if p.1 {
        r is Number && r->Number_0@ == p.0
    } else {
        r is Id && r->Id_0@ == p.0
    }
}

fn pad_five(n: &Vec<char>) -> (r: Vec<char>)
    ensures
        r@ == pad5(n@),
{
    let mut r: Vec<char> = Vec::new();
    let mut k: usize = n.len();
    while k < 5
        invariant
            n.len() <= k <= 5 || (n.len() >= 5 && k == n.len()),
            r@ == Seq::new((k - n.len()) as nat, |i: int| '0'),
        decreases 5 - k,
    {
        r.push('0');
        k = k + 1;
        assert(r@ =~= Seq::new((k - n.len()) as nat, |i: int| '0'));
    }
    let mut i: usize = 0;
    let ghost zeros = r@;
    while i < n.len()
        invariant
            i <= n.len(),
            r@ == zeros + n@.take(i as int),
        decreases n.len() - i,
    {
        r.push(n[i]);
        i = i + 1;
        assert(n@.take(i as int) =~= n@.take((i - 1) as int).push(n@[i - 1]));
    }
    assert(n@.take(n.len() as int) =~= n@);
    if n.len() >= 5 {
        assert(zeros =~= seq![]);
        assert(r@ =~= n@);
    }
    r
}

fn only_digits(v: &Vec<char>) -> (b: bool)
    ensures
        b == all_digits(v@),
{
    let mut i: usize = 0;
    while i < v.len()
        invariant
            i <= v.len(),
            forall|j: int| 0 <= j < i ==> is_digit(#[trigger] v@[j]),
        decreases v.len() - i,
    {
        if !('0' <= v[i] && v[i] <= '9') {
            return false;
        }
        i = i + 1;
    }
    true
}

/// Reads a ticket argument as a ticket number or an internal id.
pub fn ticket_ref(input: &str) -> (r: TicketRef)
    ensures
        ref_is(r, ticket_ref_of(input@)),
        all_ascii(trim_ws(input@)) ==> ref_is(r, ascii_ticket_ref_of(input@)),
{
    let v = chars_of(input);
    let t = trim(&v);
    let ts = string_from(&t);
    let upper = to_upper(ts.as_str());
    let u = chars_of(upper.as_str());
    let prefix = chars_of("CSS-");
    let rest = drop_prefix(&u, &prefix);
    let digits = strip_leading_char(&rest, '0');
    if digits.len() == 0 || !only_digits(&digits) {
        TicketRef::Id(string_of(input))
    } else {
        let padded = pad_five(&digits);
        let p = string_from(&padded);
        TicketRef::Number(concat("CSS-", p.as_str()))
    }
}

/// A text that neither starts nor ends with whitespace is its own trim.
proof fn lemma_trim_keeps(x: Seq<char>)
    requires
        x.len() > 0,
        !is_ws(x[0]),
        !is_ws(x.last()),
    ensures
        trim_ws(x) == x,
{
    assert(trim_start_ws(x) == x);
    assert(trim_end_ws(x) == x);
}

/// The digits of an ASCII ticket argument that is `p` followed by digits,
/// where `p` upper-cases to `CSS-` (or is empty).
proof fn lemma_digits_after(p: Seq<char>, d: Seq<char>)
    requires
        all_digits(d),
        p.len() == 0 || p =~= seq!['C', 'S', 'S', '-'] || p =~= seq!['c', 's', 's', '-'],
    ensures
        all_ascii(trim_ws(p + d)),
        ascii_ticket_digits(p + d) == strip_leading(d, '0'),
{
    let x = p + d;
    let cssd = seq!['C', 'S', 'S', '-'];
    reveal_strlit("CSS-");
    assert("CSS-"@ =~= cssd);
    if x.len() == 0 {
        assert(trim_start_ws(x) == x);
        assert(trim_end_ws(x) == x);
        assert(x.map_values(|c: char| ascii_upper(c)) =~= x);
    } else {
        assert(x.last() == if d.len() > 0 { d.last() } else { '-' });
        if d.len() > 0 {
            assert(is_digit(d[d.len() - 1]));
        }
        if p.len() == 0 {
            assert(is_digit(d[0]));
        }
        lemma_trim_keeps(x);
        let u = x.map_values(|c: char| ascii_upper(c));
        assert forall|i: int| 0 <= i < x.len() implies (#[trigger] x[i] as u32) < 128 by {
            if i >= p.len() {
                assert(x[i] == d[i - p.len()]);
                assert(is_digit(d[i - p.len()]));
            }
        }
        assert forall|i: int| 0 <= i < d.len() implies ascii_upper(#[trigger] d[i]) == d[i] by {
            assert(is_digit(d[i]));
        }
        if p.len() == 0 {
            assert(u =~= d);
            assert(!starts_with(u, "CSS-"@)) by {
                if 4 <= u.len() {
                    assert(u.take(4)[0] == d[0]);
                    assert(is_digit(d[0]));
                }
            }
        } else {
            assert(u =~= cssd + d);
            assert((cssd + d).take(4) =~= cssd);
            assert((cssd + d).skip(4) =~= d);
        }
    }
}

/// A ticket number reads the same with or without its `CSS-` prefix, in
/// either case: for digits `d`, the arguments `CSS-d`, `css-d` and `d` are
/// all ASCII, have the same digits, and name the same ticket whenever `d`
/// names one (so `CSS-04234`, `css-4234` and `4234` all stand for
/// `CSS-04234`).
pub proof fn lemma_ticket_prefix_is_optional(d: Seq<char>)
    requires
        all_digits(d),
    ensures
        all_ascii(trim_ws(d)),
        all_ascii(trim_ws("CSS-"@ + d)),
        all_ascii(trim_ws("css-"@ + d)),
        ascii_ticket_digits("CSS-"@ + d) == ascii_ticket_digits(d),
        ascii_ticket_digits("css-"@ + d) == ascii_ticket_digits(d),
        ascii_ticket_ref_of(d).1 ==> ascii_ticket_ref_of("CSS-"@ + d) == ascii_ticket_ref_of(d)
            && ascii_ticket_ref_of("css-"@ + d) == ascii_ticket_ref_of(d),
{
    reveal_strlit("CSS-");
    reveal_strlit("css-");
    let e = Seq::<char>::empty();
    lemma_digits_after(e, d);
    assert(e + d =~= d);
    lemma_digits_after("CSS-"@, d);
    lemma_digits_after("css-"@, d);
}

/// A ticket number of one to five digits without leading zeros is looked up
/// as `CSS-` and five digits: the digits themselves, left-padded with zeros.
/// So `42` and `CSS-42` stand for `CSS-00042`, and `4234` for `CSS-04234`.
pub proof fn lemma_ticket_number_is_padded_to_five(d: Seq<char>)
    requires
        all_digits(d),
        1 <= d.len() <= 5,
        d[0] != '0',
    ensures
        all_ascii(trim_ws(d)),
        all_ascii(trim_ws("CSS-"@ + d)),
        ascii_ticket_ref_of(d).1,
        ascii_ticket_ref_of("CSS-"@ + d) == ascii_ticket_ref_of(d),
        ({
            let n = ascii_ticket_ref_of(d).0;
            &&& n.len() == 9
            &&& n[0] == 'C' && n[1] == 'S' && n[2] == 'S' && n[3] == '-'
            &&& forall|j: int| 4 <= j < 9 - d.len() ==> n[j] == '0'
            &&& n.skip(9 - d.len()) == d
        }),
{
    reveal_strlit("CSS-");
    lemma_ticket_prefix_is_optional(d);
    lemma_digits_after(Seq::<char>::empty(), d);
    assert(Seq::<char>::empty() + d =~= d);
    assert(strip_leading(d, '0') == d);
    let n = ascii_ticket_ref_of(d).0;
    let z = Seq::new((5 - d.len()) as nat, |i: int| '0');
    assert(n == seq!['C', 'S', 'S', '-'] + z + d);
    assert(n.skip(9 - d.len()) =~= d);
}

/// The first ticket whose number is `needle`.
pub open spec fn first_with_number(ts: Seq<TicketSummary>, needle: Seq<char>) -> Option<int>
    decreases ts.len(),
{
    if ts.len() == 0 {
        None
    } else if ts[0].ticket_number@ == needle {
        Some(0)
    } else {
        match first_with_number(ts.drop_first(), needle) {
            Some(i) => Some(i + 1),
            None => None,
        }
    }
}

proof fn lemma_first_with_number(ts: Seq<TicketSummary>, needle: Seq<char>, k: int)
    requires
        0 <= k <= ts.len(),
        forall|j: int| 0 <= j < k ==> (#[trigger] ts[j]).ticket_number@ != needle,
    ensures
        k < ts.len() && ts[k].ticket_number@ == needle ==> first_with_number(ts, needle) == Some(
            k,
        ),
        k == ts.len() ==> first_with_number(ts, needle) is None,
    decreases k,
{
    if k > 0 {
        lemma_first_with_number(ts.drop_first(), needle, k - 1);
        assert forall|j: int| 0 <= j < k - 1 implies (#[trigger] ts.drop_first()[j]).ticket_number@
            != needle by {
            assert(ts.drop_first()[j] == ts[j + 1]);
        }
    }
}

/// The id of the first ticket in `tickets` whose number is `needle`.
pub fn find_ticket_id(tickets: &Vec<TicketSummary>, needle: &str) -> (r: Option<String>)
    ensures
        match first_with_number(tickets@, needle@) {
            Some(i) => r is Some && r->0 == tickets@[i].id,
            None => r is None,
        },
{
    let mut i: usize = 0;
    while i < tickets.len()
        invariant
            i <= tickets.len(),
            forall|j: int| 0 <= j < i ==> (#[trigger] tickets@[j]).ticket_number@ != needle@,
        decreases tickets.len() - i,
    {
        if crate::text::eq_str(tickets[i].ticket_number.as_str(), needle) {
            proof {
                lemma_first_with_number(tickets@, needle@, i as int);
            }
            return Some(tickets[i].id.clone());
        }
        i = i + 1;
    }
    proof {
        lemma_first_with_number(tickets@, needle@, i as int);
    }
    None
}

/// The error for a ticket number that no ticket has.
pub fn not_found_message(needle: &str) -> (r: String)
    ensures
        r@ == "Ticket "@ + needle@ + " not found"@,
{
    let a = concat("Ticket ", needle);
    concat(a.as_str(), " not found")
}

} // verus!
