//! Terminal output helpers: HTML bodies to plain text, relative times,
//! styled status and priority labels, and the tickets table.

use owo_colors::OwoColorize;
use vstd::prelude::*;

use crate::text::{
    is_ws, starts_with, concat, decimal, decimal_string, eq_str, string_of,
    all_ws, ascii_lower, chars_of, drop_prefix, is_ascii_alnum, is_blank, join_lines,
    join_with_newlines, lines, lines_from, replace, replace_all, same_chars, split_lines, string_from,
    strip_leading, strip_leading_char, trim_end, trim_end_ws, without_prefix,
};
use crate::time::{
    chrono_formatted, format_instant, seconds_between, seconds_since, Timestamp,
};

verus! {

broadcast use vstd::string::group_string_axioms;

// ── HTML to text: model ─────────────────────────────────────────────────

/// The marker that historically prefixes stored HTML bodies.
pub open spec fn html_marker() -> Seq<char> {
    seq!['<', '!', '-', '-', 'h', 't', 'm', 'l', '-', '-', '>']
}

/// Tag names that put a line break where they appear.
pub open spec fn is_break_tag(name: Seq<char>) -> bool {
    ||| name == seq!['p']
    ||| name == seq!['d', 'i', 'v']
    ||| name == seq!['b', 'r']
    ||| name == seq!['l', 'i']
    ||| name == seq!['t', 'r']
    ||| name == seq!['h', '1']
    ||| name == seq!['h', '2']
    ||| name == seq!['h', '3']
}

/// The longest prefix of `s` made of ASCII letters and digits.
pub open spec fn alnum_prefix(s: Seq<char>) -> Seq<char>
    decreases s.len(),
{
    if s.len() > 0 && is_ascii_alnum(s[0]) {
        seq![s[0]] + alnum_prefix(s.drop_first())
    } else {
        seq![]
    }
}

/// The name of a tag from the text between `<` and `>`: leading slashes
/// dropped, the ASCII alphanumeric run that follows, in lower case.
pub open spec fn tag_name(tag: Seq<char>) -> Seq<char> {
    alnum_prefix(strip_leading(tag, '/')).map_values(|c: char| ascii_lower(c))
}

pub open spec fn ends_with_newline(s: Seq<char>) -> bool {
    s.len() > 0 && s.last() == '\n'
}

/// The text so far after a complete tag: a break tag adds a line break
/// unless the text already ends with one.
pub open spec fn after_tag(out: Seq<char>, tag: Seq<char>) -> Seq<char> {
    if is_break_tag(tag_name(tag)) && !ends_with_newline(out) {
        out.push('\n')
    } else {
        out
    }
}

/// Removes tags from `s`. `out` is the text so far; `tag` holds the text of
/// an open tag since its `<`, if one is open. A tag left open at the end of
/// the input counts as closed there.
pub open spec fn scan_tags(s: Seq<char>, out: Seq<char>, tag: Option<Seq<char>>) -> Seq<char>
    decreases s.len(),
{
    if s.len() == 0 {
        match tag {
            None => out,
            Some(t) => after_tag(out, t),
        }
    } else {
        let c = s[0];
        let rest = s.drop_first();
        match tag {
            None => if c == '<' {
                scan_tags(rest, out, Some(seq![]))
            } else {
                scan_tags(rest, out.push(c), None)
            },
            Some(t) => if c == '>' {
                scan_tags(rest, after_tag(out, t), None)
            } else {
                scan_tags(rest, out, Some(t.push(c)))
            },
        }
    }
}

pub open spec fn ent_nbsp() -> Seq<char> {
    seq!['&', 'n', 'b', 's', 'p', ';']
}

pub open spec fn ent_lt() -> Seq<char> {
    seq!['&', 'l', 't', ';']
}

pub open spec fn ent_gt() -> Seq<char> {
    seq!['&', 'g', 't', ';']
}

pub open spec fn ent_quot() -> Seq<char> {
    seq!['&', 'q', 'u', 'o', 't', ';']
}

pub open spec fn ent_apos() -> Seq<char> {
    seq!['&', '#', '3', '9', ';']
}

pub open spec fn ent_amp() -> Seq<char> {
    seq!['&', 'a', 'm', 'p', ';']
}

/// Entity decoding, one entity after the other, `&amp;` last so that
/// `&amp;lt;` comes out as `&lt;`.
pub open spec fn decode_entities(s: Seq<char>) -> Seq<char> {
    let s1 = replace_all(s, ent_nbsp(), seq![' ']);
    let s2 = replace_all(s1, ent_lt(), seq!['<']);
    let s3 = replace_all(s2, ent_gt(), seq!['>']);
    let s4 = replace_all(s3, ent_quot(), seq!['"']);
    let s5 = replace_all(s4, ent_apos(), seq!['\'']);
    replace_all(s5, ent_amp(), seq!['&'])
}

/// Adds one line to the lines kept so far: trailing whitespace goes; a blank
/// line becomes empty, and is dropped at the start or right after another
/// empty line.
pub open spec fn keep_line(kept: Seq<Seq<char>>, line: Seq<char>) -> Seq<Seq<char>> {
    let t = trim_end_ws(line);
    let blank = all_ws(t);
    if blank && (kept.len() == 0 || kept.last().len() == 0) {
        kept
    } else if blank {
        kept.push(seq![])
    } else {
        kept.push(t)
    }
}

pub open spec fn collapse_blank(ls: Seq<Seq<char>>, kept: Seq<Seq<char>>) -> Seq<Seq<char>>
    decreases ls.len(),
{
    if ls.len() == 0 {
        kept
    } else {
        collapse_blank(ls.drop_first(), keep_line(kept, ls[0]))
    }
}

/// Drops the empty lines at the end.
pub open spec fn drop_trailing_blank(ls: Seq<Seq<char>>) -> Seq<Seq<char>>
    decreases ls.len(),
{
    if ls.len() > 0 && ls.last().len() == 0 {
        drop_trailing_blank(ls.drop_last())
    } else {
        ls
    }
}

/// The lines of the plain text of a stored HTML body.
pub open spec fn shown_lines(input: Seq<char>) -> Seq<Seq<char>> {
    let body = without_prefix(input, html_marker());
    let stripped = scan_tags(body, seq![], None);
    let decoded = decode_entities(stripped);
    drop_trailing_blank(collapse_blank(lines(decoded), seq![]))
}

/// The plain text of a stored HTML body.
pub open spec fn html_text(input: Seq<char>) -> Seq<char> {
    join_lines(shown_lines(input))
}

// ── HTML to text: code ──────────────────────────────────────────────────

/// The characters of the HTML marker.
pub fn marker() -> (r: Vec<char>)
    ensures
        r@ == html_marker(),
{
    vec!['<', '!', '-', '-', 'h', 't', 'm', 'l', '-', '-', '>']
}

fn is_ascii_alnum_char(c: char) -> (b: bool)
    ensures
        b == is_ascii_alnum(c),
{
    ('0' <= c && c <= '9') || ('a' <= c && c <= 'z') || ('A' <= c && c <= 'Z')
}

fn to_ascii_lower(c: char) -> (r: char)
    ensures
        r == ascii_lower(c),
{
    if 'A' <= c && c <= 'Z' {
        ((c as u8) + 32) as char
    } else {
        c
    }
}

proof fn lemma_alnum_prefix_take(s: Seq<char>, i: int)
    requires
        0 <= i <= s.len(),
        forall|j: int| 0 <= j < i ==> is_ascii_alnum(#[trigger] s[j]),
        i == s.len() || !is_ascii_alnum(s[i]),
    ensures
        alnum_prefix(s) == s.take(i),
    decreases i,
{
    if i > 0 {
        lemma_alnum_prefix_take(s.drop_first(), i - 1);
        assert(s.take(i) =~= seq![s[0]] + s.drop_first().take(i - 1));
    } else {
        assert(s.take(0) =~= seq![]);
    }
}

/// The lower-case name of a tag, from the text between `<` and `>`.
fn tag_name_of(tag: &Vec<char>) -> (r: Vec<char>)
    ensures
        r@ == tag_name(tag@),
{
    let t = strip_leading_char(tag, '/');
    let mut i: usize = 0;
    let mut r: Vec<char> = Vec::new();
    while i < t.len() && is_ascii_alnum_char(t[i])
        invariant
            i <= t.len(),
            forall|j: int| 0 <= j < i ==> is_ascii_alnum(#[trigger] t@[j]),
            r@ == t@.take(i as int).map_values(|c: char| ascii_lower(c)),
        decreases t.len() - i,
    {
        r.push(to_ascii_lower(t[i]));
        i = i + 1;
        assert(t@.take(i as int).map_values(|c: char| ascii_lower(c)) =~= t@.take(
            (i - 1) as int,
        ).map_values(|c: char| ascii_lower(c)).push(ascii_lower(t@[i - 1])));
    }
    proof {
        lemma_alnum_prefix_take(t@, i as int);
    }
    r
}

fn is_break_name(n: &Vec<char>) -> (b: bool)
    ensures
        b == is_break_tag(n@),
{
    let p = vec!['p'];
    assert(p@ =~= seq!['p']);
    let div = vec!['d', 'i', 'v'];
    assert(div@ =~= seq!['d', 'i', 'v']);
    let br = vec!['b', 'r'];
    assert(br@ =~= seq!['b', 'r']);
    let li = vec!['l', 'i'];
    assert(li@ =~= seq!['l', 'i']);
    let tr = vec!['t', 'r'];
    assert(tr@ =~= seq!['t', 'r']);
    let h1 = vec!['h', '1'];
    assert(h1@ =~= seq!['h', '1']);
    let h2 = vec!['h', '2'];
    assert(h2@ =~= seq!['h', '2']);
    let h3 = vec!['h', '3'];
    assert(h3@ =~= seq!['h', '3']);
    same_chars(n, &p) || same_chars(n, &div) || same_chars(n, &br) || same_chars(n, &li)
        || same_chars(n, &tr) || same_chars(n, &h1) || same_chars(n, &h2) || same_chars(n, &h3)
}

fn close_tag(out: &mut Vec<char>, tag: &Vec<char>)
    ensures
        final(out)@ == after_tag(old(out)@, tag@),
{
    let name = tag_name_of(tag);
    if is_break_name(&name) && !(out.len() > 0 && out[out.len() - 1] == '\n') {
        out.push('\n');
    }
}

/// Removes the tags of `body`, putting a line break for each break tag.
fn strip_tags(body: &Vec<char>) -> (r: Vec<char>)
    ensures
        r@ == scan_tags(body@, seq![], None),
{
    let mut out: Vec<char> = Vec::new();
    let mut in_tag = false;
    let mut tag: Vec<char> = Vec::new();
    let mut i: usize = 0;
    assert(body@.skip(0) =~= body@);
    while i < body.len()
        invariant
            i <= body.len(),
            scan_tags(body@, seq![], None) == scan_tags(
                body@.skip(i as int),
                out@,
                if in_tag {
                    Some(tag@)
                } else {
                    None
                },
            ),
        decreases body.len() - i,
    {
        let c = body[i];
        assert(body@.skip(i as int).drop_first() =~= body@.skip(i + 1));
        if !in_tag {
            if c == '<' {
                in_tag = true;
                tag = Vec::new();
            } else {
                out.push(c);
            }
        } else {
            if c == '>' {
                close_tag(&mut out, &tag);
                in_tag = false;
            } else {
                tag.push(c);
            }
        }
        i = i + 1;
    }
    if in_tag {
        close_tag(&mut out, &tag);
    }
    out
}

fn decode(s: &Vec<char>) -> (r: Vec<char>)
    ensures
        r@ == decode_entities(s@),
{
    let nbsp = vec!['&', 'n', 'b', 's', 'p', ';'];
    let lt = vec!['&', 'l', 't', ';'];
    let gt = vec!['&', 'g', 't', ';'];
    let quot = vec!['&', 'q', 'u', 'o', 't', ';'];
    let apos = vec!['&', '#', '3', '9', ';'];
    let amp = vec!['&', 'a', 'm', 'p', ';'];
    let space = vec![' '];
    let less = vec!['<'];
    let greater = vec!['>'];
    let dquote = vec!['"'];
    let squote = vec!['\''];
    let ampersand = vec!['&'];
    assert(nbsp@ =~= ent_nbsp());
    assert(lt@ =~= ent_lt());
    assert(gt@ =~= ent_gt());
    assert(quot@ =~= ent_quot());
    assert(apos@ =~= ent_apos());
    assert(amp@ =~= ent_amp());
    assert(space@ =~= seq![' ']);
    assert(less@ =~= seq!['<']);
    assert(greater@ =~= seq!['>']);
    assert(dquote@ =~= seq!['"']);
    assert(squote@ =~= seq!['\'']);
    assert(ampersand@ =~= seq!['&']);
    let s1 = replace(s, &nbsp, &space);
    let s2 = replace(&s1, &lt, &less);
    let s3 = replace(&s2, &gt, &greater);
    let s4 = replace(&s3, &quot, &dquote);
    let s5 = replace(&s4, &apos, &squote);
    replace(&s5, &amp, &ampersand)
}

/// Keeps the lines as the renderer shows them: trailing whitespace removed,
/// runs of blank lines collapsed, no blank lines at either end.
fn tidy_lines(ls: &Vec<Vec<char>>) -> (r: Vec<Vec<char>>)
    ensures
        r@.map_values(|l: Vec<char>| l@) == drop_trailing_blank(
            collapse_blank(ls@.map_values(|l: Vec<char>| l@), seq![]),
        ),
{
    let ghost m = ls@.map_values(|l: Vec<char>| l@);
    let mut kept: Vec<Vec<char>> = Vec::new();
    let mut i: usize = 0;
    assert(m.skip(0) =~= m);
    assert(kept@.map_values(|l: Vec<char>| l@) =~= seq![]);
    while i < ls.len()
        invariant
            i <= ls.len(),
            m == ls@.map_values(|l: Vec<char>| l@),
            collapse_blank(m, seq![]) == collapse_blank(
                m.skip(i as int),
                kept@.map_values(|l: Vec<char>| l@),
            ),
        decreases ls.len() - i,
    {
        let ghost before = kept@.map_values(|l: Vec<char>| l@);
        assert(m.skip(i as int).drop_first() =~= m.skip(i + 1));
        assert(m.skip(i as int)[0] == ls@[i as int]@);
        let t = trim_end(&ls[i]);
        let blank = is_blank(&t);
        if blank && (kept.len() == 0 || kept[kept.len() - 1].len() == 0) {
        } else if blank {
            kept.push(Vec::new());
            assert(kept@.map_values(|l: Vec<char>| l@) =~= before.push(seq![]));
        } else {
            kept.push(t);
            assert(kept@.map_values(|l: Vec<char>| l@) =~= before.push(t@));
        }
        i = i + 1;
    }
    while kept.len() > 0 && kept[kept.len() - 1].len() == 0
        invariant
            drop_trailing_blank(collapse_blank(m, seq![])) == drop_trailing_blank(
                kept@.map_values(|l: Vec<char>| l@),
            ),
        decreases kept.len(),
    {
        let ghost before = kept@.map_values(|l: Vec<char>| l@);
        kept.pop();
        assert(kept@.map_values(|l: Vec<char>| l@) =~= before.drop_last());
    }
    kept
}

/// Converts a stored HTML body (optionally prefixed with `<!--html-->`) to
/// plain text for the terminal: tags removed, block elements turned into
/// line breaks, the common entities decoded, trailing whitespace removed and
/// runs of blank lines collapsed.
pub fn html_to_text(input: &str) -> (r: String)
    ensures
        r@ == html_text(input@),
{
    let v = chars_of(input);
    let body = drop_prefix(&v, &marker());
    let stripped = strip_tags(&body);
    let decoded = decode(&stripped);
    let ls = split_lines(&decoded);
    let kept = tidy_lines(&ls);
    let joined = join_with_newlines(&kept);
    string_from(&joined)
}

// ── relative times ──────────────────────────────────────────────────────

/// How long ago `t` was, seen at `now`: "just now" under a minute, then
/// minutes, hours and days ("5m ago", "3h ago", "2d ago"), and from two weeks
/// on the date itself ("Mar 04, 2026").
pub open spec fn relative_label(t: Timestamp, now: Timestamp) -> Seq<char> {
    let s = seconds_between(t, now);
    if s < 60 {
        "just now"@
    } else if s < 3600 {
        decimal((s / 60) as nat) + "m ago"@
    } else if s < 86_400 {
        decimal((s / 3600) as nat) + "h ago"@
    } else if s < 86_400 * 14 {
        decimal((s / 86_400) as nat) + "d ago"@
    } else {
        chrono_formatted(t.secs as int, t.nanos as int, "%b %d, %Y"@)
    }
}

/// Formats a UTC timestamp as a relative human string ("just now", "5m ago"),
/// measured from the instant `now`.
pub fn relative_time(t: Timestamp, now: Timestamp) -> (r: String)
    requires
        t.wf(),
        now.wf(),
    ensures
        r@ == relative_label(t, now),
{
    let secs = seconds_since(t, now);
    if secs < 60 {
        string_of("just now")
    } else if secs < 3600 {
        let n = decimal_string((secs / 60) as u64);
        concat(n.as_str(), "m ago")
    } else if secs < 86_400 {
        let n = decimal_string((secs / 3600) as u64);
        concat(n.as_str(), "h ago")
    } else if secs < 86_400 * 14 {
        let n = decimal_string((secs / 86_400) as u64);
        concat(n.as_str(), "d ago")
    } else {
        format_instant(t, "%b %d, %Y")
    }
}

// ── styles ──────────────────────────────────────────────────────────────

/// `s.bold()`, displayed: wrapped in the SGR codes for bold and reset.
pub open spec fn bold(s: Seq<char>) -> Seq<char> {
    "\x1b[1m"@ + s + "\x1b[0m"@
}

/// `s.dimmed()`, displayed.
pub open spec fn dimmed(s: Seq<char>) -> Seq<char> {
    "\x1b[2m"@ + s + "\x1b[0m"@
}

/// `s` in the foreground colour with SGR code `code`, then the default
/// foreground again.
pub open spec fn fg(code: Seq<char>, s: Seq<char>) -> Seq<char> {
    "\x1b["@ + code + "m"@ + s + "\x1b[39m"@
}

/// `s` on the background colour with SGR code `code`, then the default
/// background again.
pub open spec fn bg(code: Seq<char>, s: Seq<char>) -> Seq<char> {
    "\x1b["@ + code + "m"@ + s + "\x1b[49m"@
}

/// `OwoColorize::bold`, displayed.
/// Trusted: owo-colors writes `ESC[1m`, the text, then `ESC[0m`.
#[verifier::external_body]
fn paint_bold(s: String) -> (r: String)
    ensures
        r@ == bold(s@),
{
    s.bold().to_string()
}

/// `OwoColorize::dimmed`, displayed.
/// Trusted: owo-colors writes `ESC[2m`, the text, then `ESC[0m`.
#[verifier::external_body]
fn paint_dimmed(s: String) -> (r: String)
    ensures
        r@ == dimmed(s@),
{
    s.dimmed().to_string()
}

/// `OwoColorize::red`, displayed.
/// Trusted: owo-colors writes `ESC[31m`, the text, then `ESC[39m`.
#[verifier::external_body]
fn paint_red(s: String) -> (r: String)
    ensures
        r@ == fg("31"@, s@),
{
    s.red().to_string()
}

/// `OwoColorize::green`, displayed.
/// Trusted: owo-colors writes `ESC[32m`, the text, then `ESC[39m`.
#[verifier::external_body]
fn paint_green(s: String) -> (r: String)
    ensures
        r@ == fg("32"@, s@),
{
    s.green().to_string()
}

/// `OwoColorize::yellow`, displayed.
/// Trusted: owo-colors writes `ESC[33m`, the text, then `ESC[39m`.
#[verifier::external_body]
fn paint_yellow(s: String) -> (r: String)
    ensures
        r@ == fg("33"@, s@),
{
    s.yellow().to_string()
}

/// `OwoColorize::cyan`, displayed.
/// Trusted: owo-colors writes `ESC[36m`, the text, then `ESC[39m`.
#[verifier::external_body]
fn paint_cyan(s: String) -> (r: String)
    ensures
        r@ == fg("36"@, s@),
{
    s.cyan().to_string()
}

/// `OwoColorize::on_red`, displayed.
/// Trusted: owo-colors writes `ESC[41m`, the text, then `ESC[49m`.
#[verifier::external_body]
fn paint_on_red(s: String) -> (r: String)
    ensures
        r@ == bg("41"@, s@),
{
    s.on_red().to_string()
}

/// The status label as `csshd list` shows it.
pub open spec fn styled_status(status: Seq<char>) -> Seq<char> {
    if status == "OPEN"@ {
        fg("31"@, bold(status))
    } else if status == "IN_PROGRESS"@ {
        fg("33"@, bold("IN PROGRESS"@))
    } else if status == "PENDING"@ {
        fg("36"@, status)
    } else if status == "RESOLVED"@ {
        fg("32"@, status)
    } else if status == "CLOSED"@ || status == "MERGED"@ {
        dimmed(status)
    } else {
        status
    }
}

/// The priority label as `csshd list` shows it.
pub open spec fn styled_priority(priority: Seq<char>) -> Seq<char> {
    if priority == "CRITICAL"@ {
        bg("41"@, bold(priority))
    } else if priority == "HIGH"@ {
        fg("31"@, bold(priority))
    } else if priority == "LOW"@ {
        dimmed(priority)
    } else {
        priority
    }
}

/// The status label without colours: IN_PROGRESS reads "IN PROGRESS".
pub open spec fn plain_status(status: Seq<char>) -> Seq<char> {
    if status == "IN_PROGRESS"@ {
        "IN PROGRESS"@
    } else {
        status
    }
}

/// The status label, coloured when `color` says the terminal takes colours.
pub open spec fn status_label(status: Seq<char>, color: bool) -> Seq<char> {
    if color {
        styled_status(status)
    } else {
        plain_status(status)
    }
}

/// The priority label, coloured when `color` says the terminal takes
/// colours, else the priority as it is.
pub open spec fn priority_label(priority: Seq<char>, color: bool) -> Seq<char> {
    if color {
        styled_priority(priority)
    } else {
        priority
    }
}

/// A ticket status, with its terminal colour when `color` is set: OPEN bold
/// red, IN_PROGRESS as bold yellow "IN PROGRESS", PENDING cyan, RESOLVED
/// green, CLOSED and MERGED dimmed; any other status as it is. Without
/// colours the label is plain ("IN PROGRESS" for IN_PROGRESS).
pub fn status_styled(status: &str, color: bool) -> (r: String)
    ensures
        r@ == status_label(status@, color),
{
    if !color {
        if eq_str(status, "IN_PROGRESS") {
            string_of("IN PROGRESS")
        } else {
            string_of(status)
        }
    } else if eq_str(status, "OPEN") {
        paint_red(paint_bold(string_of(status)))
    } else if eq_str(status, "IN_PROGRESS") {
        paint_yellow(paint_bold(string_of("IN PROGRESS")))
    } else if eq_str(status, "PENDING") {
        paint_cyan(string_of(status))
    } else if eq_str(status, "RESOLVED") {
        paint_green(string_of(status))
    } else if eq_str(status, "CLOSED") {
        paint_dimmed(string_of(status))
    } else if eq_str(status, "MERGED") {
        paint_dimmed(string_of(status))
    } else {
        string_of(status)
    }
}

/// A ticket priority, with its terminal colour when `color` is set:
/// CRITICAL bold on red, HIGH bold red, NORMAL plain, LOW dimmed; any other
/// priority as it is. Without colours the label is the priority itself.
pub fn priority_styled(priority: &str, color: bool) -> (r: String)
    ensures
        r@ == priority_label(priority@, color),
{
    if !color {
        string_of(priority)
    } else if eq_str(priority, "CRITICAL") {
        paint_on_red(paint_bold(string_of(priority)))
    } else if eq_str(priority, "HIGH") {
        paint_red(paint_bold(string_of(priority)))
    } else if eq_str(priority, "LOW") {
        paint_dimmed(string_of(priority))
    } else {
        string_of(priority)
    }
}

// ── the tickets table ───────────────────────────────────────────────────

/// One row of the tickets table.
pub struct TicketRow {
    pub number: String,
    pub title: String,
    pub status: String,
    pub priority: String,
    pub assignee: Option<String>,
    pub updated_at: Timestamp,
}

#[verifier::external_type_specification]
#[verifier::external_body]
pub struct ExTable(comfy_table::Table);

/// The header cells of a comfy-table `Table` (empty while it has none).
pub uninterp spec fn table_header(t: comfy_table::Table) -> Seq<Seq<char>>;

/// The rows of a comfy-table `Table`, each as the contents of its cells.
pub uninterp spec fn table_rows(t: comfy_table::Table) -> Seq<Seq<Seq<char>>>;

pub open spec fn cell_texts(cells: Seq<String>) -> Seq<Seq<char>> {
    cells.map_values(|c: String| c@)
}

/// `Table::new()`.
/// Trusted: a new table has no header and no rows.
#[verifier::external_body]
fn new_table() -> (t: comfy_table::Table)
    ensures
        table_header(t) == Seq::<Seq<char>>::empty(),
        table_rows(t) == Seq::<Seq<Seq<char>>>::empty(),
{
    comfy_table::Table::new()
}

/// `Table::load_preset(UTF8_FULL_CONDENSED)`.
/// Trusted: loading a preset changes the borders only, not header or rows.
/// The borders themselves are not modelled.
#[verifier::external_body]
fn use_condensed_borders(t: &mut comfy_table::Table)
    ensures
        table_header(*final(t)) == table_header(*old(t)),
        table_rows(*final(t)) == table_rows(*old(t)),
{
    t.load_preset(comfy_table::presets::UTF8_FULL_CONDENSED);
}

/// `Table::set_content_arrangement(ContentArrangement::Dynamic)`.
/// Trusted: the arrangement changes the layout only, not header or rows.
/// The arrangement itself is not modelled.
#[verifier::external_body]
fn use_dynamic_arrangement(t: &mut comfy_table::Table)
    ensures
        table_header(*final(t)) == table_header(*old(t)),
        table_rows(*final(t)) == table_rows(*old(t)),
{
    t.set_content_arrangement(comfy_table::ContentArrangement::Dynamic);
}

/// `Table::set_header`, one cell per string.
/// Trusted: the header becomes these cells (a cell keeps its text: it is split
/// at line breaks and shown joined by them again); the rows stay.
#[verifier::external_body]
fn set_header(t: &mut comfy_table::Table, cells: Vec<String>)
    ensures
        table_header(*final(t)) == cell_texts(cells@),
        table_rows(*final(t)) == table_rows(*old(t)),
{
    t.set_header(cells);
}

/// `Table::add_row`, one cell per string.
/// Trusted: the row is appended after the existing rows; the header stays.
#[verifier::external_body]
fn add_row(t: &mut comfy_table::Table, cells: Vec<String>)
    ensures
        table_header(*final(t)) == table_header(*old(t)),
        table_rows(*final(t)) == table_rows(*old(t)).push(cell_texts(cells@)),
{
    t.add_row(cells);
}

/// The header of the tickets table.
pub open spec fn ticket_table_header() -> Seq<Seq<char>> {
    seq!["#"@, "Title"@, "Status"@, "Pri"@, "Assignee"@, "Updated"@]
}

/// The assignee cell: the name, or an em dash when there is none.
pub open spec fn assignee_label(a: Option<String>) -> Seq<char> {
    match a {
        Some(n) => n@,
        None => "—"@,
    }
}

/// Every cell of a row of the tickets table but the last, which says how
/// long ago the ticket was updated; status and priority coloured when
/// `color` is set.
pub open spec fn ticket_cells(r: TicketRow, color: bool) -> Seq<Seq<char>> {
    seq![
        r.number@,
        r.title@,
        status_label(r.status@, color),
        priority_label(r.priority@, color),
        assignee_label(r.assignee),
    ]
}

/// The table holds the tickets table's header, then one row per ticket:
/// its first five cells as `ticket_cells` says, and last how long ago the
/// ticket was updated, seen at `now`.
pub open spec fn shows_tickets(
    t: comfy_table::Table,
    rows: Seq<TicketRow>,
    color: bool,
    now: Timestamp,
) -> bool {
    &&& table_header(t) == ticket_table_header()
    &&& table_rows(t).len() == rows.len()
    &&& forall|i: int|
        0 <= i < rows.len() ==> {
            &&& (#[trigger] table_rows(t)[i]).len() == 6
            &&& table_rows(t)[i].take(5) == ticket_cells(rows[i], color)
            &&& table_rows(t)[i][5] == relative_label(rows[i].updated_at, now)
        }
}

fn row_cells(r: &TicketRow, color: bool, now: Timestamp) -> (cells: Vec<String>)
    requires
        r.updated_at.wf(),
        now.wf(),
    ensures
        cells@.len() == 6,
        cell_texts(cells@).take(5) == ticket_cells(*r, color),
        cells@[5]@ == relative_label(r.updated_at, now),
{
    let mut cells: Vec<String> = Vec::new();
    cells.push(r.number.clone());
    cells.push(r.title.clone());
    cells.push(status_styled(r.status.as_str(), color));
    cells.push(priority_styled(r.priority.as_str(), color));
    let assignee = match &r.assignee {
        Some(a) => a.clone(),
        None => string_of("—"),
    };
    cells.push(assignee);
    cells.push(relative_time(r.updated_at, now));
    assert(cell_texts(cells@).take(5) =~= ticket_cells(*r, color));
    cells
}

/// The tickets table of `csshd list` with colours on or off: a header row,
/// then one row per ticket with its number, title, status and priority
/// labels, assignee and how long before `now` it was updated.
pub fn ticket_table_in(rows: &[TicketRow], color: bool, now: Timestamp) -> (t: comfy_table::Table)
    requires
        forall|i: int| 0 <= i < rows@.len() ==> (#[trigger] rows@[i]).updated_at.wf(),
        now.wf(),
    ensures
        shows_tickets(t, rows@, color, now),
{
    let mut t = new_table();
    use_condensed_borders(&mut t);
    use_dynamic_arrangement(&mut t);
    let mut header: Vec<String> = Vec::new();
    header.push(string_of("#"));
    header.push(string_of("Title"));
    header.push(string_of("Status"));
    header.push(string_of("Pri"));
    header.push(string_of("Assignee"));
    header.push(string_of("Updated"));
    assert(cell_texts(header@) =~= ticket_table_header());
    set_header(&mut t, header);
    let mut i: usize = 0;
    while i < rows.len()
        invariant
            i <= rows@.len(),
            forall|j: int| 0 <= j < rows@.len() ==> (#[trigger] rows@[j]).updated_at.wf(),
            now.wf(),
            table_header(t) == ticket_table_header(),
            table_rows(t).len() == i,
            forall|j: int|
                0 <= j < i ==> {
                    &&& (#[trigger] table_rows(t)[j]).len() == 6
                    &&& table_rows(t)[j].take(5) == ticket_cells(rows@[j], color)
                    &&& table_rows(t)[j][5] == relative_label(rows@[j].updated_at, now)
                },
        decreases rows@.len() - i,
    {
        let cells = row_cells(&rows[i], color, now);
        let ghost texts = cell_texts(cells@);
        add_row(&mut t, cells);
        assert(table_rows(t)[i as int] == texts);
        i = i + 1;
    }
    t
}

/// The tickets table of `csshd list`, coloured when standard output takes
/// colours, ages measured at `now`.
pub fn ticket_table(rows: &[TicketRow], now: Timestamp) -> (t: comfy_table::Table)
    requires
        forall|i: int| 0 <= i < rows@.len() ==> (#[trigger] rows@[i]).updated_at.wf(),
        now.wf(),
    ensures
        exists|color: bool| shows_tickets(t, rows@, color, now),
{
    let color = stdout_takes_color();
    ticket_table_in(rows, color, now)
}

/// Whether standard output takes colours (owo-colors' `if_supports_color`
/// on `Stream::Stdout`, asked with a probe).
/// Nothing is stated: the answer depends on the terminal and the environment.
#[verifier::external_body]
pub(crate) fn stdout_takes_color() -> (b: bool) {
    "n".if_supports_color(owo_colors::Stream::Stdout, |_| "y").to_string() == "y"
}

/// `s.bold()` when `color`, else `s`.
pub fn bold_if(color: bool, s: String) -> (r: String)
    ensures
        r@ == (if color {
            bold(s@)
        } else {
            s@
        }),
{
    if color {
        paint_bold(s)
    } else {
        s
    }
}

/// `s.dimmed()` when `color`, else `s`.
pub fn dimmed_if(color: bool, s: String) -> (r: String)
    ensures
        r@ == (if color {
            dimmed(s@)
        } else {
            s@
        }),
{
    if color {
        paint_dimmed(s)
    } else {
        s
    }
}

/// `s.yellow()` when `color`, else `s`.
pub fn yellow_if(color: bool, s: String) -> (r: String)
    ensures
        r@ == (if color {
            fg("33"@, s@)
        } else {
            s@
        }),
{
    if color {
        paint_yellow(s)
    } else {
        s
    }
}

// ── laws of the HTML renderer ───────────────────────────────────────────

/// No line holds a line break.
pub open spec fn no_breaks(ls: Seq<Seq<char>>) -> bool {
    forall|i: int, j: int| 0 <= i < ls.len() && 0 <= j < ls[i].len() ==> #[trigger] ls[i][j] != '\n'
}

/// Lines as the renderer leaves them: none holds a line break or ends in
/// whitespace, blank lines come one at a time, and neither the first nor the
/// last line is blank.
pub open spec fn tidy(ls: Seq<Seq<char>>) -> bool {
    &&& no_breaks(ls)
    &&& forall|i: int| 0 <= i < ls.len() && ls[i].len() > 0 ==> !is_ws(#[trigger] ls[i].last())
    &&& forall|i: int| 0 <= i < ls.len() - 1 ==> !(#[trigger] ls[i].len() == 0 && ls[i + 1].len() == 0)
    &&& ls.len() > 0 ==> ls[0].len() > 0 && ls.last().len() > 0
}

/// What `collapse_blank` keeps between steps: tidy, except that the last line
/// may be blank.
pub open spec fn tidy_so_far(ls: Seq<Seq<char>>) -> bool {
    &&& no_breaks(ls)
    &&& forall|i: int| 0 <= i < ls.len() && ls[i].len() > 0 ==> !is_ws(#[trigger] ls[i].last())
    &&& forall|i: int| 0 <= i < ls.len() - 1 ==> !(#[trigger] ls[i].len() == 0 && ls[i + 1].len() == 0)
    &&& ls.len() > 0 ==> ls[0].len() > 0
}

proof fn lemma_lines_have_no_breaks(s: Seq<char>, cur: Seq<char>)
    requires
        forall|j: int| 0 <= j < cur.len() ==> cur[j] != '\n',
    ensures
        no_breaks(lines_from(s, cur)),
    decreases s.len(),
{
    if s.len() == 0 {
    } else if s[0] == '\n' {
        lemma_lines_have_no_breaks(s.drop_first(), seq![]);
        let head = crate::text::strip_cr(cur);
        assert(forall|j: int| 0 <= j < head.len() ==> head[j] == cur[j]);
        let rest = lines_from(s.drop_first(), seq![]);
        assert forall|i: int, j: int|
            0 <= i < (seq![head] + rest).len() && 0 <= j < (seq![head] + rest)[i].len() implies #[trigger] (
        seq![head] + rest)[i][j] != '\n' by {
            if i > 0 {
                assert((seq![head] + rest)[i] == rest[i - 1]);
            }
        }
    } else {
        lemma_lines_have_no_breaks(s.drop_first(), cur.push(s[0]));
    }
}

proof fn lemma_trim_end_shape(s: Seq<char>)
    ensures
        trim_end_ws(s).len() <= s.len(),
        trim_end_ws(s) == s.take(trim_end_ws(s).len() as int),
        trim_end_ws(s).len() > 0 ==> !is_ws(trim_end_ws(s).last()),
    decreases s.len(),
{
    if s.len() > 0 && is_ws(s.last()) {
        lemma_trim_end_shape(s.drop_last());
        let t = trim_end_ws(s.drop_last());
        assert(s.drop_last().take(t.len() as int) =~= s.take(t.len() as int));
    } else {
        assert(s.take(s.len() as int) =~= s);
    }
}

proof fn lemma_keep_line_tidy(kept: Seq<Seq<char>>, line: Seq<char>)
    requires
        tidy_so_far(kept),
        forall|j: int| 0 <= j < line.len() ==> line[j] != '\n',
    ensures
        tidy_so_far(keep_line(kept, line)),
{
    let t = trim_end_ws(line);
    lemma_trim_end_shape(line);
    let blank = all_ws(t);
    if !blank {
        assert(t.len() > 0);
        assert(forall|j: int| 0 <= j < t.len() ==> t[j] == line[j]);
    }
    let r = keep_line(kept, line);
    assert forall|i: int, j: int| 0 <= i < r.len() && 0 <= j < r[i].len() implies #[trigger] r[i][j] != '\n' by {
        if i < kept.len() {
            assert(r[i] == kept[i]);
        } else {
            assert(t[j] == line[j]);
        }
    }
}

proof fn lemma_collapse_tidy(ls: Seq<Seq<char>>, kept: Seq<Seq<char>>)
    requires
        tidy_so_far(kept),
        no_breaks(ls),
    ensures
        tidy_so_far(collapse_blank(ls, kept)),
    decreases ls.len(),
{
    if ls.len() > 0 {
        assert(forall|j: int| 0 <= j < ls[0].len() ==> ls[0][j] != '\n');
        lemma_keep_line_tidy(kept, ls[0]);
        assert forall|i: int, j: int|
            0 <= i < ls.drop_first().len() && 0 <= j < ls.drop_first()[i].len() implies #[trigger] ls.drop_first()[i][j]
            != '\n' by {
            assert(ls.drop_first()[i] == ls[i + 1]);
        }
        lemma_collapse_tidy(ls.drop_first(), keep_line(kept, ls[0]));
    }
}

proof fn lemma_drop_trailing_tidy(ls: Seq<Seq<char>>)
    requires
        tidy_so_far(ls),
    ensures
        tidy(drop_trailing_blank(ls)),
    decreases ls.len(),
{
    if ls.len() > 0 && ls.last().len() == 0 {
        let d = ls.drop_last();
        assert forall|i: int, j: int| 0 <= i < d.len() && 0 <= j < d[i].len() implies #[trigger] d[i][j] != '\n' by {
            assert(d[i] == ls[i]);
        }
        assert forall|i: int| 0 <= i < d.len() - 1 implies !(#[trigger] d[i].len() == 0 && d[i + 1].len() == 0) by {
            assert(d[i] == ls[i]);
            assert(d[i + 1] == ls[i + 1]);
        }
        lemma_drop_trailing_tidy(d);
    }
}

/// The text `html_to_text` gives is tidy: its lines (the text split at line
/// breaks) never end in whitespace, blank lines never come two in a row,
/// and the text neither starts nor ends with a blank line.
pub proof fn lemma_html_text_is_tidy(input: Seq<char>)
    ensures
        html_text(input) == join_lines(shown_lines(input)),
        tidy(shown_lines(input)),
{
    let body = without_prefix(input, html_marker());
    let stripped = scan_tags(body, seq![], None);
    let decoded = decode_entities(stripped);
    lemma_lines_have_no_breaks(decoded, seq![]);
    lemma_collapse_tidy(lines(decoded), seq![]);
    lemma_drop_trailing_tidy(collapse_blank(lines(decoded), seq![]));
}

/// Inside a tag, the text up to the closing `>` becomes the tag's text.
proof fn lemma_scan_through_tag(t: Seq<char>, rest: Seq<char>, out: Seq<char>, tag: Seq<char>)
    requires
        forall|i: int| 0 <= i < t.len() ==> t[i] != '>',
    ensures
        scan_tags(t + seq!['>'] + rest, out, Some(tag)) == scan_tags(rest, after_tag(out, tag + t), None),
    decreases t.len(),
{
    let s = t + seq!['>'] + rest;
    if t.len() == 0 {
        assert(s[0] == '>');
        assert(s.drop_first() =~= rest);
        assert(tag + t =~= tag);
    } else {
        assert(s[0] == t[0]);
        assert(s.drop_first() =~= t.drop_first() + seq!['>'] + rest);
        lemma_scan_through_tag(t.drop_first(), rest, out, tag.push(t[0]));
        assert(tag.push(t[0]) + t.drop_first() =~= tag + t);
    }
}

/// The marker is itself a tag that puts no line break: removing tags from
/// a text that starts with it gives what removing them from the rest gives.
proof fn lemma_scan_skips_marker(rest: Seq<char>)
    ensures
        scan_tags(html_marker() + rest, seq![], None) == scan_tags(rest, seq![], None),
{
    let m = html_marker();
    let inner = seq!['!', '-', '-', 'h', 't', 'm', 'l', '-', '-'];
    let s = m + rest;
    assert(s[0] == '<');
    assert(s.drop_first() =~= inner + seq!['>'] + rest);
    lemma_scan_through_tag(inner, rest, seq![], seq![]);
    assert(seq![] + inner =~= inner);
    assert(strip_leading(inner, '/') == inner);
    assert(!is_ascii_alnum(inner[0]));
    assert(alnum_prefix(inner) =~= Seq::<char>::empty());
    assert(tag_name(inner) =~= Seq::<char>::empty());
    assert(after_tag(seq![], inner) == Seq::<char>::empty());
}

/// The `<!--html-->` marker changes nothing: every body renders the same
/// with or without it in front.
pub proof fn lemma_marker_is_optional(body: Seq<char>)
    ensures
        html_text(html_marker() + body) == html_text(body),
{
    let m = html_marker();
    assert((m + body).take(m.len() as int) =~= m);
    assert((m + body).skip(m.len() as int) =~= body);
    if starts_with(body, m) {
        let rest = body.skip(m.len() as int);
        assert(body =~= m + rest);
        lemma_scan_skips_marker(rest);
    }
}

/// Every `&` written as `&amp;`.
pub open spec fn escape_amp(t: Seq<char>) -> Seq<char>
    decreases t.len(),
{
    if t.len() == 0 {
        seq![]
    } else if t[0] == '&' {
        ent_amp() + escape_amp(t.drop_first())
    } else {
        seq![t[0]] + escape_amp(t.drop_first())
    }
}

/// `replace_all` over a text whose next character is not where a match of
/// `pat` could start.
proof fn lemma_replace_passes(c: char, rest: Seq<char>, pat: Seq<char>, rep: Seq<char>)
    requires
        pat.len() > 0,
        pat[0] != c,
    ensures
        replace_all(seq![c] + rest, pat, rep) == seq![c] + replace_all(rest, pat, rep),
{
    let s = seq![c] + rest;
    assert(s[0] == c);
    assert(!starts_with(s, pat)) by {
        if pat.len() <= s.len() {
            assert(s.take(pat.len() as int)[0] == c);
        }
    }
    assert(s.drop_first() =~= rest);
}

/// An escaped text holds no entity but `&amp;`: an entity pattern starting
/// `&` then a character other than `a` matches nowhere.
proof fn lemma_escaped_has_no_other_entity(t: Seq<char>, pat: Seq<char>, rep: Seq<char>)
    requires
        pat.len() >= 2,
        pat[0] == '&',
        pat[1] != 'a',
    ensures
        replace_all(escape_amp(t), pat, rep) == escape_amp(t),
    decreases t.len(),
{
    if t.len() > 0 {
        lemma_escaped_has_no_other_entity(t.drop_first(), pat, rep);
        let e = escape_amp(t.drop_first());
        if t[0] == '&' {
            let s = ent_amp() + e;
            assert(!starts_with(s, pat)) by {
                if pat.len() <= s.len() {
                    assert(s.take(pat.len() as int)[1] == 'a');
                }
            }
            assert(s[0] == '&');
            assert(s.drop_first() =~= seq!['a'] + (seq!['m', 'p', ';'] + e));
            lemma_replace_passes('a', seq!['m', 'p', ';'] + e, pat, rep);
            assert(seq!['m', 'p', ';'] + e =~= seq!['m'] + (seq!['p', ';'] + e));
            lemma_replace_passes('m', seq!['p', ';'] + e, pat, rep);
            assert(seq!['p', ';'] + e =~= seq!['p'] + (seq![';'] + e));
            lemma_replace_passes('p', seq![';'] + e, pat, rep);
            lemma_replace_passes(';', e, pat, rep);
            assert(replace_all(s, pat, rep) =~= s);
        } else {
            lemma_replace_passes(t[0], e, pat, rep);
        }
    }
}

proof fn lemma_unescape(t: Seq<char>)
    ensures
        replace_all(escape_amp(t), ent_amp(), seq!['&']) == t,
    decreases t.len(),
{
    if t.len() > 0 {
        lemma_unescape(t.drop_first());
        let e = escape_amp(t.drop_first());
        if t[0] == '&' {
            let s = ent_amp() + e;
            assert(s.take(5) =~= ent_amp());
            assert(s.skip(5) =~= e);
            assert(seq!['&'] + t.drop_first() =~= t);
        } else {
            lemma_replace_passes(t[0], e, ent_amp(), seq!['&']);
            assert(seq![t[0]] + t.drop_first() =~= t);
        }
    }
}

/// Entities are decoded once, never twice: a text with every `&` written as
/// `&amp;` decodes back to exactly that text (so `&amp;lt;` gives `&lt;`,
/// not `<`).
pub proof fn lemma_decoding_undoes_ampersand_escaping(t: Seq<char>)
    ensures
        decode_entities(escape_amp(t)) == t,
{
    let e = escape_amp(t);
    lemma_escaped_has_no_other_entity(t, ent_nbsp(), seq![' ']);
    lemma_escaped_has_no_other_entity(t, ent_lt(), seq!['<']);
    lemma_escaped_has_no_other_entity(t, ent_gt(), seq!['>']);
    lemma_escaped_has_no_other_entity(t, ent_quot(), seq!['"']);
    lemma_escaped_has_no_other_entity(t, ent_apos(), seq!['\'']);
    lemma_unescape(t);
}

/// Outside tags, text is copied as it is.
proof fn lemma_scan_plain(a: Seq<char>, rest: Seq<char>, out: Seq<char>)
    requires
        forall|i: int| 0 <= i < a.len() ==> a[i] != '<',
    ensures
        scan_tags(a + rest, out, None) == scan_tags(rest, out + a, None),
    decreases a.len(),
{
    let s = a + rest;
    if a.len() == 0 {
        assert(s =~= rest);
        assert(out + a =~= out);
    } else {
        assert(s[0] == a[0]);
        assert(s.drop_first() =~= a.drop_first() + rest);
        lemma_scan_plain(a.drop_first(), rest, out.push(a[0]));
        assert(out.push(a[0]) + a.drop_first() =~= out + a);
    }
}

/// Removing tags gives the same text whether or not a leading marker is cut
/// off first.
proof fn lemma_marker_irrelevant(x: Seq<char>)
    ensures
        scan_tags(without_prefix(x, html_marker()), seq![], None) == scan_tags(x, seq![], None),
{
    let m = html_marker();
    if starts_with(x, m) {
        let rest = x.skip(m.len() as int);
        assert(x =~= m + rest);
        lemma_scan_skips_marker(rest);
    }
}

/// A tag that is not a block tag adds nothing to the text, not even a line
/// break: `a<n>b` renders as `ab` when `a` holds no `<`, the tag's text `n`
/// holds no `>`, and its name is none of p, div, br, li, tr, h1, h2, h3.
pub proof fn lemma_inline_tag_adds_nothing(a: Seq<char>, n: Seq<char>, b: Seq<char>)
    requires
        forall|i: int| 0 <= i < a.len() ==> a[i] != '<',
        forall|i: int| 0 <= i < n.len() ==> n[i] != '>',
        !is_break_tag(tag_name(n)),
    ensures
        html_text(a + seq!['<'] + n + seq!['>'] + b) == html_text(a + b),
{
    let e = Seq::<char>::empty();
    let x = a + seq!['<'] + n + seq!['>'] + b;
    let tail = seq!['<'] + n + seq!['>'] + b;
    lemma_marker_irrelevant(x);
    lemma_marker_irrelevant(a + b);
    assert(x =~= a + tail);
    lemma_scan_plain(a, tail, e);
    assert(e + a =~= a);
    assert(tail[0] == '<');
    assert(tail.drop_first() =~= n + seq!['>'] + b);
    lemma_scan_through_tag(n, b, a, e);
    assert(e + n =~= n);
    assert(after_tag(a, n) == a);
    lemma_scan_plain(a, b, e);
}

/// An entity pattern changes nothing in a text without `&`.
proof fn lemma_replace_without_ampersand(s: Seq<char>, pat: Seq<char>, rep: Seq<char>)
    requires
        pat.len() > 0,
        pat[0] == '&',
        forall|i: int| 0 <= i < s.len() ==> s[i] != '&',
    ensures
        replace_all(s, pat, rep) == s,
    decreases s.len(),
{
    if s.len() > 0 {
        assert(!starts_with(s, pat)) by {
            if pat.len() <= s.len() {
                assert(s.take(pat.len() as int)[0] == s[0]);
            }
        }
        lemma_replace_without_ampersand(s.drop_first(), pat, rep);
        assert(seq![s[0]] + s.drop_first() =~= s);
    }
}

/// No character of `s` is `c`.
pub open spec fn lacks(s: Seq<char>, c: char) -> bool {
    forall|i: int| 0 <= i < s.len() ==> s[i] != c
}

/// No line of `ls` holds `c`.
pub open spec fn all_lack(ls: Seq<Seq<char>>, c: char) -> bool {
    forall|i: int| 0 <= i < ls.len() ==> lacks(#[trigger] ls[i], c)
}

/// Removing tags adds no character but line breaks, and never leaves a `<`.
proof fn lemma_scan_lacks(s: Seq<char>, out: Seq<char>, tag: Option<Seq<char>>, c: char)
    requires
        c != '\n',
        c == '<' || lacks(s, c),
        lacks(out, c),
    ensures
        lacks(scan_tags(s, out, tag), c),
    decreases s.len(),
{
    if s.len() == 0 {
        match tag {
            None => {},
            Some(t) => {
                assert(lacks(after_tag(out, t), c));
            },
        }
    } else {
        let c0 = s[0];
        let rest = s.drop_first();
        assert(c == '<' || lacks(rest, c));
        match tag {
            None => if c0 == '<' {
                lemma_scan_lacks(rest, out, Some(seq![]), c);
            } else {
                assert(c0 != c);
                assert(lacks(out.push(c0), c));
                lemma_scan_lacks(rest, out.push(c0), None, c);
            },
            Some(t) => if c0 == '>' {
                assert(lacks(after_tag(out, t), c));
                lemma_scan_lacks(rest, after_tag(out, t), None, c);
            } else {
                lemma_scan_lacks(rest, out, Some(t.push(c0)), c);
            },
        }
    }
}

/// A text without `&` holds no entity: decoding leaves it as it is.
proof fn lemma_decode_without_ampersand(s: Seq<char>)
    requires
        lacks(s, '&'),
    ensures
        decode_entities(s) == s,
{
    lemma_replace_without_ampersand(s, ent_nbsp(), seq![' ']);
    lemma_replace_without_ampersand(s, ent_lt(), seq!['<']);
    lemma_replace_without_ampersand(s, ent_gt(), seq!['>']);
    lemma_replace_without_ampersand(s, ent_quot(), seq!['"']);
    lemma_replace_without_ampersand(s, ent_apos(), seq!['\'']);
    lemma_replace_without_ampersand(s, ent_amp(), seq!['&']);
}

/// The lines of a text without `c` hold no `c`.
proof fn lemma_lines_lack(s: Seq<char>, cur: Seq<char>, c: char)
    requires
        lacks(s, c),
        lacks(cur, c),
    ensures
        all_lack(lines_from(s, cur), c),
    decreases s.len(),
{
    if s.len() == 0 {
    } else if s[0] == '\n' {
        lemma_lines_lack(s.drop_first(), seq![], c);
        let head = crate::text::strip_cr(cur);
        assert(lacks(head, c));
        let rest = lines_from(s.drop_first(), seq![]);
        assert forall|i: int| 0 <= i < (seq![head] + rest).len() implies lacks(
            #[trigger] (seq![head] + rest)[i],
            c,
        ) by {
            if i > 0 {
                assert((seq![head] + rest)[i] == rest[i - 1]);
            }
        }
    } else {
        assert(lacks(cur.push(s[0]), c));
        lemma_lines_lack(s.drop_first(), cur.push(s[0]), c);
    }
}

/// Keeping, trimming and dropping lines adds no `c` to them.
proof fn lemma_collapse_lacks(ls: Seq<Seq<char>>, kept: Seq<Seq<char>>, c: char)
    requires
        all_lack(ls, c),
        all_lack(kept, c),
    ensures
        all_lack(collapse_blank(ls, kept), c),
    decreases ls.len(),
{
    if ls.len() > 0 {
        let line = ls[0];
        assert(lacks(line, c));
        lemma_trim_end_shape(line);
        let t = trim_end_ws(line);
        assert(lacks(t, c)) by {
            assert forall|j: int| 0 <= j < t.len() implies t[j] != c by {
                assert(t[j] == line[j]);
            }
        }
        let k = keep_line(kept, line);
        assert(all_lack(k, c)) by {
            assert forall|i: int| 0 <= i < k.len() implies lacks(#[trigger] k[i], c) by {
                if i < kept.len() {
                    assert(k[i] == kept[i]);
                }
            }
        }
        assert(all_lack(ls.drop_first(), c)) by {
            assert forall|i: int| 0 <= i < ls.drop_first().len() implies lacks(
                #[trigger] ls.drop_first()[i],
                c,
            ) by {
                assert(ls.drop_first()[i] == ls[i + 1]);
            }
        }
        lemma_collapse_lacks(ls.drop_first(), k, c);
    }
}

proof fn lemma_drop_trailing_lacks(ls: Seq<Seq<char>>, c: char)
    requires
        all_lack(ls, c),
    ensures
        all_lack(drop_trailing_blank(ls), c),
    decreases ls.len(),
{
    if ls.len() > 0 && ls.last().len() == 0 {
        let d = ls.drop_last();
        assert(all_lack(d, c)) by {
            assert forall|i: int| 0 <= i < d.len() implies lacks(#[trigger] d[i], c) by {
                assert(d[i] == ls[i]);
            }
        }
        lemma_drop_trailing_lacks(d, c);
    }
}

/// Joining lines without `c` by line breaks gives a text without `c`.
proof fn lemma_join_lacks(ls: Seq<Seq<char>>, c: char)
    requires
        all_lack(ls, c),
        c != '\n',
    ensures
        lacks(join_lines(ls), c),
    decreases ls.len(),
{
    if ls.len() == 1 {
        assert(lacks(ls[0], c));
    } else if ls.len() > 1 {
        let d = ls.drop_last();
        assert(all_lack(d, c)) by {
            assert forall|i: int| 0 <= i < d.len() implies lacks(#[trigger] d[i], c) by {
                assert(d[i] == ls[i]);
            }
        }
        lemma_join_lacks(d, c);
        assert(lacks(ls[ls.len() - 1], c));
        let j = join_lines(d) + seq!['\n'] + ls.last();
        assert forall|i: int| 0 <= i < j.len() implies j[i] != c by {
            if i < join_lines(d).len() {
                assert(j[i] == join_lines(d)[i]);
            } else if i > join_lines(d).len() {
                assert(j[i] == ls.last()[i - join_lines(d).len() - 1]);
            }
        }
    }
}

/// A body without `&` renders without `<`: every `<` opens a tag, which is
/// removed, and no entity is there to bring one back. This holds for the
/// detail pane's `strip_html` and for `csshd view`'s, which both render as
/// `html_to_text` does.
pub proof fn lemma_rendered_text_has_no_less_than(input: Seq<char>)
    requires
        lacks(input, '&'),
    ensures
        lacks(html_text(input), '<'),
{
    let e = Seq::<char>::empty();
    lemma_marker_irrelevant(input);
    let stripped = scan_tags(input, e, None);
    lemma_scan_lacks(input, e, None, '<');
    lemma_scan_lacks(input, e, None, '&');
    lemma_decode_without_ampersand(stripped);
    lemma_lines_lack(stripped, e, '<');
    lemma_collapse_lacks(lines(stripped), seq![], '<');
    lemma_drop_trailing_lacks(collapse_blank(lines(stripped), seq![]), '<');
    lemma_join_lacks(shown_lines(input), '<');
}

/// Outside any line break, `str::lines` reads the rest as one line.
proof fn lemma_lines_without_break(s: Seq<char>, cur: Seq<char>)
    requires
        forall|i: int| 0 <= i < s.len() ==> s[i] != '\n',
        (cur + s).len() > 0,
    ensures
        lines_from(s, cur) == seq![cur + s],
    decreases s.len(),
{
    if s.len() == 0 {
        assert(cur + s =~= cur);
    } else {
        assert(cur.push(s[0]) + s.drop_first() =~= cur + s);
        lemma_lines_without_break(s.drop_first(), cur.push(s[0]));
    }
}

/// A piece of plain text as the line-break law speaks of it: not empty, no
/// markup, entity or line break in it, and no whitespace at either end.
pub open spec fn plain_piece(x: Seq<char>) -> bool {
    &&& x.len() > 0
    &&& forall|i: int|
        0 <= i < x.len() ==> x[i] != '<' && x[i] != '>' && x[i] != '&' && x[i] != '\n'
    &&& !is_ws(x[0])
    &&& !is_ws(x[x.len() - 1])
}

/// The upper case of an ASCII letter or digit as written in a tag.
pub open spec fn tag_upper(c: char) -> char {
    if 'a' <= c && c <= 'z' {
        ((c as u32) - 32) as char
    } else {
        c
    }
}

/// Every block tag puts a line break where it stands: `<p>`, `<div>`,
/// `<br>`, `<li>`, `<tr>`, `<h1>`, `<h2>` and `<h3>`, opening or closing, in
/// lower or upper case, between two plain pieces of text `a` and `b`, render
/// as `a`, a line break, then `b`.
pub proof fn lemma_block_tag_breaks_line(
    a: Seq<char>,
    b: Seq<char>,
    name: Seq<char>,
    closing: bool,
    upper: bool,
)
    requires
        plain_piece(a),
        plain_piece(b),
        name == seq!['p'] || name == seq!['d', 'i', 'v'] || name == seq!['b', 'r'] || name == seq![
            'l',
            'i',
        ] || name == seq!['t', 'r'] || name == seq!['h', '1'] || name == seq!['h', '2'] || name
            == seq!['h', '3'],
    ensures
        ({
            let written = if upper {
                name.map_values(|c: char| tag_upper(c))
            } else {
                name
            };
            let tag = if closing {
                seq!['/'] + written
            } else {
                written
            };
            html_text(a + seq!['<'] + tag + seq!['>'] + b) == a + seq!['\n'] + b
        }),
{
    let e = Seq::<char>::empty();
    let written = if upper {
        name.map_values(|c: char| tag_upper(c))
    } else {
        name
    };
    let tag = if closing {
        seq!['/'] + written
    } else {
        written
    };
    // The tag's name is `name`.
    assert(written.len() == name.len());
    assert(forall|i: int| 0 <= i < written.len() ==> is_ascii_alnum(#[trigger] written[i]) && ascii_lower(written[i]) == name[i]);
    assert(written.len() > 0 && written[0] != '/');
    assert(strip_leading(written, '/') == written);
    assert(strip_leading(tag, '/') == written) by {
        if closing {
            assert(tag[0] == '/');
            assert(tag.drop_first() =~= written);
        } else {
            assert(tag[0] != '/');
        }
    }
    assert(alnum_prefix(written) == written) by {
        reveal_with_fuel(alnum_prefix, 4);
        if written.len() == 1 {
            assert(written.drop_first() =~= Seq::<char>::empty());
            assert(seq![written[0]] + Seq::<char>::empty() =~= written);
        } else if written.len() == 2 {
            let w1 = written.drop_first();
            assert(w1.drop_first() =~= Seq::<char>::empty());
            assert(seq![w1[0]] + Seq::<char>::empty() =~= w1);
            assert(seq![written[0]] + w1 =~= written);
        } else {
            let w1 = written.drop_first();
            let w2 = w1.drop_first();
            assert(w2.drop_first() =~= Seq::<char>::empty());
            assert(seq![w2[0]] + Seq::<char>::empty() =~= w2);
            assert(seq![w1[0]] + w2 =~= w1);
            assert(seq![written[0]] + w1 =~= written);
        }
    }
    assert(tag_name(tag) =~= name);
    assert(is_break_tag(tag_name(tag)));
    // Removing tags leaves `a`, a line break, `b`.
    let x = a + seq!['<'] + tag + seq!['>'] + b;
    let rest = seq!['<'] + tag + seq!['>'] + b;
    assert(x =~= a + rest);
    lemma_scan_plain(a, rest, e);
    assert(e + a =~= a);
    assert(rest[0] == '<');
    assert(rest.drop_first() =~= tag + seq!['>'] + b);
    assert(forall|i: int| 0 <= i < tag.len() ==> tag[i] != '>') by {
        assert forall|i: int| 0 <= i < tag.len() implies tag[i] != '>' by {
            if closing && i == 0 {
            } else if closing {
                assert(tag[i] == written[i - 1]);
            } else {
                assert(tag[i] == written[i]);
            }
        }
    }
    lemma_scan_through_tag(tag, b, a, e);
    assert(e + tag =~= tag);
    assert(a[a.len() - 1] != '\n');
    assert(after_tag(a, tag) == a.push('\n'));
    lemma_scan_plain(b, e, a.push('\n'));
    assert(b + e =~= b);
    let stripped = a + seq!['\n'] + b;
    assert(a.push('\n') + b =~= stripped);
    assert(scan_tags(e, stripped, None) == stripped);
    lemma_marker_irrelevant(x);
    // No entity to decode.
    assert(lacks(stripped, '&')) by {
        assert forall|i: int| 0 <= i < stripped.len() implies stripped[i] != '&' by {
            if i < a.len() {
                assert(stripped[i] == a[i]);
            } else if i > a.len() {
                assert(stripped[i] == b[i - a.len() - 1]);
            }
        }
    }
    lemma_decode_without_ampersand(stripped);
    // Two lines, kept as they are.
    crate::text::lemma_lines_take_line(a, b, e);
    assert(crate::text::strip_cr(e + a) =~= a);
    lemma_lines_without_break(b, e);
    assert(e + b =~= b);
    let ls = lines(stripped);
    assert(ls =~= seq![a, b]);
    assert(trim_end_ws(a) == a);
    assert(trim_end_ws(b) == b);
    assert(!all_ws(a));
    assert(!all_ws(b));
    assert(keep_line(seq![], a) =~= seq![a]);
    assert(keep_line(seq![a], b) =~= seq![a, b]);
    reveal_with_fuel(collapse_blank, 3);
    assert(ls.drop_first() =~= seq![b]);
    assert(ls.drop_first().drop_first() =~= Seq::<Seq<char>>::empty());
    assert(collapse_blank(ls, seq![]) =~= seq![a, b]);
    assert(drop_trailing_blank(seq![a, b]) == seq![a, b]);
    assert(seq![a, b].drop_last() =~= seq![a]);
    assert(seq![a, b].last() == b);
    assert(join_lines(seq![a]) == a);
    assert(join_lines(seq![a, b]) == join_lines(seq![a]) + seq!['\n'] + b);
    assert(join_lines(seq![a, b]) =~= a + seq!['\n'] + b);
}

} // verus!
