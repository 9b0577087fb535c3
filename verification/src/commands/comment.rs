//! `csshd comment`: where the body comes from, the editor template and how
//! the edited text becomes a comment.

use vstd::prelude::*;

use crate::text::{
    all_ws, chars_of, concat, is_whitespace, is_ws, join_lines, join_with_newlines, lines,
    split_lines, string_from, string_of, trim, trim_end_ws, trim_start, trim_start_ws, trim_ws,
};
use crate::text::{lemma_lines_take_line, lines_from, strip_cr};

verus! {

broadcast use vstd::string::group_string_axioms;

/// Where the text of a comment comes from.
#[derive(Debug, Clone, PartialEq, Eq)]
pub enum BodySource {
    /// `-`: read standard input.
    Stdin,
    /// The text given on the command line.
    Given(String),
    /// Nothing given: open the user's editor.
    Editor,
}

/// The source of a comment body for the `body` argument: `-` is standard
/// input, any other text is the body itself, none opens the editor.
pub fn body_source(body: Option<String>) -> (r: BodySource)
    ensures
        match body {
            None => r == BodySource::Editor,
            Some(b) => if b@ == "-"@ {
                r == BodySource::Stdin
            } else {
                r == BodySource::Given(b)
            },
        },
{
    match body {
        None => BodySource::Editor,
        Some(b) => if crate::text::eq_str(b.as_str(), "-") {
            BodySource::Stdin
        } else {
            BodySource::Given(b)
        },
    }
}

/// The comment to post: the body trimmed, or the refusal of an empty one.
pub open spec fn prepared_comment(body: Seq<char>) -> Result<Seq<char>, Seq<char>> {
    let t = trim_ws(body);
    if t.len() == 0 {
        Err("Empty comment — aborting."@)
    } else {
        Ok(t)
    }
}

/// Trims a comment body; an empty one is refused.
pub fn prepare_comment(body: &str) -> (r: Result<String, String>)
    ensures
        match prepared_comment(body@) {
            Ok(t) => r is Ok && r->Ok_0@ == t,
            Err(e) => r is Err && r->Err_0@ == e,
        },
{
    let v = chars_of(body);
    let t = trim(&v);
    if t.len() == 0 {
        Err(string_of("Empty comment — aborting."))
    } else {
        Ok(string_from(&t))
    }
}

/// The confirmation printed after posting.
pub fn posted_message(ticket: &str, is_internal: bool) -> (r: String)
    ensures
        r@ == "Comment posted on "@ + ticket@ + (if is_internal {
            " (internal)"@
        } else {
            ""@
        }) + "."@,
{
    let a = concat("Comment posted on ", ticket);
    let b = if is_internal {
        concat(a.as_str(), " (internal)")
    } else {
        concat(a.as_str(), "")
    };
    concat(b.as_str(), ".")
}

/// The editor to run: `$VISUAL`, else `$EDITOR`, else notepad on Windows and
/// vi elsewhere.
pub open spec fn editor_of(visual: Option<String>, editor: Option<String>, windows: bool) -> Seq<char> {
    match visual {
        Some(v) => v@,
        None => match editor {
            Some(e) => e@,
            None => if windows {
                "notepad"@
            } else {
                "vi"@
            },
        },
    }
}

/// Chooses the editor from `$VISUAL` and `$EDITOR` (each when set).
pub fn editor_command(visual: Option<String>, editor: Option<String>, windows: bool) -> (r: String)
    ensures
        r@ == editor_of(visual, editor, windows),
{
    match visual {
        Some(v) => v,
        None => match editor {
            Some(e) => e,
            None => if windows {
                string_of("notepad")
            } else {
                string_of("vi")
            },
        },
    }
}

/// The template's first instruction line.
pub open spec fn template_first() -> Seq<char> {
    "# Type your comment for the ticket below. Lines starting with '#' are"@
}

/// The template's second instruction line.
pub open spec fn template_second() -> Seq<char> {
    "# ignored. Save and exit to post; quit without saving to abort."@
}

/// The line that marks an internal note.
pub open spec fn internal_line() -> Seq<char> {
    "# This comment is INTERNAL — visible to agents only."@
}

/// The text the editor opens with: the two instruction lines, the internal
/// marker line for internal notes, then an empty line.
pub open spec fn template_of(is_internal: bool) -> Seq<char> {
    template_first() + "\n"@ + template_second() + "\n"@ + (if is_internal {
        internal_line() + "\n"@
    } else {
        ""@
    }) + "\n"@
}

/// The editor template, with a warning line for internal notes.
pub fn editor_template(is_internal: bool) -> (r: String)
    ensures
        r@ == template_of(is_internal),
{
    let a = concat("# Type your comment for the ticket below. Lines starting with '#' are", "\n");
    let b = concat(a.as_str(), "# ignored. Save and exit to post; quit without saving to abort.");
    let c = concat(b.as_str(), "\n");
    let d = if is_internal {
        let n = concat("# This comment is INTERNAL — visible to agents only.", "\n");
        concat(c.as_str(), n.as_str())
    } else {
        concat(c.as_str(), "")
    };
    concat(d.as_str(), "\n")
}

/// `str::split_whitespace`: the maximal runs of non-whitespace, `cur` being
/// the run read so far.
pub open spec fn words_from(s: Seq<char>, cur: Seq<char>) -> Seq<Seq<char>>
    decreases s.len(),
{
    if s.len() == 0 {
        if cur.len() == 0 {
            seq![]
        } else {
            seq![cur]
        }
    } else if is_ws(s[0]) {
        (if cur.len() == 0 {
            seq![]
        } else {
            seq![cur]
        }) + words_from(s.drop_first(), seq![])
    } else {
        words_from(s.drop_first(), cur.push(s[0]))
    }
}

pub open spec fn words(s: Seq<char>) -> Seq<Seq<char>> {
    words_from(s, seq![])
}

pub open spec fn texts(v: Seq<String>) -> Seq<Seq<char>> {
    v.map_values(|s: String| s@)
}

/// `str::split_whitespace`.
pub fn split_words(s: &str) -> (r: Vec<String>)
    ensures
        texts(r@) == words(s@),
{
    let v = chars_of(s);
    let mut out: Vec<String> = Vec::new();
    let mut cur: Vec<char> = Vec::new();
    let mut i: usize = 0;
    assert(v@.skip(0) =~= v@);
    assert(texts(out@) =~= seq![]);
    while i < v.len()
        invariant
            i <= v.len(),
            v@ == s@,
            words(s@) == texts(out@) + words_from(v@.skip(i as int), cur@),
        decreases v.len() - i,
    {
        let c = v[i];
        let ghost rest = v@.skip(i as int);
        assert(rest.drop_first() =~= v@.skip(i + 1));
        if is_whitespace(c) {
            if cur.len() > 0 {
                let ghost before = texts(out@);
                out.push(string_from(&cur));
                assert(texts(out@) =~= before + seq![cur@]);
            } else {
                assert(texts(out@) =~= texts(out@) + seq![]);
            }
            cur = Vec::new();
        } else {
            cur.push(c);
        }
        i = i + 1;
    }
    if cur.len() > 0 {
        let ghost before = texts(out@);
        out.push(string_from(&cur));
        assert(texts(out@) =~= before + seq![cur@]);
    } else {
        assert(texts(out@) =~= texts(out@) + seq![]);
    }
    out
}

/// The program and its arguments: the editor command split at whitespace
/// (so `VISUAL='code -w'` works; quotes are not understood), or `None` when
/// it is blank.
pub fn split_command(editor: &str) -> (r: Option<(String, Vec<String>)>)
    ensures
        words(editor@).len() == 0 ==> r is None,
        words(editor@).len() > 0 ==> r is Some && (r->0).0@ == words(editor@)[0] && texts((r->0).1@)
            == words(editor@).drop_first(),
{
    let mut ws = split_words(editor);
    if ws.len() == 0 {
        None
    } else {
        let ghost all = texts(ws@);
        let program = ws.remove(0);
        assert(texts(ws@) =~= all.drop_first());
        Some((program, ws))
    }
}

/// The lines that are not comments: those that do not start with `#` once
/// leading whitespace is ignored.
pub open spec fn kept_lines(ls: Seq<Seq<char>>) -> Seq<Seq<char>>
    decreases ls.len(),
{
    if ls.len() == 0 {
        seq![]
    } else {
        let rest = kept_lines(ls.drop_last());
        let t = trim_start_ws(ls.last());
        if t.len() > 0 && t[0] == '#' {
            rest
        } else {
            rest.push(ls.last())
        }
    }
}

/// The comment in the edited file: its lines without the `#` lines, joined
/// by line breaks.
pub open spec fn editor_body(raw: Seq<char>) -> Seq<char> {
    join_lines(kept_lines(lines(raw)))
}

/// The comment text of an edited file.
pub fn comment_from_editor(raw: &str) -> (r: String)
    ensures
        r@ == editor_body(raw@),
{
    let v = chars_of(raw);
    let ls = split_lines(&v);
    let ghost m = ls@.map_values(|l: Vec<char>| l@);
    let mut kept: Vec<Vec<char>> = Vec::new();
    let mut i: usize = 0;
    assert(kept@.map_values(|l: Vec<char>| l@) =~= kept_lines(m.take(0)));
    while i < ls.len()
        invariant
            i <= ls.len(),
            m == ls@.map_values(|l: Vec<char>| l@),
            kept@.map_values(|l: Vec<char>| l@) == kept_lines(m.take(i as int)),
        decreases ls.len() - i,
    {
        assert(m.take(i + 1).drop_last() =~= m.take(i as int));
        assert(m.take(i + 1).last() == ls@[i as int]@);
        let t = trim_start(&ls[i]);
        if !(t.len() > 0 && t[0] == '#') {
            let ghost before = kept@.map_values(|l: Vec<char>| l@);
            kept.push(ls[i].clone());
            assert(kept@.map_values(|l: Vec<char>| l@) =~= before.push(ls@[i as int]@));
        }
        i = i + 1;
    }
    assert(m.take(ls.len() as int) =~= m);
    let joined = join_with_newlines(&kept);
    string_from(&joined)
}

// ── laws ────────────────────────────────────────────────────────────────

/// An instruction line of the template: it starts with `#`, holds no line
/// break and does not end in a carriage return.
spec fn instruction_line(l: Seq<char>) -> bool {
    &&& l.len() > 0
    &&& l[0] == '#'
    &&& l.last() != '\r'
    &&& forall|i: int| 0 <= i < l.len() ==> l[i] != '\n'
}

proof fn lemma_template_lines_are_instructions()
    ensures
        instruction_line(template_first()),
        instruction_line(template_second()),
        instruction_line(internal_line()),
        "\n"@ == seq!['\n'],
        ""@ == Seq::<char>::empty(),
{
    reveal_strlit("# Type your comment for the ticket below. Lines starting with '#' are");
    reveal_strlit("# ignored. Save and exit to post; quit without saving to abort.");
    reveal_strlit("# This comment is INTERNAL — visible to agents only.");
    reveal_strlit("\n");
    reveal_strlit("");
    let a = template_first();
    let b = template_second();
    let c = internal_line();
    assert forall|i: int| 0 <= i < a.len() implies a[i] != '\n' by {}
    assert forall|i: int| 0 <= i < b.len() implies b[i] != '\n' by {}
    assert forall|i: int| 0 <= i < c.len() implies c[i] != '\n' by {}
}

/// An instruction line is dropped from the edited text.
proof fn lemma_instruction_dropped(ls: Seq<Seq<char>>, l: Seq<char>)
    requires
        instruction_line(l),
    ensures
        kept_lines(ls.push(l)) == kept_lines(ls),
{
    assert(ls.push(l).drop_last() =~= ls);
    assert(!is_ws(l[0]));
    assert(trim_start_ws(l) == l);
}

/// Saving the editor's template untouched posts nothing: every line of it
/// but the last, empty one is an instruction line starting with `#`, so the
/// comment comes out empty and is refused.
pub proof fn lemma_untouched_template_is_refused(is_internal: bool)
    ensures
        editor_body(template_of(is_internal)) == Seq::<char>::empty(),
        prepared_comment(editor_body(template_of(is_internal))) is Err,
{
    lemma_template_lines_are_instructions();
    let a = template_first();
    let b = template_second();
    let c = internal_line();
    let nl = seq!['\n'];
    let e = Seq::<char>::empty();
    // The lines after the second instruction line.
    let tail: Seq<Seq<char>> = if is_internal {
        seq![c, e]
    } else {
        seq![e]
    };
    let after = if is_internal {
        c + nl + nl
    } else {
        nl
    };
    lemma_lines_take_line(e, e, e);
    assert(e + nl + e =~= nl);
    assert(lines_from(nl, e) == seq![strip_cr(e + e)] + lines_from(e, e));
    assert(strip_cr(e + e) =~= e);
    assert(lines_from(nl, e) =~= seq![e]);
    if is_internal {
        lemma_lines_take_line(c, nl, e);
        assert(strip_cr(e + c) =~= c);
        assert(lines_from(after, e) =~= seq![c] + seq![e]);
    }
    assert(lines_from(after, e) =~= tail);
    let rest2 = if is_internal {
        c + nl
    } else {
        e
    };
    lemma_lines_take_line(b, rest2 + nl, e);
    assert(b + nl + (rest2 + nl) =~= b + nl + rest2 + nl);
    assert(rest2 + nl =~= after);
    assert(strip_cr(e + b) =~= b);
    lemma_lines_take_line(a, b + nl + rest2 + nl, e);
    assert(strip_cr(e + a) =~= a);
    let t = template_of(is_internal);
    assert(t =~= a + nl + (b + nl + rest2 + nl));
    let ls = lines(t);
    assert(ls =~= seq![a] + (seq![b] + tail));
    // Dropping the instruction lines leaves the one empty line.
    let heads: Seq<Seq<char>> = if is_internal {
        seq![a, b, c]
    } else {
        seq![a, b]
    };
    assert(ls =~= heads.push(e));
    assert(heads.push(e).drop_last() =~= heads);
    assert(trim_start_ws(e) =~= e);
    assert(kept_lines(ls) == kept_lines(heads).push(e));
    lemma_instruction_dropped(seq![], a);
    assert(seq![a] =~= Seq::<Seq<char>>::empty().push(a));
    lemma_instruction_dropped(seq![a], b);
    assert(seq![a, b] =~= seq![a].push(b));
    if is_internal {
        lemma_instruction_dropped(seq![a, b], c);
        assert(seq![a, b, c] =~= seq![a, b].push(c));
    }
    assert(kept_lines(heads) =~= Seq::<Seq<char>>::empty());
    assert(kept_lines(ls) =~= seq![e]);
    assert(editor_body(t) =~= e);
    assert(trim_start_ws(e) =~= e);
    assert(trim_end_ws(e) =~= e);
}

} // verus!
