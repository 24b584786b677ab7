//! The gettext rewrite for declarative UI documents: every property text
//! written as `>gettext("...")<` becomes a translatable element,
//! ` translatable="yes">...<`. A marked text never spans lines; within a
//! line the marked span is as long as possible, and rewriting scans left
//! to right.

use vstd::prelude::*;
use vstd::string::StringExecFns;

verus! {

/// The opening marker `>gettext("` stands at the start of `s`.
pub open spec fn spec_open_at(s: Seq<char>) -> bool {
    s.len() >= 10 && s[0] == '>' && s[1] == 'g' && s[2] == 'e' && s[3] == 't' && s[4] == 't'
        && s[5] == 'e' && s[6] == 'x' && s[7] == 't' && s[8] == '(' && s[9] == '"'
}

/// The closing marker `")<` stands at position `j` of `s`.
pub open spec fn spec_close_at(s: Seq<char>, j: int) -> bool {
    0 <= j && j + 3 <= s.len() && s[j] == '"' && s[j + 1] == ')' && s[j + 2] == '<'
}

/// The position of the first line break at or after `from`, or the
/// length of `s` on its last line.
pub open spec fn spec_line_end(s: Seq<char>, from: int) -> int
    decreases s.len() - from,
{
    if from < 0 || from >= s.len() {
        s.len() as int
    } else if s[from] == '\n' {
        from
    } else {
        spec_line_end(s, from + 1)
    }
}

/// The rightmost closing marker at or below `hi` that leaves room for a
/// marked text, or `-1` when there is none.
pub open spec fn spec_last_close(s: Seq<char>, hi: int) -> int
    decreases hi,
{
    if hi < 10 {
        -1
    } else if spec_close_at(s, hi) {
        hi
    } else {
        spec_last_close(s, hi - 1)
    }
}

/// The end of the marked text when a rewrite matches at the start of
/// `s`: the rightmost closing marker on the first line.
pub open spec fn spec_close_pos(s: Seq<char>) -> int {
    spec_last_close(s, spec_line_end(s, 10))
}

/// `s` with every `>gettext("...")<` span rewritten to
/// ` translatable="yes">...<`, scanning left to right; a span never
/// crosses a line break, and within a line it is as long as possible.
pub open spec fn spec_translate(s: Seq<char>) -> Seq<char>
    decreases s.len(),
{
    if s.len() == 0 {
        Seq::empty()
    } else if spec_open_at(s) && 10 <= spec_close_pos(s) && spec_close_pos(s) + 3 <= s.len() {
        let j = spec_close_pos(s);
        " translatable=\"yes\">"@ + s.subrange(10, j) + seq!['<'] + spec_translate(s.skip(j + 3))
    } else {
        seq![s[0]] + spec_translate(s.skip(1))
    }
}

proof fn lemma_line_end_found(s: Seq<char>, from: int, e: int)
    requires
        0 <= from <= e <= s.len(),
        forall|k: int| from <= k < e ==> s[k] != '\n',
        e < s.len() ==> s[e] == '\n',
    ensures
        spec_line_end(s, from) == e,
    decreases e - from,
{
    if from < e {
        lemma_line_end_found(s, from + 1, e);
    }
}

proof fn lemma_last_close_found(s: Seq<char>, hi: int, j: int)
    requires
        10 <= j <= hi,
        spec_close_at(s, j),
        forall|k: int| j < k <= hi ==> !spec_close_at(s, k),
    ensures
        spec_last_close(s, hi) == j,
    decreases hi,
{
    if hi > j {
        lemma_last_close_found(s, hi - 1, j);
    }
}

proof fn lemma_last_close_none(s: Seq<char>, hi: int)
    requires
        forall|k: int| 10 <= k <= hi ==> !spec_close_at(s, k),
    ensures
        spec_last_close(s, hi) == -1,
    decreases hi,
{
    if hi >= 10 {
        lemma_last_close_none(s, hi - 1);
    }
}

/// Whether the opening marker stands at the start of `s`.
fn open_at_start(s: &Vec<char>) -> (r: bool)
    ensures
        r == spec_open_at(s@),
{
    s.len() >= 10 && s[0] == '>' && s[1] == 'g' && s[2] == 'e' && s[3] == 't' && s[4] == 't'
        && s[5] == 'e' && s[6] == 'x' && s[7] == 't' && s[8] == '(' && s[9] == '"'
}

/// Whether the closing marker stands at position `j`.
fn close_at(s: &Vec<char>, j: usize) -> (r: bool)
    ensures
        r == spec_close_at(s@, j as int),
{
    if s.len() >= 3 && j <= s.len() - 3 {
        s[j] == '"' && s[j + 1] == ')' && s[j + 2] == '<'
    } else {
        false
    }
}

/// Rewrites every gettext span of the characters, leftmost first.
pub fn translate_chars(s: &Vec<char>) -> (r: Vec<char>)
    ensures
        r@ == spec_translate(s@),
    decreases s@.len(),
{
    if s.len() == 0 {
        let out: Vec<char> = Vec::new();
        assert(out@ =~= Seq::<char>::empty());
        return out;
    }
    if open_at_start(s) {
        // the first line break after the opening marker
        let mut eol: usize = 10;
        while eol < s.len() && s[eol] != '\n'
            invariant
                10 <= eol <= s@.len(),
                forall|k: int| 10 <= k < eol ==> s@[k] != '\n',
            decreases s.len() - eol,
        {
            eol += 1;
        }
        proof {
            lemma_line_end_found(s@, 10, eol as int);
        }
        // the rightmost closing marker on that line
        let mut h: usize = eol;
        loop
            invariant
                10 <= h <= eol <= s@.len(),
                spec_line_end(s@, 10) == eol,
                spec_open_at(s@),
                s@.len() > 0,
                forall|k: int| h < k <= eol ==> !spec_close_at(s@, k),
            ensures
                10 <= h <= eol,
                spec_close_at(s@, h as int) ==> spec_last_close(s@, eol as int) == h,
                !spec_close_at(s@, h as int) ==> spec_last_close(s@, eol as int) == -1,
            decreases h,
        {
            if close_at(s, h) {
                proof {
                    lemma_last_close_found(s@, eol as int, h as int);
                }
                break;
            }
            if h == 10 {
                proof {
                    lemma_last_close_none(s@, eol as int);
                }
                break;
            }
            h -= 1;
        }
        if close_at(s, h) {
            let j = h;
            let mut out = crate::text::str_chars(" translatable=\"yes\">");
            let ghost prefix = out@;
            let mut k: usize = 10;
            while k < j
                invariant
                    10 <= k <= j <= s@.len(),
                    out@ == prefix + s@.subrange(10, k as int),
                decreases j - k,
            {
                out.push(s[k]);
                assert(prefix + s@.subrange(10, k as int).push(s@[k as int]) =~= prefix
                    + s@.subrange(10, k + 1));
                k += 1;
            }
            out.push('<');
            let rest = crate::text::suffix_chars(s, j + 3);
            let translated = translate_chars(&rest);
            let mut result = out;
            crate::text::append_chars(&mut result, &translated);
            assert(result@ =~= " translatable=\"yes\">"@ + s@.subrange(10, j as int) + seq!['<']
                + spec_translate(s@.skip(j + 3)));
            return result;
        }
    }
    // no rewrite at the start: keep one character and continue
    let mut out: Vec<char> = Vec::new();
    out.push(s[0]);
    let rest = crate::text::suffix_chars(s, 1);
    let translated = translate_chars(&rest);
    crate::text::append_chars(&mut out, &translated);
    assert(out@ =~= seq![s@[0]] + spec_translate(s@.skip(1)));
    out
}

/// Rewrites every gettext span of a UI document, leftmost first.
pub fn translate_ui(s: &str) -> (r: String)
    ensures
        r@ == spec_translate(s@),
{
    let sv = crate::text::str_chars(s);
    let rv = translate_chars(&sv);
    crate::text::chars_str(&rv)
}

/// A whole interface document: the XML header and the `<interface>`
/// element around the rewritten object markup.
pub open spec fn spec_interface_document(ui: Seq<char>) -> Seq<char> {
    "<?xml version=\"1.0\" encoding=\"UTF-8\"?>\n            <interface>\n            "@
        + spec_translate(ui) + "\n            </interface>\n            "@
}

/// The interface document built from the given object markup, with its
/// gettext spans rewritten; this is the text the toolkit's UI builder
/// receives.
pub fn interface_document(ui: &str) -> (r: String)
    ensures
        r@ == spec_interface_document(ui@),
{
    let mut out = String::new();
    out.append("<?xml version=\"1.0\" encoding=\"UTF-8\"?>\n            <interface>\n            ");
    let translated = translate_ui(ui);
    out.append(translated.as_str());
    out.append("\n            </interface>\n            ");
    assert(out@ =~= spec_interface_document(ui@));
    out
}

} // verus!
