//! HTML text: escaping of interpolated values, and the crude HTML-to-text
//! conversion used for the plain-text part of e-mails.
use vstd::prelude::*;
use crate::text::{
    chars_of, decimal, has_substring, lemma_prefix_substring, lemma_substring_concat, lemma_substring_self, push_char,
    push_decimal, push_str, replace_all, replace_str,
};

verus! {

broadcast use vstd::string::group_string_axioms;

/// The escaped form of one character: `&`, `<`, `>`, `"` and `'` become
/// character references, every other character stands for itself.
pub open spec fn escape_char(c: char) -> Seq<char> {
    if c == '&' {
        "&amp;"@
    } else if c == '<' {
        "&lt;"@
    } else if c == '>' {
        "&gt;"@
    } else if c == '"' {
        "&quot;"@
    } else if c == '\'' {
        "&#x27;"@
    } else {
        seq![c]
    }
}

/// `s` with every character escaped for use in HTML text or attributes.
pub open spec fn html_escape(s: Seq<char>) -> Seq<char>
    decreases s.len(),
{
    if s.len() == 0 {
        Seq::empty()
    } else {
        html_escape(s.drop_last()) + escape_char(s.last())
    }
}

/// Appends the escaped form of `value` to `out`.
pub fn push_escaped(out: &mut String, value: &str)
    ensures
        final(out)@ == old(out)@ + html_escape(value@),
{
    let cs = chars_of(value);
    let mut i: usize = 0;
    assert(cs@.take(0) =~= Seq::<char>::empty());
    assert(old(out)@ + html_escape(Seq::<char>::empty()) =~= old(out)@);
    while i < cs.len()
        invariant
            cs@ == value@,
            i <= cs@.len(),
            out@ == old(out)@ + html_escape(cs@.take(i as int)),
        decreases cs@.len() - i,
    {
        let c = cs[i];
        let ghost before = out@;
        if c == '&' {
            push_str(out, "&amp;");
        } else if c == '<' {
            push_str(out, "&lt;");
        } else if c == '>' {
            push_str(out, "&gt;");
        } else if c == '"' {
            push_str(out, "&quot;");
        } else if c == '\'' {
            push_str(out, "&#x27;");
        } else {
            push_char(out, c);
            assert(before.push(c) =~= before + seq![c]);
        }
        assert(cs@.take(i + 1).drop_last() =~= cs@.take(i as int));
        assert(out@ =~= old(out)@ + html_escape(cs@.take(i + 1)));
        i += 1;
    }
    assert(cs@.take(cs@.len() as int) =~= cs@);
}

/// `before`, then the escaped `value`, then `after`.
pub open spec fn tagged(before: Seq<char>, value: Seq<char>, after: Seq<char>) -> Seq<char> {
    before + html_escape(value) + after
}

/// `before`, then a number in decimal, then `after`.
pub open spec fn tagged_num(before: Seq<char>, n: nat, after: Seq<char>) -> Seq<char> {
    before + decimal(n) + after
}

/// A tagged value holds the escaped value, right after the text before it.
pub proof fn lemma_tagged_holds(before: Seq<char>, value: Seq<char>, after: Seq<char>)
    ensures
        has_substring(tagged(before, value, after), html_escape(value)),
        has_substring(tagged(before, value, after), before + html_escape(value)),
{
    lemma_prefix_substring(before + html_escape(value), after);
    lemma_substring_self(html_escape(value));
    lemma_substring_concat(before, html_escape(value), html_escape(value));
    lemma_substring_concat(before + html_escape(value), after, html_escape(value));
}

/// A tagged number holds its decimal form, right after the text before it.
pub proof fn lemma_tagged_num_holds(before: Seq<char>, n: nat, after: Seq<char>)
    ensures
        has_substring(tagged_num(before, n, after), decimal(n)),
        has_substring(tagged_num(before, n, after), before + decimal(n)),
{
    lemma_prefix_substring(before + decimal(n), after);
    lemma_substring_self(decimal(n));
    lemma_substring_concat(before, decimal(n), decimal(n));
    lemma_substring_concat(before + decimal(n), after, decimal(n));
}

/// Appends `before`, the escaped `value` and `after` to `out`.
pub fn push_tagged(out: &mut String, before: &str, value: &str, after: &str)
    ensures
        final(out)@ == old(out)@ + tagged(before@, value@, after@),
{
    push_str(out, before);
    push_escaped(out, value);
    push_str(out, after);
    assert(out@ =~= old(out)@ + tagged(before@, value@, after@));
}

/// Appends `before`, `n` in decimal and `after` to `out`.
pub fn push_tagged_num(out: &mut String, before: &str, n: u64, after: &str)
    ensures
        final(out)@ == old(out)@ + tagged_num(before@, n as nat, after@),
{
    push_str(out, before);
    push_decimal(out, n);
    push_str(out, after);
    assert(out@ =~= old(out)@ + tagged_num(before@, n as nat, after@));
}

/// The plain-text rendering of an HTML body used as the text alternative of
/// e-mails: `<br>` becomes a line break, `</p>` a blank line, `<li>` a
/// bullet and `</li>` a line break; everything else is kept.
pub open spec fn html_to_text(html: Seq<char>) -> Seq<char> {
    replace_all(
        replace_all(replace_all(replace_all(html, "<br>"@, "\n"@), "</p>"@, "\n\n"@), "<li>"@, "• "@),
        "</li>"@,
        "\n"@,
    )
}

/// Plain text from an HTML body (see `html_to_text`).
pub fn html_to_plain_text(html: &str) -> (res: String)
    ensures
        res@ == html_to_text(html@),
{
    proof {
        reveal_strlit("<br>");
        reveal_strlit("</p>");
        reveal_strlit("<li>");
        reveal_strlit("</li>");
    }
    let a = replace_str(html, "<br>", "\n");
    let b = replace_str(a.as_str(), "</p>", "\n\n");
    let c = replace_str(b.as_str(), "<li>", "• ");
    replace_str(c.as_str(), "</li>", "\n")
}

} // verus!
