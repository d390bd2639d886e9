//! Turning a comment's raw HTML body into displayable text.
//!
//! A comment body arrives as an HTML fragment. Its paragraph breaks are
//! first replaced by a plain-text marker so that they survive the
//! sanitizer, the fragment is then stripped of markup by the external
//! sanitizer, the markers are turned into line breaks, and the common
//! entity escapes are undone. A comment without a body is dead or removed
//! and gets a fixed placeholder instead.

use vstd::prelude::*;

use crate::errors::AppError;
use crate::items::HNComment;

use vstd::string::StrSliceExecFns;
use vstd::string::StringExecFns;

verus! {

/// `s` with every occurrence of `pat` replaced by `rep`, scanning left to
/// right and never rescanning replaced text. An empty pattern matches
/// nothing and leaves `s` unchanged.
pub open spec fn replace_spec(s: Seq<char>, pat: Seq<char>, rep: Seq<char>) -> Seq<char>
    decreases s.len(),
{
    if pat.len() == 0 || s.len() < pat.len() {
        s
    } else if s.take(pat.len() as int) == pat {
        rep + replace_spec(s.skip(pat.len() as int), pat, rep)
    } else {
        seq![s[0]] + replace_spec(s.skip(1), pat, rep)
    }
}

/// A comment body with its paragraph tags replaced by the plain-text
/// marker that carries them through the sanitizer.
pub open spec fn break_marked(t: Seq<char>) -> Seq<char> {
    replace_spec(t, "<p>"@, "@@NL@@"@)
}

/// Sanitized text with the paragraph markers turned into line breaks.
pub open spec fn breaks_restored(s: Seq<char>) -> Seq<char> {
    replace_spec(s, "@@NL@@"@, "\n"@)
}

/// Text with the common entity escapes undone, in the fixed order:
/// `&lt;`, then `&gt;`, then `&amp;`.
pub open spec fn unescaped(s: Seq<char>) -> Seq<char> {
    replace_spec(
        replace_spec(replace_spec(s, "&lt;"@, "<"@), "&gt;"@, ">"@),
        "&amp;"@,
        "&"@,
    )
}

/// What the external sanitizer, under its default rule set, returns for a
/// given input: a function of the input text alone.
pub uninterp spec fn sanitized_of(s: Seq<char>) -> Seq<char>;

/// The whole display pipeline of a comment body.
pub open spec fn displayed(t: Seq<char>) -> Seq<char> {
    unescaped(breaks_restored(sanitized_of(break_marked(t))))
}

/// Relies on `sanitize_html::sanitize_str` with that crate's `DEFAULT`
/// rule set: the result depends on the input string alone. A failure of
/// its HTML parser or serializer is surfaced as a decode error.
#[verifier::external_body]
fn sanitize_default(s: &str) -> (r: Result<String, AppError>)
    ensures
        r matches Ok(out) ==> out@ == sanitized_of(s@),
        r matches Err(e) ==> e == AppError::Decode,
{
    match sanitize_html::sanitize_str(&sanitize_html::rules::predefined::DEFAULT, s) {
        Ok(out) => Ok(out),
        Err(_) => Err(AppError::Decode),
    }
}

/// Whether `pat` occurs in `s` at position `i`.
#[verifier::loop_isolation(false)]
fn matches_at(s: &str, i: usize, pat: &str) -> (b: bool)
    requires
        i + pat@.len() <= s@.len(),
    ensures
        b <==> s@.subrange(i as int, i + pat@.len()) == pat@,
{
    let s_len = s.unicode_len();
    let plen = pat.unicode_len();
    let mut j: usize = 0;
    while j < plen
        invariant
            j <= plen,
            forall|j2: int| 0 <= j2 < j ==> s@[i + j2] == pat@[j2],
        decreases plen - j,
    {
        if s.get_char(i + j) != pat.get_char(j) {
            proof {
                assert(s@.subrange(i as int, i + pat@.len())[j as int] == s@[i + j]);
            }
            return false;
        }
        j = j + 1;
    }
    proof {
        assert(s@.subrange(i as int, i + pat@.len()) =~= pat@);
    }
    true
}

/// `s` with every occurrence of `pat` replaced by `rep`, scanning left to
/// right.
#[verifier::loop_isolation(false)]
pub fn replace_all(s: &str, pat: &str, rep: &str) -> (r: String)
    ensures
        r@ == replace_spec(s@, pat@, rep@),
{
    let s_len = s.unicode_len();
    let pat_len = pat.unicode_len();
    if pat_len == 0 {
        return s.to_owned();
    }
    let mut out = String::new();
    let mut i: usize = 0;
    proof {
        assert(s@.skip(0) =~= s@);
        assert(out@ + replace_spec(s@, pat@, rep@) =~= replace_spec(s@, pat@, rep@));
    }
    while i < s_len
        invariant
            i <= s_len,
            out@ + replace_spec(s@.skip(i as int), pat@, rep@) == replace_spec(s@, pat@, rep@),
        decreases s_len - i,
    {
        let ghost rest = s@.skip(i as int);
        let ghost whole = replace_spec(s@, pat@, rep@);
        let ghost out0 = out@;
        if pat_len <= s_len - i && matches_at(s, i, pat) {
            out.append(rep);
            proof {
                assert(rest.take(pat@.len() as int) =~= s@.subrange(i as int, i + pat@.len()));
                assert(rest.skip(pat@.len() as int) =~= s@.skip(i + pat_len));
                assert(replace_spec(rest, pat@, rep@) == rep@ + replace_spec(
                    s@.skip(i + pat_len),
                    pat@,
                    rep@,
                ));
                assert((out0 + rep@) + replace_spec(s@.skip(i + pat_len), pat@, rep@) =~= out0 + (
                rep@ + replace_spec(s@.skip(i + pat_len), pat@, rep@)));
            }
            i = i + pat_len;
        } else {
            let piece = s.substring_char(i, i + 1);
            out.append(piece);
            proof {
                assert(piece@ =~= seq![s@[i as int]]);
                if rest.len() >= pat@.len() {
                    assert(rest.take(pat@.len() as int) =~= s@.subrange(
                        i as int,
                        i + pat@.len(),
                    ));
                    assert(seq![rest[0]] =~= piece@);
                    assert(rest.skip(1) =~= s@.skip(i + 1));
                    assert(replace_spec(rest, pat@, rep@) == piece@ + replace_spec(
                        s@.skip(i + 1),
                        pat@,
                        rep@,
                    ));
                } else {
                    assert(replace_spec(rest, pat@, rep@) == rest);
                    assert(s@.skip(i + 1).len() < pat@.len());
                    assert(replace_spec(s@.skip(i + 1), pat@, rep@) == s@.skip(i + 1));
                    assert(rest =~= piece@ + s@.skip(i + 1));
                }
                assert((out0 + piece@) + replace_spec(s@.skip(i + 1), pat@, rep@) =~= out0 + (
                piece@ + replace_spec(s@.skip(i + 1), pat@, rep@)));
            }
            i = i + 1;
        }
    }
    proof {
        assert(s@.skip(s_len as int) =~= Seq::<char>::empty());
        assert(replace_spec(Seq::<char>::empty(), pat@, rep@) == Seq::<char>::empty());
        assert(out@ + Seq::<char>::empty() =~= out@);
    }
    out
}

/// The body, ready for the sanitizer: paragraph tags replaced by the
/// plain-text marker.
pub fn mark_breaks(t: &str) -> (r: String)
    ensures
        r@ == break_marked(t@),
{
    replace_all(t, "<p>", "@@NL@@")
}

/// What the display shows for a given sanitizer output: markers turned
/// into line breaks, entity escapes undone.
pub fn finish_comment_text(sanitized: &str) -> (r: String)
    ensures
        r@ == unescaped(breaks_restored(sanitized@)),
{
    let restored = replace_all(sanitized, "@@NL@@", "\n");
    let lt = replace_all(restored.as_str(), "&lt;", "<");
    let gt = replace_all(lt.as_str(), "&gt;", ">");
    replace_all(gt.as_str(), "&amp;", "&")
}

/// The text the display shows for a comment: the display pipeline of its
/// body, or a fixed placeholder when the comment is dead or removed. Fails
/// only when the external sanitizer does, with a decode error.
pub fn comment_display_text(c: &HNComment) -> (r: Result<String, AppError>)
    ensures
        match c.text {
            None => r matches Ok(s) && s@ == "Dead Comment"@,
            Some(t) => {
                &&& (r matches Ok(s) ==> s@ == displayed(t@))
                &&& (r matches Err(e) ==> e == AppError::Decode)
            },
        },
{
    match &c.text {
        None => Ok(String::from_str("Dead Comment")),
        Some(t) => {
            let marked = mark_breaks(t.as_str());
            match sanitize_default(marked.as_str()) {
                Ok(sanitized) => Ok(finish_comment_text(sanitized.as_str())),
                Err(e) => Err(e),
            }
        },
    }
}

} // verus!
