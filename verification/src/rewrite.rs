//! Textual rewriting of script source. The embedded engine's own console
//! is not observable by the host, so the three recognized console call
//! forms are rewritten to identifiers the host binds itself. This is a
//! plain textual substitution, not a parse: a script that spells the call
//! differently, or embeds the call text in a string literal or comment, is
//! not intercepted.

use vstd::prelude::*;
use vstd::string::StrSliceExecFns;
use vstd::string::StringExecFns;

verus! {

/// Whether `s` begins with `pat`.
pub open spec fn starts_with(s: Seq<char>, pat: Seq<char>) -> bool {
    pat.len() <= s.len() && s.subrange(0, pat.len() as int) == pat
}

/// `s` with every occurrence of `pat` replaced by `rep`, scanning left to
/// right and never re-scanning replaced text. An empty pattern replaces
/// nothing.
pub open spec fn replaced(s: Seq<char>, pat: Seq<char>, rep: Seq<char>) -> Seq<char>
    decreases s.len(),
{
    if pat.len() == 0 || s.len() == 0 {
        s
    } else if starts_with(s, pat) {
        rep + replaced(s.skip(pat.len() as int), pat, rep)
    } else {
        seq![s[0]] + replaced(s.skip(1), pat, rep)
    }
}

/// Whether `pat` occurs in `s` at position `i`.
fn matches_at(s: &str, i: usize, pat: &str) -> (r: bool)
    requires
        i <= s@.len(),
    ensures
        r == (i + pat@.len() <= s@.len() && s@.subrange(i as int, i + pat@.len()) == pat@),
{
    let n: usize = s.unicode_len();
    let patlen: usize = pat.unicode_len();
    if patlen > n - i {
        return false;
    }
    let mut j: usize = 0;
    while j < patlen
        invariant
            j <= patlen,
            i + patlen <= n,
            n == s@.len(),
            patlen == pat@.len(),
            forall|m: int| 0 <= m < j ==> s@[i + m] == pat@[m],
        decreases patlen - j,
    {
        if s.get_char(i + j) != pat.get_char(j) {
            proof {
                assert(s@.subrange(i as int, i + pat@.len())[j as int] != pat@[j as int]);
            }
            return false;
        }
        j = j + 1;
    }
    proof {
        assert(s@.subrange(i as int, i + pat@.len()) =~= pat@);
    }
    true
}

/// `s` with every occurrence of `pat` replaced by `rep`, scanning left to
/// right.
pub fn replace_all(s: &str, pat: &str, rep: &str) -> (r: String)
    requires
        pat@.len() >= 1,
    ensures
        r@ == replaced(s@, pat@, rep@),
{
    let n: usize = s.unicode_len();
    let patlen: usize = pat.unicode_len();
    let mut r: String = String::new();
    let mut i: usize = 0;
    proof {
        assert(s@.skip(0) =~= s@);
    }
    while i < n
        invariant
            i <= n,
            n == s@.len(),
            patlen == pat@.len(),
            pat@.len() >= 1,
            replaced(s@, pat@, rep@) == r@ + replaced(s@.skip(i as int), pat@, rep@),
        decreases n - i,
    {
        let ghost x = s@.skip(i as int);
        if matches_at(s, i, pat) {
            r.append(rep);
            proof {
                assert(x.subrange(0, patlen as int) =~= s@.subrange(i as int, i + patlen));
                assert(starts_with(x, pat@));
                assert(replaced(x, pat@, rep@) == rep@ + replaced(
                    x.skip(patlen as int),
                    pat@,
                    rep@,
                ));
                assert(x.skip(patlen as int) =~= s@.skip(i + patlen));
                assert(replaced(s@, pat@, rep@) == r@ + replaced(
                    s@.skip(i + patlen),
                    pat@,
                    rep@,
                ));
            }
            i = i + patlen;
        } else {
            let piece = s.substring_char(i, i + 1);
            r.append(piece);
            proof {
                if i + patlen <= n {
                    assert(x.subrange(0, patlen as int) =~= s@.subrange(
                        i as int,
                        i + patlen,
                    ));
                }
                assert(!starts_with(x, pat@));
                assert(replaced(x, pat@, rep@) == seq![x[0]] + replaced(x.skip(1), pat@, rep@));
                assert(piece@ =~= seq![x[0]]);
                assert(x.skip(1) =~= s@.skip(i + 1));
                assert(replaced(s@, pat@, rep@) == r@ + replaced(s@.skip(i + 1), pat@, rep@));
            }
            i = i + 1;
        }
    }
    proof {
        assert(s@.skip(n as int).len() == 0);
        assert(r@ + s@.skip(n as int) =~= r@);
    }
    r
}

/// The console rewrite applied to a source text: the three recognized
/// console call forms, replaced one after the other.
pub open spec fn console_rewritten(s: Seq<char>) -> Seq<char> {
    replaced(
        replaced(replaced(s, "console.log("@, "console_log("@), "console.warn("@, "console_warn("@),
        "console.error("@,
        "console_error("@,
    )
}

/// Rewrites the three recognized console call forms in `code` to the
/// identifiers the host binds to its own capture functions.
pub fn rewrite_console_calls(code: &str) -> (r: String)
    ensures
        r@ == console_rewritten(code@),
{
    proof {
        reveal_strlit("console.log(");
        reveal_strlit("console.warn(");
        reveal_strlit("console.error(");
    }
    let a = replace_all(code, "console.log(", "console_log(");
    let b = replace_all(a.as_str(), "console.warn(", "console_warn(");
    replace_all(b.as_str(), "console.error(", "console_error(")
}

/// Applies the console rewrite to every line of a per-line script
/// independently.
pub fn rewrite_lines(code: &Vec<String>) -> (r: Vec<String>)
    ensures
        r@.len() == code@.len(),
        forall|i: int| 0 <= i < code@.len() ==> r@[i]@ == console_rewritten(code@[i]@),
{
    let mut r: Vec<String> = Vec::new();
    let mut k: usize = 0;
    while k < code.len()
        invariant
            k <= code@.len(),
            r@.len() == k,
            forall|i: int| 0 <= i < k ==> r@[i]@ == console_rewritten(code@[i]@),
        decreases code@.len() - k,
    {
        let line = rewrite_console_calls(code[k].as_str());
        r.push(line);
        k = k + 1;
    }
    r
}

/// Whether `c` counts as blank space when a line is tested for being
/// skippable: the ASCII whitespace characters.
pub open spec fn is_blank_char(c: char) -> bool {
    c == ' ' || c == '\t' || c == '\r' || c == '\n' || c == '\u{b}' || c == '\u{c}'
}

/// Whether a line holds nothing but blank space.
pub open spec fn is_blank(s: Seq<char>) -> bool {
    forall|k: int| 0 <= k < s.len() ==> is_blank_char(s[k])
}

/// Whether `line` holds nothing but blank space; such a line is skipped by
/// per-line evaluation instead of being handed to the engine.
pub fn line_is_blank(line: &str) -> (r: bool)
    ensures
        r == is_blank(line@),
{
    let n: usize = line.unicode_len();
    let mut k: usize = 0;
    while k < n
        invariant
            k <= n,
            n == line@.len(),
            forall|m: int| 0 <= m < k ==> is_blank_char(line@[m]),
        decreases n - k,
    {
        let c = line.get_char(k);
        if !(c == ' ' || c == '\t' || c == '\r' || c == '\n' || c == '\u{b}' || c == '\u{c}') {
            return false;
        }
        k = k + 1;
    }
    true
}

} // verus!
