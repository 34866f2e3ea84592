//! Deriving a tab's file name, directory and script language from a full
//! path. The model is deliberately simple: `/` separates directories, the
//! file name is the text after the last separator, and the extension is
//! the text after the last dot of the file name, provided that dot is not
//! its first character. A `.js` extension selects JavaScript; any other
//! extension selects TypeScript.

use vstd::prelude::*;
use vstd::string::StrSliceExecFns;
use vstd::string::StringExecFns;

verus! {

/// The index of the last occurrence of `c` in `s`, or `-1` when `c` does
/// not occur.
pub open spec fn last_index_of(s: Seq<char>, c: char) -> int
    decreases s.len(),
{
    if s.len() == 0 {
        -1
    } else if s.last() == c {
        s.len() - 1
    } else {
        last_index_of(s.drop_last(), c)
    }
}

/// `last_index_of` is sound: it stays within bounds, points at `c`
/// whenever `c` occurs, and nothing after it is `c`.
pub proof fn lemma_last_index_of(s: Seq<char>, c: char)
    ensures
        -1 <= last_index_of(s, c) < s.len(),
        last_index_of(s, c) >= 0 ==> s[last_index_of(s, c)] == c,
        forall|m: int| last_index_of(s, c) < m < s.len() ==> s[m] != c,
    decreases s.len(),
{
    if s.len() > 0 && s.last() != c {
        lemma_last_index_of(s.drop_last(), c);
        assert forall|m: int| last_index_of(s, c) < m < s.len() implies s[m] != c by {
            if m < s.len() - 1 {
                assert(s.drop_last()[m] == s[m]);
            }
        }
    }
}

/// Finds the last occurrence of `c` in `s`.
pub fn find_last_char(s: &str, c: char) -> (r: Option<usize>)
    ensures
        match r {
            Some(k) => k == last_index_of(s@, c),
            None => last_index_of(s@, c) == -1,
        },
{
    let n: usize = s.unicode_len();
    let mut r: Option<usize> = None;
    let mut k: usize = 0;
    proof {
        assert(s@.take(0) =~= Seq::<char>::empty());
    }
    while k < n
        invariant
            k <= n,
            n == s@.len(),
            match r {
                Some(j) => j == last_index_of(s@.take(k as int), c),
                None => last_index_of(s@.take(k as int), c) == -1,
            },
        decreases n - k,
    {
        proof {
            assert(s@.take(k + 1).drop_last() =~= s@.take(k as int));
            assert(s@.take(k + 1).last() == s@[k as int]);
        }
        if s.get_char(k) == c {
            r = Some(k);
        }
        k = k + 1;
    }
    proof {
        assert(s@.take(n as int) =~= s@);
    }
    r
}

/// The file name part of a path: the text after the last separator, or
/// the whole path when it has none.
pub open spec fn file_name_of(p: Seq<char>) -> Seq<char> {
    p.skip(last_index_of(p, '/') + 1)
}

/// The directory part of a path: the text before the last separator, or
/// empty when it has none.
pub open spec fn dir_of(p: Seq<char>) -> Seq<char> {
    if last_index_of(p, '/') >= 0 {
        p.take(last_index_of(p, '/'))
    } else {
        Seq::empty()
    }
}

/// Whether the file name part of `p` carries an extension: a dot that is
/// not the file name's first character.
pub open spec fn path_parseable(p: Seq<char>) -> bool {
    last_index_of(file_name_of(p), '.') > 0
}

/// The extension of a path's file name: the text after its last dot.
pub open spec fn ext_of(p: Seq<char>) -> Seq<char> {
    file_name_of(p).skip(last_index_of(file_name_of(p), '.') + 1)
}

/// The script language a path selects: `javascript` for a `.js`
/// extension, `typescript` for any other.
pub open spec fn language_of(p: Seq<char>) -> Seq<char> {
    if ext_of(p) == "js"@ {
        "javascript"@
    } else {
        "typescript"@
    }
}

/// Whether two string slices hold the same characters.
pub fn str_eq(a: &str, b: &str) -> (r: bool)
    ensures
        r == (a@ == b@),
{
    let n: usize = a.unicode_len();
    if n != b.unicode_len() {
        return false;
    }
    let mut k: usize = 0;
    while k < n
        invariant
            k <= n,
            n == a@.len(),
            n == b@.len(),
            forall|m: int| 0 <= m < k ==> a@[m] == b@[m],
        decreases n - k,
    {
        if a.get_char(k) != b.get_char(k) {
            return false;
        }
        k = k + 1;
    }
    proof {
        assert(a@ =~= b@);
    }
    true
}

/// The file name, directory and script language derived from one path.
pub struct ParsedPath {
    /// The text before the last separator; empty when there is none.
    pub directory: String,
    /// The text after the last separator.
    pub file_name: String,
    /// `javascript` for a `.js` extension, `typescript` otherwise.
    pub script_language: String,
}

/// Splits a path into directory, file name and script language.
pub fn parse_file_path(p: &str) -> (r: ParsedPath)
    requires
        path_parseable(p@),
    ensures
        r.directory@ == dir_of(p@),
        r.file_name@ == file_name_of(p@),
        r.script_language@ == language_of(p@),
{
    let n: usize = p.unicode_len();
    proof {
        lemma_last_index_of(p@, '/');
    }
    let sep = find_last_char(p, '/');
    let name_start: usize = match sep {
        Some(k) => k + 1,
        None => 0,
    };
    let file_name = p.substring_char(name_start, n);
    let directory: String = match sep {
        Some(k) => String::from_str(p.substring_char(0, k)),
        None => String::new(),
    };
    proof {
        assert(file_name@ =~= file_name_of(p@));
        assert(directory@ =~= dir_of(p@));
        lemma_last_index_of(file_name@, '.');
    }
    let dot = find_last_char(file_name, '.');
    let ext_start: usize = match dot {
        Some(k) => k + 1,
        None => 0,
    };
    let name_len: usize = file_name.unicode_len();
    let ext = file_name.substring_char(ext_start, name_len);
    proof {
        assert(ext@ =~= ext_of(p@));
    }
    let script_language = if str_eq(ext, "js") {
        String::from_str("javascript")
    } else {
        String::from_str("typescript")
    };
    ParsedPath { directory, file_name: String::from_str(file_name), script_language }
}

} // verus!
