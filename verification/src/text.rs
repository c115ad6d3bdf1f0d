//! Small verified string utilities: whitespace trimming and character
//! equality of string slices, stated over `Seq<char>` views.

use vstd::prelude::*;
use vstd::string::StrSliceExecFns;

verus! {

/// The Unicode `White_Space` code points: exactly the characters that
/// trimming removes from either end of a log line.
pub open spec fn is_space_char(c: char) -> bool {
    ||| c == ' '
    ||| c == '\t'
    ||| c == '\n'
    ||| c == '\u{000B}'
    ||| c == '\u{000C}'
    ||| c == '\r'
    ||| c == '\u{0085}'
    ||| c == '\u{00A0}'
    ||| c == '\u{1680}'
    ||| c == '\u{2000}'
    ||| c == '\u{2001}'
    ||| c == '\u{2002}'
    ||| c == '\u{2003}'
    ||| c == '\u{2004}'
    ||| c == '\u{2005}'
    ||| c == '\u{2006}'
    ||| c == '\u{2007}'
    ||| c == '\u{2008}'
    ||| c == '\u{2009}'
    ||| c == '\u{200A}'
    ||| c == '\u{2028}'
    ||| c == '\u{2029}'
    ||| c == '\u{202F}'
    ||| c == '\u{205F}'
    ||| c == '\u{3000}'
}

/// Executable test for `is_space_char`.
pub fn is_space(c: char) -> (r: bool)
    ensures
        r == is_space_char(c),
{
    match c {
        ' ' | '\t' | '\n' | '\u{000B}' | '\u{000C}' | '\r' | '\u{0085}' | '\u{00A0}'
        | '\u{1680}' | '\u{2000}' | '\u{2001}' | '\u{2002}' | '\u{2003}' | '\u{2004}'
        | '\u{2005}' | '\u{2006}' | '\u{2007}' | '\u{2008}' | '\u{2009}' | '\u{200A}'
        | '\u{2028}' | '\u{2029}' | '\u{202F}' | '\u{205F}' | '\u{3000}' => true,
        _ => false,
    }
}

/// The characters of `s` with leading whitespace removed.
pub open spec fn trim_front(s: Seq<char>) -> Seq<char>
    decreases s.len(),
{
    if s.len() > 0 && is_space_char(s[0]) {
        trim_front(s.drop_first())
    } else {
        s
    }
}

/// The characters of `s` with trailing whitespace removed.
pub open spec fn trim_back(s: Seq<char>) -> Seq<char>
    decreases s.len(),
{
    if s.len() > 0 && is_space_char(s.last()) {
        trim_back(s.drop_last())
    } else {
        s
    }
}

/// The characters of `s` with surrounding whitespace removed.
pub open spec fn trim_spec(s: Seq<char>) -> Seq<char> {
    trim_back(trim_front(s))
}

/// `trim_front` keeps exactly the suffix that starts at the first
/// non-whitespace character.
proof fn lemma_trim_front_at(s: Seq<char>, i: int)
    requires
        0 <= i <= s.len(),
        forall|j: int| 0 <= j < i ==> is_space_char(s[j]),
        i < s.len() ==> !is_space_char(s[i]),
    ensures
        trim_front(s) =~= s.subrange(i, s.len() as int),
    decreases i,
{
    if i == 0 {
        assert(s.subrange(0, s.len() as int) =~= s);
    } else {
        lemma_trim_front_at(s.drop_first(), i - 1);
        assert(s.drop_first().subrange(i - 1, s.drop_first().len() as int) =~= s.subrange(
            i,
            s.len() as int,
        ));
    }
}

/// `trim_back` keeps exactly the prefix that ends after the last
/// non-whitespace character.
proof fn lemma_trim_back_at(s: Seq<char>, i: int)
    requires
        0 <= i <= s.len(),
        forall|j: int| i <= j < s.len() ==> is_space_char(s[j]),
        i > 0 ==> !is_space_char(s[i - 1]),
    ensures
        trim_back(s) =~= s.subrange(0, i),
    decreases s.len() - i,
{
    if i == s.len() {
        assert(s.subrange(0, s.len() as int) =~= s);
    } else {
        lemma_trim_back_at(s.drop_last(), i);
        assert(s.drop_last().subrange(0, i) =~= s.subrange(0, i));
    }
}

/// `trim_back` keeps a prefix; everything after it is whitespace.
proof fn lemma_trim_back_prefix(s: Seq<char>)
    ensures
        exists|j: int|
            0 <= j <= s.len() && trim_back(s) =~= s.subrange(0, j) && (forall|k: int|
                j <= k < s.len() ==> is_space_char(s[k])),
    decreases s.len(),
{
    if s.len() > 0 && is_space_char(s.last()) {
        lemma_trim_back_prefix(s.drop_last());
        let j = choose|j: int|
            0 <= j <= s.drop_last().len() && trim_back(s.drop_last()) =~= s.drop_last().subrange(
                0,
                j,
            ) && (forall|k: int| j <= k < s.drop_last().len() ==> is_space_char(s.drop_last()[k]));
        assert(s.drop_last().subrange(0, j) =~= s.subrange(0, j));
        assert(forall|k: int| j <= k < s.len() ==> is_space_char(s[k])) by {
            assert(forall|k: int|
                j <= k < s.len() - 1 ==> s[k] == s.drop_last()[k] && is_space_char(
                    s.drop_last()[k],
                ));
        }
        assert(0 <= j <= s.len() && trim_back(s) =~= s.subrange(0, j) && (forall|k: int|
            j <= k < s.len() ==> is_space_char(s[k])));
    } else {
        let j = s.len() as int;
        assert(s.subrange(0, j) =~= s);
        assert(0 <= j <= s.len() && trim_back(s) =~= s.subrange(0, j) && (forall|k: int|
            j <= k < s.len() ==> is_space_char(s[k])));
    }
}

/// Trimming a string of nothing but whitespace leaves nothing.
pub proof fn lemma_trim_all_space(s: Seq<char>)
    requires
        forall|j: int| 0 <= j < s.len() ==> is_space_char(s[j]),
    ensures
        trim_spec(s).len() == 0,
{
    lemma_trim_front_at(s, s.len() as int);
    assert(trim_front(s) =~= Seq::<char>::empty());
}

/// Where a line begins with a non-whitespace character, trimming keeps
/// a non-empty prefix of the line, and drops only whitespace after it.
pub proof fn lemma_trim_nonspace_head(s: Seq<char>)
    requires
        s.len() > 0,
        !is_space_char(s[0]),
    ensures
        exists|j: int|
            0 < j <= s.len() && trim_spec(s) =~= s.subrange(0, j) && (forall|k: int|
                j <= k < s.len() ==> is_space_char(s[k])),
{
    assert(trim_front(s) == s);
    lemma_trim_back_prefix(s);
    let j = choose|j: int|
        0 <= j <= s.len() && trim_back(s) =~= s.subrange(0, j) && (forall|k: int|
            j <= k < s.len() ==> is_space_char(s[k]));
    if j == 0 {
        assert(is_space_char(s[0]));
    }
    assert(0 < j <= s.len() && trim_spec(s) =~= s.subrange(0, j) && (forall|k: int|
        j <= k < s.len() ==> is_space_char(s[k])));
}

/// Exact equality of two string slices, by characters.
pub fn str_eq(a: &str, b: &str) -> (r: bool)
    ensures
        r == (a@ == b@),
{
    let na = a.unicode_len();
    let nb = b.unicode_len();
    if na != nb {
        return false;
    }
    let mut i: usize = 0;
    while i < na
        invariant
            0 <= i <= na,
            na == a@.len(),
            na == b@.len(),
            forall|j: int| 0 <= j < i ==> a@[j] == b@[j],
        decreases na - i,
    {
        if a.get_char(i) != b.get_char(i) {
            return false;
        }
        i += 1;
    }
    proof {
        assert(a@ =~= b@);
    }
    true
}

/// Remove surrounding whitespace, as `str::trim` does.
pub fn trim(s: &str) -> (r: String)
    ensures
        r@ == trim_spec(s@),
{
    let n = s.unicode_len();
    let mut start: usize = 0;
    while start < n && is_space(s.get_char(start))
        invariant
            0 <= start <= n,
            n == s@.len(),
            forall|j: int| 0 <= j < start ==> is_space_char(s@[j]),
        decreases n - start,
    {
        start += 1;
    }
    let mut end: usize = n;
    while end > start && is_space(s.get_char(end - 1))
        invariant
            start <= end <= n,
            n == s@.len(),
            forall|j: int| end <= j < n ==> is_space_char(s@[j]),
        decreases end,
    {
        end -= 1;
    }
    let t = s.substring_char(start, end);
    proof {
        lemma_trim_front_at(s@, start as int);
        let sub = s@.subrange(start as int, n as int);
        lemma_trim_back_at(sub, end - start);
        assert(sub.subrange(0, end - start) =~= s@.subrange(start as int, end as int));
    }
    t.to_owned()
}

} // verus!
