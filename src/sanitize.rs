use vstd::prelude::*;
use vstd::string::StrSliceExecFns;

verus! {

/// Identifier used when a name holds nothing that survives sanitizing.
pub open spec fn fallback_id() -> Seq<char> {
    seq!['a', 'e', 'o', 'n']
}

pub open spec fn is_upper(c: char) -> bool {
    'A' <= c && c <= 'Z'
}

pub open spec fn is_lower_or_digit(c: char) -> bool {
    ('a' <= c && c <= 'z') || ('0' <= c && c <= '9')
}

pub open spec fn is_alnum(c: char) -> bool {
    is_upper(c) || is_lower_or_digit(c)
}

/// Unicode White_Space, the set that `char::is_whitespace` tests for.
pub open spec fn is_whitespace(c: char) -> bool {
    let u = c as u32;
    (0x9 <= u && u <= 0xD) || u == 0x20 || u == 0x85 || u == 0xA0 || u == 0x1680 || (0x2000 <= u
        && u <= 0x200A) || u == 0x2028 || u == 0x2029 || u == 0x202F || u == 0x205F || u == 0x3000
}

pub open spec fn is_separator(c: char) -> bool {
    is_whitespace(c) || c == '_' || c == '-'
}

pub open spec fn lower(c: char) -> char {
    if is_upper(c) {
        ((c as u32) + 32) as char
    } else {
        c
    }
}

/// Lowercase ASCII letters and digits, with hyphens between groups of them.
pub open spec fn collapse(s: Seq<char>) -> Seq<char>
    decreases s.len(),
{
    if s.len() == 0 {
        Seq::empty()
    } else {
        let out = collapse(s.drop_last());
        let c = s.last();
        if is_alnum(c) {
            out.push(lower(c))
        } else if is_separator(c) {
            if out.len() > 0 && out.last() == '-' {
                out
            } else {
                out.push('-')
            }
        } else {
            out
        }
    }
}

/// Drops one hyphen at the front and one at the back, where there is one.
pub open spec fn strip_edges(s: Seq<char>) -> Seq<char> {
    let a = if s.len() > 0 && s[0] == '-' {
        s.drop_first()
    } else {
        s
    };
    if a.len() > 0 && a.last() == '-' {
        a.drop_last()
    } else {
        a
    }
}

/// The identifier that a display name sanitizes to.
pub open spec fn slug(name: Seq<char>) -> Seq<char> {
    let t = strip_edges(collapse(name));
    if t.len() == 0 {
        fallback_id()
    } else {
        t
    }
}

pub open spec fn no_double_hyphen(t: Seq<char>) -> bool {
    forall|i: int| 0 <= i < t.len() - 1 ==> !(#[trigger] t[i] == '-' && t[i + 1] == '-')
}

pub open spec fn slug_chars(t: Seq<char>) -> bool {
    forall|i: int| 0 <= i < t.len() ==> is_lower_or_digit(#[trigger] t[i]) || t[i] == '-'
}

/// A well-formed identifier: non-empty, lowercase letters, digits and single
/// hyphens, neither starting nor ending with a hyphen.
pub open spec fn is_slug(t: Seq<char>) -> bool {
    &&& t.len() > 0
    &&& slug_chars(t)
    &&& no_double_hyphen(t)
    &&& t[0] != '-'
    &&& t.last() != '-'
}

proof fn lemma_collapse_shape(s: Seq<char>)
    ensures
        slug_chars(collapse(s)),
        no_double_hyphen(collapse(s)),
    decreases s.len(),
{
    if s.len() > 0 {
        lemma_collapse_shape(s.drop_last());
    }
}

/// Whatever the input, the result is a well-formed identifier.
pub proof fn lemma_slug_well_formed(name: Seq<char>)
    ensures
        is_slug(slug(name)),
{
    let c = collapse(name);
    lemma_collapse_shape(name);
    let a = if c.len() > 0 && c[0] == '-' {
        c.drop_first()
    } else {
        c
    };
    assert(slug_chars(a));
    assert(no_double_hyphen(a));
    assert(a.len() > 0 ==> a[0] != '-') by {
        if c.len() > 0 && c[0] == '-' && a.len() > 0 {
            assert(a[0] == c[1]);
        }
    }
    let t = strip_edges(c);
    if t.len() > 0 {
        if a.last() == '-' {
            assert(t.last() == a[a.len() - 2]);
            assert(t[0] == a[0]);
        }
        assert(slug_chars(t));
        assert(no_double_hyphen(t));
    } else {
        assert(slug_chars(fallback_id()));
    }
}

proof fn lemma_collapse_separator_blind(a: Seq<char>, b: Seq<char>)
    requires
        a.len() == b.len(),
        forall|i: int| 0 <= i < a.len() ==> #[trigger] a[i] == b[i] || (is_separator(a[i]) && is_separator(b[i])),
    ensures
        collapse(a) == collapse(b),
    decreases a.len(),
{
    if a.len() > 0 {
        let (a0, b0) = (a.drop_last(), b.drop_last());
        assert forall|i: int| 0 <= i < a0.len() implies #[trigger] a0[i] == b0[i] || (is_separator(a0[i])
            && is_separator(b0[i])) by {
            assert(a0[i] == a[i] && b0[i] == b[i]);
        }
        lemma_collapse_separator_blind(a0, b0);
        assert(a.last() == a[a.len() - 1] && b.last() == b[b.len() - 1]);
    }
}

/// Which separator stands at a place does not matter: replacing whitespace,
/// underscores and hyphens by one another leaves the identifier unchanged.
pub proof fn lemma_separators_interchangeable(a: Seq<char>, b: Seq<char>)
    requires
        a.len() == b.len(),
        forall|i: int| 0 <= i < a.len() ==> #[trigger] a[i] == b[i] || (is_separator(a[i]) && is_separator(b[i])),
    ensures
        slug(a) == slug(b),
{
    lemma_collapse_separator_blind(a, b);
}

fn is_separator_exec(c: char) -> (r: bool)
    ensures
        r == is_separator(c),
{
    let u = c as u32;
    (0x9 <= u && u <= 0xD) || u == 0x20 || u == 0x85 || u == 0xA0 || u == 0x1680 || (0x2000 <= u
        && u <= 0x200A) || u == 0x2028 || u == 0x2029 || u == 0x202F || u == 0x205F || u == 0x3000
        || c == '_' || c == '-'
}

fn lower_exec(c: char) -> (r: char)
    ensures
        r == lower(c),
{
    if 'A' <= c && c <= 'Z' {
        ((c as u8) + 32) as char
    } else {
        c
    }
}

/// Relies on `String::push`, which appends one character at the end.
#[verifier::external_body]
pub(crate) fn push_char(s: &mut String, c: char)
    ensures
        final(s)@ == old(s)@.push(c),
{
    s.push(c);
}

/// Turns a display name into a stable lowercase identifier: ASCII letters and
/// digits are kept and lowercased, each run of whitespace, underscores and hyphens
/// becomes one hyphen, hyphens at either end are dropped, other characters are
/// skipped. A name with nothing left gives the fallback identifier.
pub fn to_desktop_entry_id(value: &str) -> (r: String)
    ensures
        r@ == slug(value@),
        is_slug(r@),
{
    proof {
        lemma_slug_well_formed(value@);
    }
    let n = value.unicode_len();
    let mut out: Vec<char> = Vec::new();
    let mut i: usize = 0;
    while i < n
        invariant
            n == value@.len(),
            i <= n,
            out@ == collapse(value@.subrange(0, i as int)),
        decreases n - i,
    {
        let ch = value.get_char(i);
        proof {
            let pre = value@.subrange(0, i as int + 1);
            assert(pre.drop_last() =~= value@.subrange(0, i as int));
            assert(pre.last() == ch);
        }
        if ('A' <= ch && ch <= 'Z') || ('a' <= ch && ch <= 'z') || ('0' <= ch && ch <= '9') {
            out.push(lower_exec(ch));
        } else if is_separator_exec(ch) {
            if out.len() == 0 || out[out.len() - 1] != '-' {
                out.push('-');
            }
        }
        i = i + 1;
    }
    assert(value@.subrange(0, n as int) =~= value@);
    let ghost c = out@;
    let mut lo: usize = 0;
    let mut hi: usize = out.len();
    if hi > 0 && out[0] == '-' {
        lo = 1;
    }
    let ghost a = c.subrange(lo as int, c.len() as int);
    assert(a =~= if c.len() > 0 && c[0] == '-' { c.drop_first() } else { c });
    if hi > lo && out[hi - 1] == '-' {
        hi = hi - 1;
    }
    assert(c.subrange(lo as int, hi as int) =~= strip_edges(c));
    if lo == hi {
        let r = String::from_str("aeon");
        proof {
            reveal_strlit("aeon");
            assert(r@ =~= fallback_id());
        }
        return r;
    }
    let mut r = String::new();
    let mut k: usize = lo;
    while k < hi
        invariant
            lo <= k <= hi,
            hi <= out@.len(),
            out@ == c,
            r@ == c.subrange(lo as int, k as int),
        decreases hi - k,
    {
        push_char(&mut r, out[k]);
        assert(c.subrange(lo as int, k + 1) =~= c.subrange(lo as int, k as int).push(c[k as int]));
        k = k + 1;
    }
    r
}

} // verus!
