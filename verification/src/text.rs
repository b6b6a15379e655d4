//! Text building blocks shared by the gateway frames and REST payloads:
//! decimal numbers, JSON string literals and substring tests.
use vstd::prelude::*;
use vstd::string::*;

verus! {

/// The decimal digit `d` (for `d < 10`) as a character.
pub open spec fn digit_char(d: nat) -> char {
    "0123456789"@[d as int]
}

/// The lower-case hexadecimal digit `d` (for `d < 16`) as a character.
pub open spec fn hex_char(d: nat) -> char {
    "0123456789abcdef"@[d as int]
}

/// The shortest decimal representation of `n`, most significant digit first.
pub open spec fn decimal(n: nat) -> Seq<char>
    decreases n,
{
    if n < 10 {
        seq![digit_char(n)]
    } else {
        decimal(n / 10).push(digit_char(n % 10))
    }
}

/// How one character is written inside a JSON string literal: quote and
/// backslash are escaped, the control characters with a short escape use it,
/// the other control characters become `\u00XX`, everything else is itself.
pub open spec fn json_escape_char(c: char) -> Seq<char> {
    if c == '"' {
        seq!['\\', '"']
    } else if c == '\\' {
        seq!['\\', '\\']
    } else if c == '\u{8}' {
        seq!['\\', 'b']
    } else if c == '\u{c}' {
        seq!['\\', 'f']
    } else if c == '\n' {
        seq!['\\', 'n']
    } else if c == '\r' {
        seq!['\\', 'r']
    } else if c == '\t' {
        seq!['\\', 't']
    } else if (c as u32) < 0x20 {
        seq!['\\', 'u', '0', '0', hex_char((c as u32 / 16) as nat), hex_char((c as u32 % 16) as nat)]
    } else {
        seq![c]
    }
}

/// The escaped contents of a JSON string literal.
pub open spec fn json_escape(s: Seq<char>) -> Seq<char>
    decreases s.len(),
{
    if s.len() == 0 {
        Seq::empty()
    } else {
        json_escape(s.drop_last()) + json_escape_char(s.last())
    }
}

/// `s` written as a JSON string literal, quotes included.
pub open spec fn json_string(s: Seq<char>) -> Seq<char> {
    seq!['"'] + json_escape(s) + seq!['"']
}

/// `p` is a prefix of `s`.
pub open spec fn has_prefix(s: Seq<char>, p: Seq<char>) -> bool {
    p.len() <= s.len() && s.subrange(0, p.len() as int) == p
}

/// `p` is a suffix of `s`.
pub open spec fn has_suffix(s: Seq<char>, p: Seq<char>) -> bool {
    p.len() <= s.len() && s.subrange(s.len() - p.len(), s.len() as int) == p
}

/// `p` occurs in `s` at position `i`.
pub open spec fn occurs_at(s: Seq<char>, p: Seq<char>, i: int) -> bool {
    0 <= i && i + p.len() <= s.len() && s.subrange(i, i + p.len()) == p
}

/// `p` occurs somewhere in `s`.
pub open spec fn has_substring(s: Seq<char>, p: Seq<char>) -> bool {
    exists|i: int| occurs_at(s, p, i)
}

/// Appends the decimal representation of `n` to `out`.
pub fn push_decimal(out: &mut String, n: u64)
    ensures
        final(out)@ == old(out)@ + decimal(n as nat),
    decreases n,
{
    if n >= 10 {
        push_decimal(out, n / 10);
    }
    let d: u64 = n % 10;
    let digits: &str = "0123456789";
    proof {
        reveal_strlit("0123456789");
    }
    let piece: &str = digits.substring_char(d as usize, (d + 1) as usize);
    out.append(piece);
    proof {
        assert(piece@ =~= seq![digit_char(d as nat)]);
    }
}

/// The decimal representation of `n`.
pub fn decimal_string(n: u64) -> (r: String)
    ensures
        r@ == decimal(n as nat),
{
    let mut out = String::new();
    push_decimal(&mut out, n);
    assert(out@ =~= decimal(n as nat));
    out
}

/// The escape sequence (or the character itself) that stands for the
/// character at position `i` of `s` inside a JSON string literal.
fn push_escaped_char(out: &mut String, s: &str, i: usize)
    requires
        i < s@.len(),
        s@.len() <= usize::MAX,
    ensures
        final(out)@ == old(out)@ + json_escape_char(s@[i as int]),
{
    let c: char = s.get_char(i);
    if c == '"' {
        proof { reveal_strlit("\\\""); }
        out.append("\\\"");
    } else if c == '\\' {
        proof { reveal_strlit("\\\\"); }
        out.append("\\\\");
    } else if c == '\u{8}' {
        proof { reveal_strlit("\\b"); }
        out.append("\\b");
    } else if c == '\u{c}' {
        proof { reveal_strlit("\\f"); }
        out.append("\\f");
    } else if c == '\n' {
        proof { reveal_strlit("\\n"); }
        out.append("\\n");
    } else if c == '\r' {
        proof { reveal_strlit("\\r"); }
        out.append("\\r");
    } else if c == '\t' {
        proof { reveal_strlit("\\t"); }
        out.append("\\t");
    } else if (c as u32) < 0x20 {
        let code: u32 = c as u32;
        let hex: &str = "0123456789abcdef";
        proof {
            reveal_strlit("\\u00");
            reveal_strlit("0123456789abcdef");
        }
        out.append("\\u00");
        let hi: &str = hex.substring_char((code / 16) as usize, (code / 16 + 1) as usize);
        out.append(hi);
        let lo: &str = hex.substring_char((code % 16) as usize, (code % 16 + 1) as usize);
        out.append(lo);
        proof {
            assert(hi@ =~= seq![hex_char((code / 16) as nat)]);
            assert(lo@ =~= seq![hex_char((code % 16) as nat)]);
            assert(final(out)@ =~= old(out)@ + json_escape_char(c));
        }
    } else {
        let piece: &str = s.substring_char(i, i + 1);
        out.append(piece);
        proof {
            assert(piece@ =~= seq![c]);
        }
    }
}

/// Appends `s` written as a JSON string literal to `out`.
pub fn push_json_string(out: &mut String, s: &str)
    ensures
        final(out)@ == old(out)@ + json_string(s@),
{
    proof {
        reveal_strlit("\"");
    }
    let ghost start = out@;
    out.append("\"");
    let n: usize = s.unicode_len();
    let mut i: usize = 0;
    while i < n
        invariant
            n == s@.len(),
            i <= n,
            out@ == start + seq!['"'] + json_escape(s@.subrange(0, i as int)),
        decreases n - i,
    {
        push_escaped_char(out, s, i);
        proof {
            let t = s@.subrange(0, i + 1);
            assert(t.drop_last() =~= s@.subrange(0, i as int));
            assert(t.last() == s@[i as int]);
        }
        i = i + 1;
    }
    out.append("\"");
    proof {
        assert(s@.subrange(0, n as int) =~= s@);
        assert(out@ =~= start + json_string(s@));
    }
}

/// `s` written as a JSON string literal.
pub fn json_string_of(s: &str) -> (r: String)
    ensures
        r@ == json_string(s@),
{
    let mut out = String::new();
    push_json_string(&mut out, s);
    assert(out@ =~= json_string(s@));
    out
}

/// Whether the characters of `p` occur in `s` from position `at` on.
fn matches_at(s: &str, n: usize, p: &str, m: usize, at: usize) -> (r: bool)
    requires
        n == s@.len(),
        m == p@.len(),
        at + m <= n,
    ensures
        r == (s@.subrange(at as int, at + m) == p@),
{
    let mut j: usize = 0;
    while j < m
        invariant
            n == s@.len(),
            m == p@.len(),
            at + m <= n,
            j <= m,
            s@.subrange(at as int, at + j) == p@.subrange(0, j as int),
        decreases m - j,
    {
        if s.get_char(at + j) != p.get_char(j) {
            proof {
                assert(s@.subrange(at as int, at + m)[j as int] != p@[j as int]);
            }
            return false;
        }
        proof {
            assert(s@.subrange(at as int, at + j + 1) =~= p@.subrange(0, j + 1));
        }
        j = j + 1;
    }
    proof {
        assert(p@.subrange(0, m as int) =~= p@);
    }
    true
}

/// Whether `a` and `b` hold the same characters.
pub fn str_eq(a: &str, b: &str) -> (r: bool)
    ensures
        r == (a@ == b@),
{
    let n: usize = a.unicode_len();
    let m: usize = b.unicode_len();
    if n != m {
        return false;
    }
    let r = matches_at(a, n, b, m, 0);
    proof {
        assert(a@.subrange(0, n as int) =~= a@);
    }
    r
}

/// Whether `s` starts with `p` (as `str::starts_with`).
pub fn starts_with(s: &str, p: &str) -> (r: bool)
    ensures
        r == has_prefix(s@, p@),
{
    let n: usize = s.unicode_len();
    let m: usize = p.unicode_len();
    if m > n {
        return false;
    }
    matches_at(s, n, p, m, 0)
}

/// Whether `p` occurs in `s` (as `str::contains`).
pub fn contains(s: &str, p: &str) -> (r: bool)
    ensures
        r == has_substring(s@, p@),
{
    let n: usize = s.unicode_len();
    let m: usize = p.unicode_len();
    if m > n {
        proof {
            assert forall|i: int| !occurs_at(s@, p@, i) by {}
        }
        return false;
    }
    if m == 0 {
        assert(occurs_at(s@, p@, 0)) by {
            assert(s@.subrange(0, 0) =~= p@);
        }
        return true;
    }
    let mut at: usize = 0;
    while at <= n - m
        invariant
            n == s@.len(),
            m == p@.len(),
            1 <= m <= n,
            at <= n - m + 1,
            forall|i: int| 0 <= i < at ==> !occurs_at(s@, p@, i),
        decreases n + 1 - at,
    {
        if matches_at(s, n, p, m, at) {
            assert(occurs_at(s@, p@, at as int));
            return true;
        }
        at = at + 1;
    }
    proof {
        assert forall|i: int| !occurs_at(s@, p@, i) by {
            if 0 <= i && i + m <= n {
                assert(i < at);
            }
        }
    }
    false
}

} // verus!
