//! Plain-text building blocks: decimal rendering of integers and JSON string
//! escaping, each proved against a direct specification.

use vstd::prelude::*;

verus! {

/// The character for one decimal digit value.
pub open spec fn digit_char(d: nat) -> char {
    if d == 0 {
        '0'
    } else if d == 1 {
        '1'
    } else if d == 2 {
        '2'
    } else if d == 3 {
        '3'
    } else if d == 4 {
        '4'
    } else if d == 5 {
        '5'
    } else if d == 6 {
        '6'
    } else if d == 7 {
        '7'
    } else if d == 8 {
        '8'
    } else {
        '9'
    }
}

/// Decimal digits of `n`, most significant first, no leading zeros
/// (a single `'0'` for zero).
pub open spec fn dec_spec(n: nat) -> Seq<char>
    decreases n,
{
    if n < 10 {
        seq![digit_char(n)]
    } else {
        dec_spec(n / 10).push(digit_char(n % 10))
    }
}

fn digit_str(d: u64) -> (r: &'static str)
    requires
        d < 10,
    ensures
        r@ =~= seq![digit_char(d as nat)],
{
    if d == 0 {
        proof {
            reveal_strlit("0");
        }
        "0"
    } else if d == 1 {
        proof {
            reveal_strlit("1");
        }
        "1"
    } else if d == 2 {
        proof {
            reveal_strlit("2");
        }
        "2"
    } else if d == 3 {
        proof {
            reveal_strlit("3");
        }
        "3"
    } else if d == 4 {
        proof {
            reveal_strlit("4");
        }
        "4"
    } else if d == 5 {
        proof {
            reveal_strlit("5");
        }
        "5"
    } else if d == 6 {
        proof {
            reveal_strlit("6");
        }
        "6"
    } else if d == 7 {
        proof {
            reveal_strlit("7");
        }
        "7"
    } else if d == 8 {
        proof {
            reveal_strlit("8");
        }
        "8"
    } else {
        proof {
            reveal_strlit("9");
        }
        "9"
    }
}

/// The character for one hexadecimal digit value, lower case.
pub open spec fn hex_char(d: nat) -> char {
    if d < 10 {
        digit_char(d)
    } else if d == 10 {
        'a'
    } else if d == 11 {
        'b'
    } else if d == 12 {
        'c'
    } else if d == 13 {
        'd'
    } else if d == 14 {
        'e'
    } else {
        'f'
    }
}

fn hex_str(d: u32) -> (r: &'static str)
    requires
        d < 16,
    ensures
        r@ =~= seq![hex_char(d as nat)],
{
    if d < 10 {
        digit_str(d as u64)
    } else if d == 10 {
        proof {
            reveal_strlit("a");
        }
        "a"
    } else if d == 11 {
        proof {
            reveal_strlit("b");
        }
        "b"
    } else if d == 12 {
        proof {
            reveal_strlit("c");
        }
        "c"
    } else if d == 13 {
        proof {
            reveal_strlit("d");
        }
        "d"
    } else if d == 14 {
        proof {
            reveal_strlit("e");
        }
        "e"
    } else {
        proof {
            reveal_strlit("f");
        }
        "f"
    }
}

/// Relies on `str`'s `PartialEq`: text slices are equal exactly when their
/// characters are.
#[verifier::external_body]
pub fn str_eq(a: &str, b: &str) -> (r: bool)
    ensures
        r == (a@ == b@),
{
    a == b
}

/// Relies on `String::push`: appends one character.
#[verifier::external_body]
pub fn push_char(s: &mut String, c: char)
    ensures
        final(s)@ == old(s)@ + seq![c],
{
    s.push(c);
}

/// How one character is written inside a JSON string literal.
pub open spec fn esc_char(c: char) -> Seq<char> {
    if c == '"' {
        seq!['\\', '"']
    } else if c == '\\' {
        seq!['\\', '\\']
    } else if c == '\n' {
        seq!['\\', 'n']
    } else if c == '\r' {
        seq!['\\', 'r']
    } else if c == '\t' {
        seq!['\\', 't']
    } else if (c as u32) < 32 {
        seq!['\\', 'u', '0', '0', hex_char(((c as u32) / 16) as nat), hex_char(
            ((c as u32) % 16) as nat,
        )]
    } else {
        seq![c]
    }
}

/// The body of a JSON string literal that denotes the text `s`.
pub open spec fn json_escape(s: Seq<char>) -> Seq<char>
    decreases s.len(),
{
    if s.len() == 0 {
        Seq::empty()
    } else {
        esc_char(s[0]) + json_escape(s.subrange(1, s.len() as int))
    }
}

proof fn lemma_json_escape_push(s: Seq<char>, c: char)
    ensures
        json_escape(s.push(c)) == json_escape(s) + esc_char(c),
    decreases s.len(),
{
    if s.len() == 0 {
        let p = s.push(c);
        assert(p[0] == c);
        assert(p.subrange(1, p.len() as int) =~= Seq::<char>::empty());
        assert(json_escape(p.subrange(1, p.len() as int)) =~= Seq::<char>::empty());
        assert(json_escape(p) =~= esc_char(c));
        assert(json_escape(s) =~= Seq::<char>::empty());
        assert(json_escape(s.push(c)) =~= json_escape(s) + esc_char(c));
    } else {
        let t = s.subrange(1, s.len() as int);
        lemma_json_escape_push(t, c);
        assert(s.push(c)[0] == s[0]);
        assert(s.push(c).subrange(1, s.push(c).len() as int) =~= t.push(c));
        assert(json_escape(s.push(c)) == esc_char(s[0]) + (json_escape(t) + esc_char(c)));
        assert(esc_char(s[0]) + (json_escape(t) + esc_char(c)) =~= (esc_char(s[0]) + json_escape(
            t,
        )) + esc_char(c));
    }
}

/// Append the escaped form of one character to `out`.
fn append_escaped_char(out: &mut String, c: char)
    ensures
        final(out)@ == old(out)@ + esc_char(c),
{
    if c == '"' {
        proof {
            reveal_strlit("\\\"");
        }
        out.append("\\\"");
        assert(out@ =~= old(out)@ + esc_char(c));
    } else if c == '\\' {
        proof {
            reveal_strlit("\\\\");
        }
        out.append("\\\\");
        assert(out@ =~= old(out)@ + esc_char(c));
    } else if c == '\n' {
        proof {
            reveal_strlit("\\n");
        }
        out.append("\\n");
        assert(out@ =~= old(out)@ + esc_char(c));
    } else if c == '\r' {
        proof {
            reveal_strlit("\\r");
        }
        out.append("\\r");
        assert(out@ =~= old(out)@ + esc_char(c));
    } else if c == '\t' {
        proof {
            reveal_strlit("\\t");
        }
        out.append("\\t");
        assert(out@ =~= old(out)@ + esc_char(c));
    } else if (c as u32) < 32 {
        proof {
            reveal_strlit("\\u00");
        }
        out.append("\\u00");
        let u: u32 = c as u32;
        out.append(hex_str(u / 16));
        out.append(hex_str(u % 16));
        assert(out@ =~= old(out)@ + esc_char(c));
    } else {
        push_char(out, c);
        assert(out@ =~= old(out)@ + esc_char(c));
    }
}

/// The escaped (JSON string literal body) form of `s`.
pub fn json_escape_str(s: &str) -> (r: String)
    ensures
        r@ == json_escape(s@),
{
    let n = s.unicode_len();
    let mut out = String::new();
    let mut i: usize = 0;
    while i < n
        invariant
            n == s@.len(),
            i <= n,
            out@ == json_escape(s@.subrange(0, i as int)),
        decreases n - i,
    {
        let c = s.get_char(i);
        append_escaped_char(&mut out, c);
        proof {
            let p = s@.subrange(0, i as int);
            lemma_json_escape_push(p, s@[i as int]);
            assert(s@.subrange(0, (i + 1) as int) =~= p.push(s@[i as int]));
        }
        i = i + 1;
    }
    proof {
        assert(s@.subrange(0, n as int) =~= s@);
    }
    out
}

/// `s` without its longest prefix of characters satisfying `p`.
pub open spec fn strip_front(s: Seq<char>, p: spec_fn(char) -> bool) -> Seq<char>
    decreases s.len(),
{
    if s.len() > 0 && p(s[0]) {
        strip_front(s.drop_first(), p)
    } else {
        s
    }
}

/// `s` without its longest suffix of characters satisfying `p`.
pub open spec fn strip_back(s: Seq<char>, p: spec_fn(char) -> bool) -> Seq<char>
    decreases s.len(),
{
    if s.len() > 0 && p(s[s.len() - 1]) {
        strip_back(s.drop_last(), p)
    } else {
        s
    }
}

/// `s` without leading and trailing characters satisfying `p`.
pub open spec fn trim_by(s: Seq<char>, p: spec_fn(char) -> bool) -> Seq<char> {
    strip_back(strip_front(s, p), p)
}

pub open spec fn is_nul_char(c: char) -> bool {
    c == '\u{0}'
}

pub open spec fn is_space_char(c: char) -> bool {
    c == ' ' || c == '\t' || c == '\n' || c == '\r' || c == '\u{b}' || c == '\u{c}'
}

/// A decrypted token as the flow uses it: stripped of surrounding NUL
/// padding, then of surrounding whitespace.
pub open spec fn token_trim_spec(s: Seq<char>) -> Seq<char> {
    trim_by(trim_by(s, |c: char| is_nul_char(c)), |c: char| is_space_char(c))
}

proof fn lemma_strip_front_subrange(s: Seq<char>, p: spec_fn(char) -> bool, k: int)
    requires
        0 <= k <= s.len(),
        forall|i: int| 0 <= i < k ==> p(s[i]),
        k < s.len() ==> !p(s[k]),
    ensures
        strip_front(s, p) == s.subrange(k, s.len() as int),
    decreases k,
{
    if k == 0 {
        assert(s.subrange(0, s.len() as int) =~= s);
    } else {
        let t = s.drop_first();
        assert(forall|i: int| 0 <= i < k - 1 ==> p(#[trigger] t[i]));
        lemma_strip_front_subrange(t, p, k - 1);
        assert(t.subrange(k - 1, t.len() as int) =~= s.subrange(k, s.len() as int));
    }
}

proof fn lemma_strip_back_subrange(s: Seq<char>, p: spec_fn(char) -> bool, k: int)
    requires
        0 <= k <= s.len(),
        forall|i: int| k <= i < s.len() ==> p(s[i]),
        k > 0 ==> !p(s[k - 1]),
    ensures
        strip_back(s, p) == s.subrange(0, k),
    decreases s.len() - k,
{
    if k == s.len() {
        assert(s.subrange(0, k) =~= s);
        if s.len() > 0 && p(s[s.len() - 1]) {
            let t = s.drop_last();
            lemma_strip_back_subrange(t, p, t.len() as int);
            assert(t.subrange(0, t.len() as int) =~= s.subrange(0, k - 1));
            assert(false);
        }
    } else {
        let t = s.drop_last();
        if k < s.len() {
            assert(p(s[s.len() - 1]));
            assert(forall|i: int| k <= i < t.len() ==> p(#[trigger] t[i]));
            lemma_strip_back_subrange(t, p, k);
            assert(t.subrange(0, k) =~= s.subrange(0, k));
        }
    }
}

fn is_nul_exec(c: char) -> (r: bool)
    ensures
        r == is_nul_char(c),
{
    c == '\u{0}'
}

fn is_space_exec(c: char) -> (r: bool)
    ensures
        r == is_space_char(c),
{
    c == ' ' || c == '\t' || c == '\n' || c == '\r' || c == '\u{b}' || c == '\u{c}'
}

/// Strip surrounding NUL padding, then surrounding whitespace.
pub fn trim_token_text(s: &str) -> (r: String)
    ensures
        r@ == token_trim_spec(s@),
{
    let n = s.unicode_len();
    let mut a: usize = 0;
    let mut b: usize = n;
    while a < b && is_nul_exec(s.get_char(a))
        invariant
            0 <= a <= b <= n,
            n == s@.len(),
            forall|i: int| 0 <= i < a ==> is_nul_char(#[trigger] s@[i]),
        decreases b - a,
    {
        a = a + 1;
    }
    while b > a && is_nul_exec(s.get_char(b - 1))
        invariant
            0 <= a <= b <= n,
            n == s@.len(),
            forall|i: int| 0 <= i < a ==> is_nul_char(#[trigger] s@[i]),
            a < b ==> !is_nul_char(s@[a as int]),
            forall|i: int| b <= i < n ==> is_nul_char(#[trigger] s@[i]),
        decreases b,
    {
        b = b - 1;
    }
    let ghost nul_p: spec_fn(char) -> bool = |c: char| is_nul_char(c);
    let ghost s0: Seq<char> = s@;
    let ghost t1: Seq<char> = s0.subrange(a as int, b as int);
    proof {
        lemma_strip_front_subrange(s0, nul_p, a as int);
        let f = s0.subrange(a as int, s0.len() as int);
        lemma_strip_back_subrange(f, nul_p, (b - a) as int);
        assert(f.subrange(0, (b - a) as int) =~= t1);
        assert(trim_by(s0, nul_p) == t1);
    }
    let mut a2: usize = a;
    let mut b2: usize = b;
    while a2 < b2 && is_space_exec(s.get_char(a2))
        invariant
            a <= a2 <= b2 <= b <= n,
            n == s@.len(),
            forall|i: int| a <= i < a2 ==> is_space_char(#[trigger] s@[i]),
        decreases b2 - a2,
    {
        a2 = a2 + 1;
    }
    while b2 > a2 && is_space_exec(s.get_char(b2 - 1))
        invariant
            a <= a2 <= b2 <= b <= n,
            n == s@.len(),
            forall|i: int| a <= i < a2 ==> is_space_char(#[trigger] s@[i]),
            a2 < b2 ==> !is_space_char(s@[a2 as int]),
            forall|i: int| b2 <= i < b ==> is_space_char(#[trigger] s@[i]),
        decreases b2,
    {
        b2 = b2 - 1;
    }
    let ghost sp_p: spec_fn(char) -> bool = |c: char| is_space_char(c);
    proof {
        assert(forall|i: int| 0 <= i < a2 - a ==> is_space_char(#[trigger] t1[i]));
        assert((a2 - a) < t1.len() ==> !is_space_char(t1[a2 - a as int]));
        lemma_strip_front_subrange(t1, sp_p, (a2 - a) as int);
        let f2 = t1.subrange((a2 - a) as int, t1.len() as int);
        assert(forall|i: int| (b2 - a2) <= i < f2.len() ==> is_space_char(#[trigger] f2[i]));
        assert((b2 - a2) > 0 ==> !is_space_char(f2[(b2 - a2 - 1) as int]));
        lemma_strip_back_subrange(f2, sp_p, (b2 - a2) as int);
        assert(f2.subrange(0, (b2 - a2) as int) =~= s@.subrange(a2 as int, b2 as int));
        assert(token_trim_spec(s@) == s@.subrange(a2 as int, b2 as int));
    }
    String::from_str(s.substring_char(a2, b2))
}

/// Strip surrounding whitespace only.
pub fn trim_spaces(s: &str) -> (r: String)
    ensures
        r@ == trim_by(s@, |c: char| is_space_char(c)),
{
    let n = s.unicode_len();
    let mut a: usize = 0;
    let mut b: usize = n;
    while a < b && is_space_exec(s.get_char(a))
        invariant
            0 <= a <= b <= n,
            n == s@.len(),
            forall|i: int| 0 <= i < a ==> is_space_char(#[trigger] s@[i]),
        decreases b - a,
    {
        a = a + 1;
    }
    while b > a && is_space_exec(s.get_char(b - 1))
        invariant
            0 <= a <= b <= n,
            n == s@.len(),
            forall|i: int| 0 <= i < a ==> is_space_char(#[trigger] s@[i]),
            a < b ==> !is_space_char(s@[a as int]),
            forall|i: int| b <= i < n ==> is_space_char(#[trigger] s@[i]),
        decreases b,
    {
        b = b - 1;
    }
    let ghost sp_p: spec_fn(char) -> bool = |c: char| is_space_char(c);
    proof {
        lemma_strip_front_subrange(s@, sp_p, a as int);
        let f = s@.subrange(a as int, s@.len() as int);
        lemma_strip_back_subrange(f, sp_p, (b - a) as int);
        assert(f.subrange(0, (b - a) as int) =~= s@.subrange(a as int, b as int));
    }
    String::from_str(s.substring_char(a, b))
}

/// Render `n` in decimal.
pub fn u64_to_dec(n: u64) -> (r: String)
    ensures
        r@ == dec_spec(n as nat),
    decreases n,
{
    if n < 10 {
        String::from_str(digit_str(n))
    } else {
        let mut s = u64_to_dec(n / 10);
        s.append(digit_str(n % 10));
        proof {
            assert(s@ =~= dec_spec((n / 10) as nat).push(digit_char((n % 10) as nat)));
        }
        s
    }
}

} // verus!
