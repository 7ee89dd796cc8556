//! Verified string utilities: equality, decimal rendering of integers,
//! parsing of unsigned 16-bit port numbers, and whitespace tokenizing.

use vstd::prelude::*;

verus! {

/// Exact string equality, stated over the character views.
pub fn str_eq(a: &str, b: &str) -> (r: bool)
    ensures
        r == (a@ == b@),
{
    let sa: String = a.to_owned();
    let sb: String = b.to_owned();
    sa == sb
}

/// An elementwise copy of a byte list.
pub fn clone_bytes(v: &Vec<u8>) -> (r: Vec<u8>)
    ensures
        r@ == v@,
{
    let n = v.len();
    let mut r: Vec<u8> = Vec::new();
    let mut i: usize = 0;
    while i < n
        invariant
            0 <= i <= n,
            n == v@.len(),
            r@.len() == i,
            forall|k: int| 0 <= k < i ==> r@[k] == v@[k],
        decreases n - i,
    {
        r.push(v[i]);
        i += 1;
    }
    proof {
        assert(r@ =~= v@);
    }
    r
}

/// An elementwise copy of a list of strings.
pub fn clone_strings(v: &Vec<String>) -> (r: Vec<String>)
    ensures
        r@ == v@,
{
    let n = v.len();
    let mut r: Vec<String> = Vec::new();
    let mut i: usize = 0;
    while i < n
        invariant
            0 <= i <= n,
            n == v@.len(),
            r@.len() == i,
            forall|k: int| 0 <= k < i ==> r@[k] == v@[k],
        decreases n - i,
    {
        r.push(v[i].clone());
        i += 1;
    }
    proof {
        assert(r@ =~= v@);
    }
    r
}

/// The character for one decimal digit.
pub open spec fn digit_char(d: int) -> char {
    if d == 0 {
        '0'
    } else if d == 1 {
        '1'
    } else if d == 2 {
        '2'
    } else if d == 3 {
        '3'
    } else if d == 4 {
        '4'
    } else if d == 5 {
        '5'
    } else if d == 6 {
        '6'
    } else if d == 7 {
        '7'
    } else if d == 8 {
        '8'
    } else {
        '9'
    }
}

/// The decimal digit string of a natural number, most significant first.
pub open spec fn dec_nat(n: nat) -> Seq<char>
    decreases n,
{
    if n < 10 {
        seq![digit_char(n as int)]
    } else {
        dec_nat(n / 10) + seq![digit_char((n % 10) as int)]
    }
}

/// The decimal string of a signed integer: a minus sign for negatives,
/// then the digits of the magnitude.
pub open spec fn dec_int(i: int) -> Seq<char> {
    if i < 0 {
        seq!['-'] + dec_nat((-i) as nat)
    } else {
        dec_nat(i as nat)
    }
}

fn digit_to_char(d: u64) -> (c: char)
    requires
        d < 10,
    ensures
        c == digit_char(d as int),
{
    if d == 0 {
        '0'
    } else if d == 1 {
        '1'
    } else if d == 2 {
        '2'
    } else if d == 3 {
        '3'
    } else if d == 4 {
        '4'
    } else if d == 5 {
        '5'
    } else if d == 6 {
        '6'
    } else if d == 7 {
        '7'
    } else if d == 8 {
        '8'
    } else {
        '9'
    }
}

/// Relies on `String::push`: appends exactly the given character.
#[verifier::external_body]
pub fn push_char(s: &mut String, c: char)
    ensures
        final(s)@ == old(s)@.push(c),
{
    s.push(c);
}

fn u64_digits(n: u64) -> (d: Vec<char>)
    ensures
        d@ == dec_nat(n as nat),
{
    let mut d: Vec<char> = Vec::new();
    let mut m: u64 = n;
    while m >= 10
        invariant
            dec_nat(n as nat) == dec_nat(m as nat) + d@,
        decreases m,
    {
        let c = digit_to_char(m % 10);
        d.insert(0, c);
        m = m / 10;
    }
    let c = digit_to_char(m);
    d.insert(0, c);
    proof {
        assert(dec_nat(m as nat) == seq![digit_char(m as int)]);
        assert(d@ == dec_nat(n as nat));
    }
    d
}

fn chars_to_string(d: &Vec<char>) -> (s: String)
    ensures
        s@ == d@,
{
    let mut s = String::new();
    let n = d.len();
    let mut i: usize = 0;
    while i < n
        invariant
            0 <= i <= n,
            n == d@.len(),
            s@ == d@.subrange(0, i as int),
        decreases n - i,
    {
        push_char(&mut s, d[i]);
        proof {
            assert(s@ =~= d@.subrange(0, i + 1 as int));
        }
        i += 1;
    }
    proof {
        assert(s@ =~= d@);
    }
    s
}

/// The decimal rendering of a signed 64-bit integer.
pub fn i64_to_string(i: i64) -> (s: String)
    ensures
        s@ == dec_int(i as int),
{
    if i >= 0 {
        let d = u64_digits(i as u64);
        chars_to_string(&d)
    } else {
        // The magnitude of i64::MIN does not fit in i64, so step through
        // i + 1 before negating.
        let m: u64 = ((-(i + 1)) as u64) + 1;
        proof {
            assert(m as int == -(i as int));
        }
        let d = u64_digits(m);
        let mut s = String::new();
        push_char(&mut s, '-');
        let tail = chars_to_string(&d);
        s.append(tail.as_str());
        proof {
            assert(s@ =~= dec_int(i as int));
        }
        s
    }
}

/// Whether every character of `s` is a decimal digit.
pub open spec fn all_digits(s: Seq<char>) -> bool {
    forall|i: int| 0 <= i < s.len() ==> 48 <= #[trigger] s[i] as int <= 57
}

/// The numeric value of a digit string, most significant first.
pub open spec fn dec_val(s: Seq<char>) -> int
    decreases s.len(),
{
    if s.len() == 0 {
        0
    } else {
        dec_val(s.drop_last()) * 10 + (s.last() as int - 48)
    }
}

/// The digit part of a port string: a single leading `+` is accepted.
pub open spec fn digits_part(s: Seq<char>) -> Seq<char> {
    if s.len() > 0 && s[0] == '+' {
        s.subrange(1, s.len() as int)
    } else {
        s
    }
}

/// What parsing an unsigned 16-bit number from a string yields: the value
/// of the digits when the string is nonempty, all digits after an optional
/// leading `+`, and the value fits; nothing otherwise.
pub open spec fn parse_u16_spec(s: Seq<char>) -> Option<u16> {
    let d = digits_part(s);
    if d.len() == 0 || !all_digits(d) || dec_val(d) > 65535 {
        None
    } else {
        Some(dec_val(d) as u16)
    }
}

proof fn lemma_dec_val_nonneg(s: Seq<char>)
    requires
        all_digits(s),
    ensures
        dec_val(s) >= 0,
    decreases s.len(),
{
    if s.len() > 0 {
        assert(all_digits(s.drop_last()));
        lemma_dec_val_nonneg(s.drop_last());
    }
}

proof fn lemma_dec_val_prefix(s: Seq<char>, i: int)
    requires
        all_digits(s),
        0 <= i <= s.len(),
    ensures
        dec_val(s.subrange(0, i)) <= dec_val(s),
    decreases s.len() - i,
{
    if i == s.len() {
        assert(s.subrange(0, i) =~= s);
    } else {
        lemma_dec_val_prefix(s, i + 1);
        let p = s.subrange(0, i + 1);
        assert(p.drop_last() =~= s.subrange(0, i));
        assert(all_digits(s.subrange(0, i)));
        lemma_dec_val_nonneg(s.subrange(0, i));
        assert(dec_val(p) == dec_val(s.subrange(0, i)) * 10 + (p.last() as int - 48));
        assert(dec_val(s.subrange(0, i)) <= dec_val(s.subrange(0, i)) * 10 + (p.last() as int
            - 48)) by (nonlinear_arith)
            requires
                dec_val(s.subrange(0, i)) >= 0,
                48 <= p.last() as int,
        ;
    }
}

/// Parsing a port number: `parse_u16_spec` made executable.
pub fn parse_u16(s: &str) -> (r: Option<u16>)
    ensures
        r == parse_u16_spec(s@),
{
    let n = s.unicode_len();
    let mut i: usize = 0;
    if n > 0 && s.get_char(0) == '+' {
        i = 1;
    }
    let ghost d = digits_part(s@);
    proof {
        assert(d =~= s@.subrange(i as int, n as int));
    }
    if i == n {
        return None;
    }
    let mut acc: u32 = 0;
    let mut j: usize = i;
    while j < n
        invariant
            i <= j <= n,
            n == s@.len(),
            d == digits_part(s@),
            d =~= s@.subrange(i as int, n as int),
            all_digits(s@.subrange(i as int, j as int)),
            acc as int == dec_val(s@.subrange(i as int, j as int)),
            acc <= 65535,
        decreases n - j,
    {
        let c = s.get_char(j);
        let u = c as u32;
        if u < 48 || u > 57 {
            proof {
                assert(d[j - i] == s@[j as int]);
                assert(s@[j as int] as int == u as int);
                assert(!(48 <= d[j - i] as int <= 57));
                assert(!all_digits(d));
            }
            return None;
        }
        let next: u32 = acc * 10 + (u - 48);
        proof {
            let p = s@.subrange(i as int, j + 1 as int);
            assert(p.drop_last() =~= s@.subrange(i as int, j as int));
            assert(p.last() == s@[j as int]);
            assert(s@[j as int] as int == u as int);
            assert(dec_val(p) == acc as int * 10 + (u as int - 48));
            assert(dec_val(p) == next as int);
        }
        if next > 65535 {
            proof {
                let p = s@.subrange(i as int, j + 1 as int);
                if all_digits(d) {
                    assert(p =~= d.subrange(0, j + 1 - i));
                    lemma_dec_val_prefix(d, j + 1 - i);
                    assert(dec_val(d.subrange(0, j + 1 - i)) <= dec_val(d));
                    assert(dec_val(d) > 65535);
                }
            }
            return None;
        }
        acc = next;
        j += 1;
    }
    proof {
        assert(s@.subrange(i as int, j as int) =~= d);
    }
    Some(acc as u16)
}

/// Whitespace as the tokenizer sees it.
pub open spec fn is_space(c: char) -> bool {
    c == ' ' || c == '\t' || c == '\n' || c == '\r'
}

/// The first position at or after `i` that does not hold whitespace.
pub open spec fn skip_spaces(s: Seq<char>, i: int) -> int
    decreases s.len() - i,
{
    if i < 0 || i >= s.len() || !is_space(s[i]) {
        i
    } else {
        skip_spaces(s, i + 1)
    }
}

/// The first position at or after `i` that holds whitespace (or the end).
pub open spec fn skip_token(s: Seq<char>, i: int) -> int
    decreases s.len() - i,
{
    if i < 0 || i >= s.len() || is_space(s[i]) {
        i
    } else {
        skip_token(s, i + 1)
    }
}

/// The second whitespace-separated token of `s`, if `s` has two.
pub open spec fn second_token(s: Seq<char>) -> Option<Seq<char>> {
    let a = skip_spaces(s, 0);
    let b = skip_token(s, a);
    let c = skip_spaces(s, b);
    let d = skip_token(s, c);
    if c < d {
        Some(s.subrange(c, d))
    } else {
        None
    }
}

fn is_space_exec(c: char) -> (r: bool)
    ensures
        r == is_space(c),
{
    c == ' ' || c == '\t' || c == '\n' || c == '\r'
}

fn skip_spaces_exec(s: &str, n: usize, from: usize) -> (j: usize)
    requires
        n == s@.len(),
        from <= n,
    ensures
        from <= j <= n,
        j as int == skip_spaces(s@, from as int),
    decreases n - from,
{
    let mut j = from;
    while j < n
        invariant
            from <= j <= n,
            n == s@.len(),
            skip_spaces(s@, from as int) == skip_spaces(s@, j as int),
        decreases n - j,
    {
        let c = s.get_char(j);
        if !is_space_exec(c) {
            return j;
        }
        j += 1;
    }
    j
}

fn skip_token_exec(s: &str, n: usize, from: usize) -> (j: usize)
    requires
        n == s@.len(),
        from <= n,
    ensures
        from <= j <= n,
        j as int == skip_token(s@, from as int),
    decreases n - from,
{
    let mut j = from;
    while j < n
        invariant
            from <= j <= n,
            n == s@.len(),
            skip_token(s@, from as int) == skip_token(s@, j as int),
        decreases n - j,
    {
        let c = s.get_char(j);
        if is_space_exec(c) {
            return j;
        }
        j += 1;
    }
    j
}

/// The second whitespace-separated token: `second_token` made executable.
pub fn second_token_of(s: &str) -> (r: Option<String>)
    ensures
        r matches Some(t) ==> second_token(s@) == Some(t@),
        r is None ==> second_token(s@) is None,
{
    let n = s.unicode_len();
    let a = skip_spaces_exec(s, n, 0);
    let b = skip_token_exec(s, n, a);
    let c = skip_spaces_exec(s, n, b);
    let d = skip_token_exec(s, n, c);
    if c < d {
        let mut out = String::new();
        let mut k = c;
        while k < d
            invariant
                c <= k <= d <= n,
                n == s@.len(),
                out@ == s@.subrange(c as int, k as int),
            decreases d - k,
        {
            let ch = s.get_char(k);
            push_char(&mut out, ch);
            proof {
                assert(out@ =~= s@.subrange(c as int, k + 1 as int));
            }
            k += 1;
        }
        Some(out)
    } else {
        None
    }
}

} // verus!
