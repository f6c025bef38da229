use vstd::prelude::*;

verus! {

/// An exact decimal scalar: the value `mant / 10^frac`.
///
/// Mesh files carry their coordinates as decimal literals; this type holds
/// such a literal exactly, with no rounding.  A numeric token carries at most
/// 18 digits, so the scaled mantissa always fits in `mant`.  Evaluation to a
/// machine float, when a renderer needs one, is the job of the unverified
/// shell around this crate.
#[derive(Clone, Copy, Debug, PartialEq, Eq, Structural)]
pub struct Scalar {
    /// The digits of the literal, with its sign, as one integer.
    pub mant: i64,
    /// How many of the digits of `mant` lie behind the decimal point.
    pub frac: u8,
}

impl Scalar {
    /// The scalar zero, as the parser's defaults use it.
    pub fn zero() -> (r: Scalar)
        ensures
            r == (Scalar { mant: 0, frac: 0 }),
    {
        Scalar { mant: 0, frac: 0 }
    }

    /// The scalar one, the default scale factor.
    pub fn one() -> (r: Scalar)
        ensures
            r == (Scalar { mant: 1, frac: 0 }),
    {
        Scalar { mant: 1, frac: 0 }
    }
}

/// ASCII decimal digit.
pub open spec fn is_digit(c: u8) -> bool {
    48 <= c && c <= 57
}

/// Space, tab or carriage return: what separates tokens on a mesh line.
pub open spec fn is_space(c: u8) -> bool {
    c == 32 || c == 9 || c == 13
}

pub open spec fn all_digits_in(s: Seq<u8>, from: int, to: int) -> bool {
    forall|j: int| from <= j < to ==> is_digit(#[trigger] s[j])
}

/// The value of the digit run `s[from..to]`, most significant digit first.
pub open spec fn digits_val_in(s: Seq<u8>, from: int, to: int) -> int
    decreases to - from,
{
    if to <= from {
        0
    } else {
        digits_val_in(s, from, to - 1) * 10 + (s[to - 1] - 48)
    }
}

pub open spec fn pow10(n: nat) -> int
    decreases n,
{
    if n == 0 {
        1
    } else {
        10 * pow10((n - 1) as nat)
    }
}

pub proof fn lemma_pow10_pos(n: nat)
    ensures
        0 < pow10(n),
    decreases n,
{
    if n > 0 {
        lemma_pow10_pos((n - 1) as nat);
    }
}

pub proof fn lemma_pow10_mono(m: nat, n: nat)
    requires
        m <= n,
    ensures
        0 < pow10(m) <= pow10(n),
    decreases n,
{
    lemma_pow10_pos(m);
    if m < n {
        lemma_pow10_mono(m, (n - 1) as nat);
    }
}

pub proof fn lemma_digits_val_bound(s: Seq<u8>, from: int, to: int)
    requires
        from <= to,
        all_digits_in(s, from, to),
    ensures
        0 <= digits_val_in(s, from, to) < pow10((to - from) as nat),
    decreases to - from,
{
    if to > from {
        lemma_digits_val_bound(s, from, to - 1);
    }
}

/// The first position in `[from, to)` holding byte `c`, or `to` if none does.
pub open spec fn find_in(s: Seq<u8>, from: int, to: int, c: u8) -> int
    decreases to - from,
{
    if from >= to {
        to
    } else if s[from] == c {
        from
    } else {
        find_in(s, from + 1, to, c)
    }
}

/// The first non-space position in `[from, to)`, or `to` if all are spaces.
pub open spec fn skip_spaces_in(s: Seq<u8>, from: int, to: int) -> int
    decreases to - from,
{
    if from >= to {
        to
    } else if is_space(s[from]) {
        skip_spaces_in(s, from + 1, to)
    } else {
        from
    }
}

/// The first space at or after `from`, or `to` if none: the end of the token
/// that starts at `from`.
pub open spec fn token_end_in(s: Seq<u8>, from: int, to: int) -> int
    decreases to - from,
{
    if from >= to {
        to
    } else if is_space(s[from]) {
        from
    } else {
        token_end_in(s, from + 1, to)
    }
}

/// An unsigned integer token: one to eighteen digits and nothing else.
pub open spec fn spec_parse_uint(s: Seq<u8>, from: int, to: int) -> Option<i64> {
    if from < to && to - from <= 18 && all_digits_in(s, from, to) {
        Some(digits_val_in(s, from, to) as i64)
    } else {
        None
    }
}

/// A decimal scalar token: an optional sign, one or more integer digits, and
/// optionally a point followed by one or more fraction digits; at most 18
/// digits in all.
pub open spec fn spec_parse_scalar(s: Seq<u8>, from: int, to: int) -> Option<Scalar> {
    if from >= to {
        None
    } else {
        let neg = s[from] == 45;
        let body = if s[from] == 45 || s[from] == 43 {
            from + 1
        } else {
            from
        };
        let dot = find_in(s, body, to, 46);
        if dot == to {
            match spec_parse_uint(s, body, to) {
                Option::None => Option::<Scalar>::None,
                Option::Some(v) => Option::Some(
                    Scalar { mant: (if neg { -(v as int) } else { v as int }) as i64, frac: 0 },
                ),
            }
        } else {
            if body < dot && dot + 1 < to && (dot - body) + (to - dot - 1) <= 18
                && all_digits_in(s, body, dot) && all_digits_in(s, dot + 1, to) {
                let v = digits_val_in(s, body, dot) * pow10((to - dot - 1) as nat) + digits_val_in(
                    s,
                    dot + 1,
                    to,
                );
                Option::Some(
                    Scalar {
                        mant: (if neg { -v } else { v }) as i64,
                        frac: (to - dot - 1) as u8,
                    },
                )
            } else {
                Option::<Scalar>::None
            }
        }
    }
}

/// Scans `[from, to)` of `s` for byte `c` and returns the position of its
/// first occurrence, or `to` when it does not occur.
pub fn find_byte(s: &[u8], from: usize, to: usize, c: u8) -> (r: usize)
    requires
        from <= to <= s@.len(),
    ensures
        r == find_in(s@, from as int, to as int, c),
        from <= r <= to,
{
    let mut i = from;
    while i < to
        invariant
            from <= i <= to <= s@.len(),
            find_in(s@, from as int, to as int, c) == find_in(s@, i as int, to as int, c),
        decreases to - i,
    {
        if s[i] == c {
            return i;
        }
        i = i + 1;
    }
    to
}

/// Returns the first non-space position in `[from, to)`, or `to`.
pub fn skip_spaces(s: &[u8], from: usize, to: usize) -> (r: usize)
    requires
        from <= to <= s@.len(),
    ensures
        r == skip_spaces_in(s@, from as int, to as int),
        from <= r <= to,
        r < to ==> !is_space(s@[r as int]),
{
    let mut i = from;
    while i < to
        invariant
            from <= i <= to <= s@.len(),
            skip_spaces_in(s@, from as int, to as int) == skip_spaces_in(s@, i as int, to as int),
        decreases to - i,
    {
        let c = s[i];
        if !(c == 32 || c == 9 || c == 13) {
            return i;
        }
        i = i + 1;
    }
    to
}

/// Returns the end of the token that starts at `from`: the first space at or
/// after `from`, or `to`.
pub fn token_end(s: &[u8], from: usize, to: usize) -> (r: usize)
    requires
        from <= to <= s@.len(),
    ensures
        r == token_end_in(s@, from as int, to as int),
        from <= r <= to,
        from < to && !is_space(s@[from as int]) ==> from < r,
{
    let mut i = from;
    while i < to
        invariant
            from <= i <= to <= s@.len(),
            token_end_in(s@, from as int, to as int) == token_end_in(s@, i as int, to as int),
        decreases to - i,
    {
        let c = s[i];
        if c == 32 || c == 9 || c == 13 {
            return i;
        }
        i = i + 1;
    }
    to
}

/// Parses the digit run `s[from..to]` as an unsigned integer.
pub fn parse_uint(s: &[u8], from: usize, to: usize) -> (r: Option<i64>)
    requires
        from <= to <= s@.len(),
    ensures
        r == spec_parse_uint(s@, from as int, to as int),
        r matches Some(v) ==> 0 <= v < 0x0DE0_B6B3_A764_0000,
{
    proof {
        assert(pow10(18) == 0x0DE0_B6B3_A764_0000) by {
            reveal_with_fuel(pow10, 19);
        }
    }
    if to - from == 0 || to - from > 18 {
        return None;
    }
    let mut acc: i64 = 0;
    let mut i = from;
    while i < to
        invariant
            from <= i <= to <= s@.len(),
            to - from <= 18,
            all_digits_in(s@, from as int, i as int),
            acc == digits_val_in(s@, from as int, i as int),
            pow10(18) == 0x0DE0_B6B3_A764_0000,
        decreases to - i,
    {
        let c = s[i];
        if c < 48 || c > 57 {
            proof {
                assert(!is_digit(s@[i as int]));
            }
            return None;
        }
        proof {
            lemma_digits_val_bound(s@, from as int, i as int);
            lemma_pow10_mono((i - from) as nat, 17);
            assert(pow10(17) == 0x016345785D8A0000) by {
                reveal_with_fuel(pow10, 19);
            }
        }
        acc = acc * 10 + ((c - 48) as i64);
        i = i + 1;
    }
    proof {
        lemma_digits_val_bound(s@, from as int, to as int);
        lemma_pow10_mono((to - from) as nat, 18);
    }
    Some(acc)
}

/// Returns `10^n` for `n` up to 18.
fn pow10_exec(n: usize) -> (r: i64)
    requires
        n <= 18,
    ensures
        r == pow10(n as nat),
        0 < r <= 0x0DE0_B6B3_A764_0000,
{
    proof {
        assert(pow10(18) == 0x0DE0_B6B3_A764_0000) by {
            reveal_with_fuel(pow10, 19);
        }
    }
    let mut r: i64 = 1;
    let mut i: usize = 0;
    while i < n
        invariant
            i <= n <= 18,
            r == pow10(i as nat),
            pow10(18) == 0x0DE0_B6B3_A764_0000,
        decreases n - i,
    {
        proof {
            lemma_pow10_mono(i as nat, 17);
            assert(pow10(17) == 0x016345785D8A0000) by {
                reveal_with_fuel(pow10, 19);
            }
        }
        r = r * 10;
        i = i + 1;
    }
    proof {
        lemma_pow10_mono(n as nat, 18);
    }
    r
}

/// Parses the token `s[from..to]` as a decimal scalar.
pub fn parse_scalar(s: &[u8], from: usize, to: usize) -> (r: Option<Scalar>)
    requires
        from <= to <= s@.len(),
    ensures
        r == spec_parse_scalar(s@, from as int, to as int),
{
    if from >= to {
        return None;
    }
    let c0 = s[from];
    let neg = c0 == 45;
    let body = if c0 == 45 || c0 == 43 {
        from + 1
    } else {
        from
    };
    let dot = find_byte(s, body, to, 46);
    if dot == to {
        match parse_uint(s, body, to) {
            None => None,
            Some(v) => Some(
                Scalar { mant: if neg { -v } else { v }, frac: 0 },
            ),
        }
    } else {
        let intlen = dot - body;
        let fraclen = to - dot - 1;
        if intlen == 0 || fraclen == 0 || intlen + fraclen > 18 {
            return None;
        }
        match parse_uint(s, body, dot) {
            None => None,
            Some(iv) => match parse_uint(s, dot + 1, to) {
                None => None,
                Some(fv) => {
                    proof {
                        lemma_digits_val_bound(s@, body as int, dot as int);
                        lemma_digits_val_bound(s@, dot as int + 1, to as int);
                        lemma_pow10_mono(intlen as nat, 18);
                        lemma_pow10_mono(fraclen as nat, 18);
                        let pi = pow10(intlen as nat);
                        let pf = pow10(fraclen as nat);
                        assert(iv * pf <= (pi - 1) * pf) by (nonlinear_arith)
                            requires
                                0 <= iv <= pi - 1,
                                0 < pf,
                        {
                        }
                        assert(0 <= iv * pf) by (nonlinear_arith)
                            requires
                                0 <= iv,
                                0 < pf,
                        {
                        }
                        assert(pi * pf == pow10((intlen + fraclen) as nat)) by {
                            lemma_pow10_add(intlen as nat, fraclen as nat);
                        }
                        lemma_pow10_mono((intlen + fraclen) as nat, 18);
                        assert(pow10(18) == 0x0DE0_B6B3_A764_0000) by {
                            reveal_with_fuel(pow10, 19);
                        }
                        assert((pi - 1) * pf == pi * pf - pf) by (nonlinear_arith);
                    }
                    let pf = pow10_exec(fraclen);
                    let mant_abs = iv * pf + fv;
                    Some(
                        Scalar {
                            mant: if neg { -mant_abs } else { mant_abs },
                            frac: fraclen as u8,
                        },
                    )
                },
            },
        }
    }
}

pub proof fn lemma_pow10_add(a: nat, b: nat)
    ensures
        pow10(a) * pow10(b) == pow10((a + b) as nat),
    decreases a,
{
    if a == 0 {
        assert(pow10(0) == 1);
        assert(1 * pow10(b) == pow10(b)) by (nonlinear_arith);
    } else {
        lemma_pow10_add((a - 1) as nat, b);
        assert(pow10(a) == 10 * pow10((a - 1) as nat));
        assert((10 * pow10((a - 1) as nat)) * pow10(b) == 10 * (pow10((a - 1) as nat) * pow10(b)))
            by (nonlinear_arith);
        assert(pow10((a + b) as nat) == 10 * pow10((a + b - 1) as nat));
    }
}

} // verus!
