//! Reversible base-62 codec over the alphabet `[0-9A-Za-z]`.
//!
//! Resource identifiers travel on the wire as base-62 strings that decode to
//! 64-bit unsigned integers. `encode` renders the canonical (shortest)
//! representation; `decode` accepts any string over the alphabet, rejecting
//! empty input, foreign characters and values that do not fit in a `u64`.

use vstd::arithmetic::div_mod::{lemma_fundamental_div_mod, lemma_fundamental_div_mod_converse};
use vstd::arithmetic::mul::lemma_mul_inequality;
use vstd::prelude::*;

use crate::text::chars_string;

verus! {

/// Why a base-62 string failed to decode.
#[derive(Clone, Copy, Debug, PartialEq, Eq)]
pub enum DecodeError {
    /// The input held no characters at all.
    EmptyInput,
    /// The given character lies outside `[0-9A-Za-z]`.
    InvalidCharacter(char),
    /// The decoded magnitude does not fit in the 64-bit working width.
    ArithmeticOverflow,
}

/// Value of one alphabet character; 62 marks a character outside the alphabet.
pub open spec fn digit_value(c: char) -> nat {
    let u = c as u32;
    if 48 <= u && u <= 57 {
        (u - 48) as nat
    } else if 65 <= u && u <= 90 {
        (u - 55) as nat
    } else if 97 <= u && u <= 122 {
        (u - 61) as nat
    } else {
        62
    }
}

/// Whether `c` belongs to the base-62 alphabet.
pub open spec fn is_base62_char(c: char) -> bool {
    digit_value(c) < 62
}

/// Whether every character of `s` belongs to the alphabet.
pub open spec fn all_base62(s: Seq<char>) -> bool {
    forall|i: int| 0 <= i < s.len() ==> is_base62_char(s[i])
}

/// The alphabet character for digit value `v`.
pub open spec fn digit_char(v: nat) -> char
    recommends
        v < 62,
{
    if v < 10 {
        ((48 + v) as u8) as char
    } else if v < 36 {
        ((55 + v) as u8) as char
    } else {
        ((61 + v) as u8) as char
    }
}

/// Each digit value below 62 is recovered from its alphabet character.
proof fn lemma_digit_roundtrip(v: nat)
    requires
        v < 62,
    ensures
        digit_value(digit_char(v)) == v,
{
}

/// On the alphabet, `digit_char` inverts `digit_value`.
proof fn lemma_digit_char_inverse(c: char)
    requires
        is_base62_char(c),
    ensures
        digit_char(digit_value(c)) == c,
{
    let u = c as u32;
    let w = digit_char(digit_value(c));
    assert(w as u32 == u);
    vstd::utf8::char_u32_cast(w, u);
    vstd::utf8::char_u32_cast(c, u);
}

/// Canonical base-62 rendering of `n`: most significant digit first, no
/// leading zeros, and `0` itself rendered as a single digit.
pub open spec fn spec_encode(n: nat) -> Seq<char>
    decreases n,
{
    if n < 62 {
        seq![digit_char(n)]
    } else {
        spec_encode(n / 62) + seq![digit_char(n % 62)]
    }
}

/// Numeric value of a digit string (most significant first), assuming every
/// character is in the alphabet.
pub open spec fn spec_value(s: Seq<char>) -> nat
    decreases s.len(),
{
    if s.len() == 0 {
        0
    } else {
        spec_value(s.drop_last()) * 62 + digit_value(s.last())
    }
}

/// Index of the first character outside the alphabet.
pub open spec fn first_invalid(s: Seq<char>) -> int
    decreases s.len(),
{
    if s.len() == 0 {
        0
    } else if !is_base62_char(s[0]) {
        0
    } else {
        1 + first_invalid(s.drop_first())
    }
}

/// What `decode` returns for any input: empty input and foreign characters
/// are rejected first, then a value over `u64::MAX` overflows, and otherwise
/// the numeric value is returned.
pub open spec fn spec_decode(s: Seq<char>) -> Result<u64, DecodeError> {
    if s.len() == 0 {
        Err(DecodeError::EmptyInput)
    } else if !all_base62(s) {
        Err(DecodeError::InvalidCharacter(s[first_invalid(s)]))
    } else if spec_value(s) > u64::MAX {
        Err(DecodeError::ArithmeticOverflow)
    } else {
        Ok(spec_value(s) as u64)
    }
}

/// Number of leading `'0'` characters.
pub open spec fn leading_zeros(s: Seq<char>) -> int
    decreases s.len(),
{
    if s.len() == 0 {
        0
    } else if s[0] != '0' {
        0
    } else {
        1 + leading_zeros(s.drop_first())
    }
}

/// `s` with leading zeros removed; the all-zero string collapses to `"0"`.
pub open spec fn canonical(s: Seq<char>) -> Seq<char> {
    let t = s.skip(leading_zeros(s));
    if t.len() == 0 {
        seq!['0']
    } else {
        t
    }
}

/// 62 raised to the power `k`.
pub open spec fn pow62(k: nat) -> nat
    decreases k,
{
    if k == 0 {
        1nat
    } else {
        62 * pow62((k - 1) as nat)
    }
}

fn digit_char_exec(v: u8) -> (c: char)
    requires
        v < 62,
    ensures
        c == digit_char(v as nat),
{
    let b: u8 = if v < 10 {
        48 + v
    } else if v < 36 {
        55 + v
    } else {
        61 + v
    };
    b as char
}

fn digit_value_exec(c: char) -> (v: u8)
    ensures
        v as nat == digit_value(c),
{
    let u = c as u32;
    if 48 <= u && u <= 57 {
        (u - 48) as u8
    } else if 65 <= u && u <= 90 {
        (u - 55) as u8
    } else if 97 <= u && u <= 122 {
        (u - 61) as u8
    } else {
        62
    }
}

fn encode_digits(n: u64, out: &mut Vec<char>)
    ensures
        final(out)@ == old(out)@ + spec_encode(n as nat),
    decreases n,
{
    if n < 62 {
        out.push(digit_char_exec(n as u8));
    } else {
        encode_digits(n / 62, out);
        out.push(digit_char_exec((n % 62) as u8));
        proof {
            assert(out@ =~= old(out)@ + spec_encode(n as nat));
        }
    }
}

/// Renders `n` as its canonical base-62 string.
pub fn encode(n: u64) -> (r: String)
    ensures
        r@ == spec_encode(n as nat),
{
    let mut v: Vec<char> = Vec::new();
    encode_digits(n, &mut v);
    proof {
        assert(v@ =~= spec_encode(n as nat));
    }
    chars_string(v)
}

proof fn lemma_first_invalid_at(s: Seq<char>, i: int)
    requires
        0 <= i < s.len(),
        !is_base62_char(s[i]),
        forall|j: int| 0 <= j < i ==> is_base62_char(s[j]),
    ensures
        first_invalid(s) == i,
        !all_base62(s),
    decreases i,
{
    if i > 0 {
        lemma_first_invalid_at(s.drop_first(), i - 1);
    }
}

proof fn lemma_value_step(s: Seq<char>, i: int)
    requires
        0 <= i < s.len(),
    ensures
        spec_value(s.take(i + 1)) == spec_value(s.take(i)) * 62 + digit_value(s[i]),
{
    let t = s.take(i + 1);
    assert(t.drop_last() =~= s.take(i));
    assert(t.last() == s[i]);
}

/// The value of a concatenation: the left part is shifted by one alphabet
/// power per right-hand character.
proof fn lemma_value_append(t: Seq<char>, u: Seq<char>)
    ensures
        spec_value(t + u) == spec_value(t) * pow62(u.len()) + spec_value(u),
    decreases u.len(),
{
    if u.len() == 0 {
        assert(t + u =~= t);
        assert(pow62(0) == 1);
        assert(spec_value(u) == 0);
        assert(spec_value(t) * 1 == spec_value(t)) by (nonlinear_arith);
    } else {
        let u0 = u.drop_last();
        lemma_value_append(t, u0);
        assert((t + u).drop_last() =~= t + u0);
        assert((t + u).last() == u.last());
        let vt = spec_value(t);
        let p0 = pow62(u0.len());
        let d = digit_value(u.last());
        assert(spec_value(t + u) == spec_value(t + u0) * 62 + d);
        assert(spec_value(t + u0) == vt * p0 + spec_value(u0));
        assert((vt * p0 + spec_value(u0)) * 62 + d == vt * (p0 * 62) + (spec_value(u0) * 62
            + d)) by (nonlinear_arith);
        assert(spec_value(u) == spec_value(u0) * 62 + d);
        assert(pow62(u.len()) == 62 * p0);
        assert(vt * (p0 * 62) == vt * pow62(u.len()));
    }
}

/// Every canonical rendering is non-empty, uses only alphabet characters, and
/// decodes back to the number it came from.
pub proof fn lemma_encode_value(n: nat)
    ensures
        spec_encode(n).len() >= 1,
        all_base62(spec_encode(n)),
        spec_value(spec_encode(n)) == n,
        n >= 62 ==> spec_encode(n).len() >= 2,
    decreases n,
{
    if n < 62 {
        let e = spec_encode(n);
        lemma_digit_roundtrip(n);
        assert(e.len() == 1);
        assert(e.drop_last() =~= Seq::<char>::empty());
        assert(e.last() == digit_char(n));
        assert(spec_value(e) == spec_value(e.drop_last()) * 62 + digit_value(e.last()));
    } else {
        lemma_encode_value(n / 62);
        let e0 = spec_encode(n / 62);
        let c = digit_char(n % 62);
        lemma_digit_roundtrip(n % 62);
        let e = e0 + seq![c];
        assert(spec_encode(n) == e);
        lemma_value_append(e0, seq![c]);
        assert(spec_value(seq![c]) == digit_value(c)) by {
            let sc = seq![c];
            assert(sc.len() == 1);
            assert(sc.drop_last() =~= Seq::<char>::empty());
            assert(sc.last() == c);
            assert(spec_value(sc) == spec_value(sc.drop_last()) * 62 + digit_value(sc.last()));
        }
        assert(pow62(1) == 62) by {
            assert(pow62(0) == 1);
        }
        lemma_fundamental_div_mod(n as int, 62);
        assert forall|i: int| 0 <= i < e.len() implies is_base62_char(e[i]) by {
            if i < e0.len() {
                assert(e[i] == e0[i]);
            } else {
                assert(e[i] == c);
            }
        }
    }
}

/// Law: decoding inverts encoding for every representable number.
pub proof fn lemma_decode_inverts_encode(n: u64)
    ensures
        spec_decode(spec_encode(n as nat)) == Ok::<u64, DecodeError>(n),
{
    lemma_encode_value(n as nat);
}

proof fn lemma_value_positive(t: Seq<char>)
    requires
        t.len() >= 1,
        digit_value(t[0]) > 0,
    ensures
        spec_value(t) >= 1,
    decreases t.len(),
{
    if t.len() == 1 {
    } else {
        lemma_value_positive(t.drop_last());
        assert(spec_value(t.drop_last()) * 62 >= 1 * 62) by (nonlinear_arith)
            requires
                spec_value(t.drop_last()) >= 1,
        ;
    }
}

proof fn lemma_encode_of_value(t: Seq<char>)
    requires
        t.len() >= 1,
        all_base62(t),
        digit_value(t[0]) != 0,
    ensures
        spec_encode(spec_value(t)) == t,
    decreases t.len(),
{
    if t.len() == 1 {
        assert(spec_value(t) == spec_value(t.drop_last()) * 62 + digit_value(t.last()));
        assert(t.drop_last() =~= Seq::<char>::empty());
        assert(spec_value(t) == digit_value(t[0]));
        lemma_digit_char_inverse(t[0]);
        assert(spec_encode(spec_value(t)) =~= t);
    } else {
        let t0 = t.drop_last();
        let c = t.last();
        let d = digit_value(c);
        assert(t0[0] == t[0]);
        assert(is_base62_char(c));
        lemma_encode_of_value(t0);
        lemma_value_positive(t0);
        let v0 = spec_value(t0);
        let v = spec_value(t);
        assert(v == v0 * 62 + d);
        lemma_mul_inequality(1, v0 as int, 62);
        assert(v >= 62);
        lemma_fundamental_div_mod_converse(v as int, 62, v0 as int, d as int);
        assert(spec_encode(v) == spec_encode(v0) + seq![digit_char(d)]);
        lemma_digit_char_inverse(c);
        assert(digit_char(d) == c);
        assert(t0 + seq![c] =~= t);
    }
}

proof fn lemma_leading_zeros_facts(s: Seq<char>)
    ensures
        0 <= leading_zeros(s) <= s.len(),
        forall|j: int| 0 <= j < leading_zeros(s) ==> s[j] == '0',
        leading_zeros(s) < s.len() ==> s[leading_zeros(s)] != '0',
    decreases s.len(),
{
    if s.len() > 0 && s[0] == '0' {
        lemma_leading_zeros_facts(s.drop_first());
        assert forall|j: int| 0 <= j < leading_zeros(s) implies s[j] == '0' by {
            if j > 0 {
                assert(s.drop_first()[j - 1] == s[j]);
            }
        }
    }
}

proof fn lemma_value_all_zero(z: Seq<char>)
    requires
        forall|j: int| 0 <= j < z.len() ==> z[j] == '0',
    ensures
        spec_value(z) == 0,
    decreases z.len(),
{
    if z.len() > 0 {
        lemma_value_all_zero(z.drop_last());
    }
}

/// Law: re-encoding a decoded string yields its canonical form; strings that
/// differ only in leading zeros normalize to the same rendering.
pub proof fn lemma_encode_of_decode_canonical(s: Seq<char>)
    requires
        s.len() >= 1,
        all_base62(s),
        spec_value(s) <= u64::MAX,
    ensures
        spec_decode(s) == Ok::<u64, DecodeError>(spec_value(s) as u64),
        spec_encode(spec_value(s)) == canonical(s),
{
    let k = leading_zeros(s);
    lemma_leading_zeros_facts(s);
    let z = s.take(k);
    let t = s.skip(k);
    assert(z + t =~= s);
    lemma_value_all_zero(z);
    lemma_value_append(z, t);
    if t.len() == 0 {
        assert(spec_value(s) == 0);
        assert(spec_encode(0) =~= seq!['0']);
    } else {
        assert(t[0] == s[k]);
        assert(t[0] != '0');
        assert(is_base62_char(t[0]));
        assert(digit_value(t[0]) != 0) by {
            if digit_value(t[0]) == 0 {
                assert(t[0] as u32 == 48);
                assert('0' as u32 == 48);
                vstd::utf8::char_u32_cast(t[0], 48);
                vstd::utf8::char_u32_cast('0', 48);
            }
        }
        lemma_encode_of_value(t);
    }
}

/// Law: a string holding any character outside the alphabet is rejected with
/// an invalid-character error naming the first such character.
pub proof fn lemma_invalid_character_rejected(s: Seq<char>, i: int)
    requires
        s.len() >= 1,
        0 <= i < s.len(),
        !is_base62_char(s[i]),
    ensures
        spec_decode(s) is Err,
        spec_decode(s)->Err_0 is InvalidCharacter,
{
    assert(!all_base62(s));
}

/// Decodes a base-62 string into a `u64`, rejecting empty input, characters
/// outside the alphabet, and values wider than 64 bits.
pub fn decode(s: &str) -> (r: Result<u64, DecodeError>)
    ensures
        r == spec_decode(s@),
{
    let len = s.unicode_len();
    if len == 0 {
        return Err(DecodeError::EmptyInput);
    }
    let mut i: usize = 0;
    while i < len
        invariant
            i <= len,
            len == s@.len(),
            forall|j: int| 0 <= j < i ==> is_base62_char(s@[j]),
        decreases len - i,
    {
        let c = s.get_char(i);
        if digit_value_exec(c) == 62 {
            proof {
                lemma_first_invalid_at(s@, i as int);
            }
            return Err(DecodeError::InvalidCharacter(c));
        }
        i += 1;
    }
    let mut acc: u64 = 0;
    i = 0;
    while i < len
        invariant
            i <= len,
            len == s@.len(),
            all_base62(s@),
            acc as nat == spec_value(s@.take(i as int)),
        decreases len - i,
    {
        let c = s.get_char(i);
        let v = digit_value_exec(c) as u64;
        proof {
            lemma_value_step(s@, i as int);
        }
        if acc > (u64::MAX - v) / 62 {
            proof {
                let m = (u64::MAX - v) as int;
                lemma_fundamental_div_mod(m, 62);
                lemma_mul_inequality(m / 62 + 1, acc as int, 62);
                assert(spec_value(s@.take(i + 1)) > u64::MAX);
                let rest = s@.skip(i + 1);
                assert(s@.take(i + 1) + rest =~= s@);
                lemma_value_append(s@.take(i + 1), rest);
                lemma_pow62_pos(rest.len());
                lemma_mul_inequality(1, pow62(rest.len()) as int, spec_value(
                    s@.take(i + 1),
                ) as int);
                assert(spec_value(s@) > u64::MAX);
            }
            return Err(DecodeError::ArithmeticOverflow);
        }
        proof {
            let m = (u64::MAX - v) as int;
            lemma_fundamental_div_mod(m, 62);
            lemma_mul_inequality(acc as int, m / 62, 62);
        }
        acc = acc * 62 + v;
        i += 1;
    }
    proof {
        assert(s@.take(len as int) =~= s@);
    }
    Ok(acc)
}

proof fn lemma_pow62_pos(k: nat)
    ensures
        pow62(k) >= 1,
    decreases k,
{
    if k > 0 {
        lemma_pow62_pos((k - 1) as nat);
    }
}

/// A 64-bit resource identifier whose wire form is a base-62 string.
/// Equality and hashing go by the underlying integer, never the string.
#[derive(Clone, Copy, Debug, PartialEq, Eq, Hash, Structural)]
pub struct Base62(pub u64);

impl Base62 {
    /// Wraps a raw 64-bit identifier.
    pub fn new(number: u64) -> (r: Self)
        ensures
            r.0 == number,
    {
        Base62(number)
    }

    /// The underlying integer.
    pub fn value(&self) -> (r: u64)
        ensures
            r == self.0,
    {
        self.0
    }

    /// The canonical base-62 wire form of this identifier.
    pub fn render(&self) -> (r: String)
        ensures
            r@ == spec_encode(self.0 as nat),
    {
        encode(self.0)
    }

    /// Parses an identifier from its base-62 wire form.
    pub fn parse(s: &str) -> (r: Result<Self, DecodeError>)
        ensures
            match r {
                Ok(b) => spec_decode(s@) == Ok::<u64, DecodeError>(b.0),
                Err(e) => spec_decode(s@) == Err::<u64, DecodeError>(e),
            },
    {
        match decode(s) {
            Ok(n) => Ok(Base62(n)),
            Err(e) => Err(e),
        }
    }
}

/// A number carried in base-62 form on the wire; the working width is `u64`,
/// and narrower uses check the magnitude at the boundary.
#[derive(Clone, Copy, Debug, PartialEq, Eq, Hash, Structural)]
pub struct Base62Encoded(pub u64);

impl Base62Encoded {
    /// Parses the wire form, failing exactly as `decode` does.
    pub fn from_str(s: &str) -> (r: Result<Self, DecodeError>)
        ensures
            match r {
                Ok(b) => spec_decode(s@) == Ok::<u64, DecodeError>(b.0),
                Err(e) => spec_decode(s@) == Err::<u64, DecodeError>(e),
            },
    {
        match decode(s) {
            Ok(n) => Ok(Base62Encoded(n)),
            Err(e) => Err(e),
        }
    }

    /// Renders the canonical wire form.
    pub fn render(&self) -> (r: String)
        ensures
            r@ == spec_encode(self.0 as nat),
    {
        encode(self.0)
    }
}

} // verus!
