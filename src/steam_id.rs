use vstd::prelude::*;

verus! {

/// The value of the decimal digit character `c`.
pub open spec fn digit_value(c: char) -> int {
    (c as int) - ('0' as int)
}

pub open spec fn is_digit(c: char) -> bool {
    '0' <= c && c <= '9'
}

/// The digit character for `d < 10`.
pub open spec fn digit_char(d: int) -> char {
    (d + ('0' as int)) as char
}

/// The shortest decimal spelling of `n`.
pub open spec fn decimal(n: nat) -> Seq<char>
    decreases n,
{
    if n < 10 {
        seq![digit_char(n as int)]
    } else {
        decimal(n / 10).push(digit_char((n % 10) as int))
    }
}

/// The number spelled by the digit sequence `s`.
pub open spec fn digits_value(s: Seq<char>) -> nat
    decreases s.len(),
{
    if s.len() == 0 {
        0
    } else {
        (digits_value(s.drop_last()) * 10 + digit_value(s.last())) as nat
    }
}

pub open spec fn all_digits(s: Seq<char>) -> bool {
    forall|i: int| 0 <= i < s.len() ==> is_digit(#[trigger] s[i])
}

/// The digits of a text accepted as an unsigned integer: one or more
/// decimal digits, optionally after a single leading `+`.
pub open spec fn unsigned_digits(s: Seq<char>) -> Seq<char> {
    if s.len() > 0 && s[0] == '+' {
        s.drop_first()
    } else {
        s
    }
}

/// The value of `s` read as a 64-bit unsigned integer, if it is one.
pub open spec fn parse_u64(s: Seq<char>) -> Option<u64> {
    let d = unsigned_digits(s);
    if d.len() > 0 && all_digits(d) && digits_value(d) <= u64::MAX {
        Some(digits_value(d) as u64)
    } else {
        None
    }
}

/// The signed 64-bit integer with the same bits as `v`.
pub open spec fn i64_bits_of(v: u64) -> i64 {
    if v <= i64::MAX {
        v as i64
    } else {
        (v - 0x1_0000_0000_0000_0000) as i64
    }
}

/// The unsigned 64-bit integer with the same bits as `i`.
pub open spec fn u64_bits_of(i: i64) -> u64 {
    if i >= 0 {
        i as u64
    } else {
        (i + 0x1_0000_0000_0000_0000) as u64
    }
}

/// An external 64-bit identifier minted by the identity provider.
#[derive(Copy, Clone, Debug, PartialEq, Eq, Structural)]
pub struct SteamId(pub u64);

impl SteamId {
    pub fn as_u64(self) -> (r: u64)
        ensures
            r == self.0,
    {
        self.0
    }

    /// The identifier reinterpreted bit for bit as a signed integer, as it
    /// is stored in the database.
    pub fn as_i64(self) -> (r: i64)
        ensures
            r == i64_bits_of(self.0),
    {
        if self.0 <= 0x7fff_ffff_ffff_ffff {
            self.0 as i64
        } else {
            let low: u64 = self.0 - 0x8000_0000_0000_0000;
            (low as i64) + i64::MIN
        }
    }

    /// The identifier whose bits are those of the signed database value `i`.
    pub fn from_i64(i: i64) -> (r: SteamId)
        ensures
            r.0 == u64_bits_of(i),
    {
        if i >= 0 {
            SteamId(i as u64)
        } else {
            let low: i64 = i - i64::MIN;
            SteamId((low as u64) + 0x8000_0000_0000_0000)
        }
    }
}


/// The one-character text of the decimal digit `d`.
fn digit_text(d: u64) -> (r: &'static str)
    requires
        d < 10,
    ensures
        r@ == seq![digit_char(d as int)],
{
    proof {
        reveal_strlit("0");
        reveal_strlit("1");
        reveal_strlit("2");
        reveal_strlit("3");
        reveal_strlit("4");
        reveal_strlit("5");
        reveal_strlit("6");
        reveal_strlit("7");
        reveal_strlit("8");
        reveal_strlit("9");
    }
    let r = match d {
        0 => "0",
        1 => "1",
        2 => "2",
        3 => "3",
        4 => "4",
        5 => "5",
        6 => "6",
        7 => "7",
        8 => "8",
        _ => "9",
    };
    assert(r@ =~= seq![digit_char(d as int)]);
    r
}

/// Appends the decimal spelling of `n` to `out`.
pub fn push_decimal(out: &mut String, n: u64)
    ensures
        final(out)@ == old(out)@ + decimal(n as nat),
    decreases n,
{
    if n >= 10 {
        push_decimal(out, n / 10);
    }
    out.append(digit_text(n % 10));
    assert(old(out)@ + decimal(n as nat) =~= if n >= 10 {
        old(out)@ + decimal((n / 10) as nat) + seq![digit_char((n % 10) as int)]
    } else {
        old(out)@ + seq![digit_char(n as int)]
    });
}

/// The decimal spelling of `n`.
pub fn decimal_string(n: u64) -> (r: String)
    ensures
        r@ == decimal(n as nat),
{
    let mut out = String::new();
    push_decimal(&mut out, n);
    assert(out@ =~= decimal(n as nat));
    out
}

proof fn lemma_digits_value_prefix(s: Seq<char>, k: int)
    requires
        0 <= k <= s.len(),
        all_digits(s),
    ensures
        digits_value(s.take(k)) <= digits_value(s),
    decreases s.len(),
{
    if k < s.len() {
        let t = s.drop_last();
        assert(all_digits(t));
        lemma_digits_value_prefix(t, k);
        assert(t.take(k) =~= s.take(k));
    } else {
        assert(s.take(k) =~= s);
    }
}

proof fn lemma_digit_char(d: int)
    requires
        0 <= d < 10,
    ensures
        digit_value(digit_char(d)) == d,
        is_digit(digit_char(d)),
        digit_char(d) != '+',
{
}

proof fn lemma_decimal_digits(n: nat)
    ensures
        decimal(n).len() > 0,
        all_digits(decimal(n)),
        decimal(n)[0] != '+',
        digits_value(decimal(n)) == n,
    decreases n,
{
    lemma_digit_char((n % 10) as int);
    let d = decimal(n);
    if n >= 10 {
        lemma_decimal_digits(n / 10);
        assert(d.drop_last() =~= decimal(n / 10));
        assert(d[0] == decimal(n / 10)[0]);
        assert(d.last() == digit_char((n % 10) as int));
        assert((n / 10) * 10 + n % 10 == n) by (nonlinear_arith);
        assert(digits_value(d) == digits_value(d.drop_last()) * 10 + digit_value(d.last()));
        assert(all_digits(d)) by {
            assert forall|i: int| 0 <= i < d.len() implies is_digit(#[trigger] d[i]) by {
                if i < d.len() - 1 {
                    assert(d[i] == decimal(n / 10)[i]);
                }
            }
        }
    } else {
        assert(d.drop_last() =~= Seq::<char>::empty());
        assert(d.last() == digit_char(n as int));
        lemma_digit_char(n as int);
        assert(digits_value(d) == digits_value(d.drop_last()) * 10 + digit_value(d.last()));
        assert(digits_value(d.drop_last()) == 0);
    }
}

/// Reads `s` as a 64-bit unsigned integer: an optional `+`, then one or
/// more decimal digits whose value fits in 64 bits.
pub fn parse_u64_text(s: &str) -> (r: Option<u64>)
    ensures
        r == parse_u64(s@),
{
    let n = s.unicode_len();
    let mut start: usize = 0;
    if n > 0 && s.get_char(0) == '+' {
        start = 1;
    }
    let ghost d = unsigned_digits(s@);
    assert(d =~= s@.subrange(start as int, n as int));
    if start == n {
        return None;
    }
    let mut value: u64 = 0;
    let mut i: usize = start;
    while i < n
        invariant
            start <= i <= n,
            n == s@.len(),
            d == s@.subrange(start as int, n as int),
            d == unsigned_digits(s@),
            all_digits(d.take(i - start)),
            value == digits_value(d.take(i - start)),
        decreases n - i,
    {
        let c = s.get_char(i);
        let ghost k = i - start;
        assert(d[k] == c);
        if !('0' <= c && c <= '9') {
            assert(!all_digits(d));
            return None;
        }
        let digit = (c as u32 - '0' as u32) as u64;
        assert(d.take(k + 1).drop_last() =~= d.take(k));
        assert(digits_value(d.take(k + 1)) == value * 10 + digit);
        if value > (u64::MAX - digit) / 10 {
            assert(digits_value(d.take(k + 1)) > u64::MAX) by (nonlinear_arith)
                requires
                    value > (u64::MAX - digit) / 10,
                    digit <= 9,
                    digits_value(d.take(k + 1)) == value * 10 + digit,
            ;
            proof {
                if all_digits(d) {
                    lemma_digits_value_prefix(d, k + 1);
                }
            }
            return None;
        }
        assert(value * 10 + digit <= u64::MAX) by (nonlinear_arith)
            requires
                value <= (u64::MAX - digit) / 10,
                digit <= 9,
        ;
        value = value * 10 + digit;
        i = i + 1;
        assert(all_digits(d.take(i - start))) by {
            assert forall|j: int| 0 <= j < d.take(i - start).len() implies is_digit(
                #[trigger] d.take(i - start)[j],
            ) by {
                if j < k {
                    assert(d.take(i - start)[j] == d.take(k)[j]);
                }
            }
        }
    }
    assert(d.take(n - start) =~= d);
    Some(value)
}

impl SteamId {
    /// The decimal text of the identifier.
    pub fn to_string(&self) -> (r: String)
        ensures
            r@ == decimal(self.0 as nat),
    {
        decimal_string(self.0)
    }

    /// Reads an identifier from its decimal text; `None` where the text is
    /// not an unsigned integer or does not fit in 64 bits.
    pub fn parse(s: &str) -> (r: Option<SteamId>)
        ensures
            r == (match parse_u64(s@) {
                Some(v) => Some(SteamId(v)),
                None => None,
            }),
    {
        match parse_u64_text(s) {
            Some(v) => Some(SteamId(v)),
            None => None,
        }
    }
}

/// The error for text that is not an identifier.
#[derive(Copy, Clone, Debug, PartialEq, Eq, Structural)]
pub struct ParseSteamIdError;

impl std::str::FromStr for SteamId {
    type Err = ParseSteamIdError;

    fn from_str(s: &str) -> (r: Result<SteamId, ParseSteamIdError>)
        ensures
            r == match parse_u64(s@) {
                Some(v) => Ok(SteamId(v)),
                None => Err(ParseSteamIdError),
            },
    {
        match SteamId::parse(s) {
            Some(id) => Ok(id),
            None => Err(ParseSteamIdError),
        }
    }
}

impl From<i64> for SteamId {
    fn from(i: i64) -> (r: SteamId) {
        SteamId::from_i64(i)
    }
}

impl vstd::std_specs::convert::FromSpecImpl<i64> for SteamId {
    open spec fn obeys_from_spec() -> bool {
        true
    }

    open spec fn from_spec(i: i64) -> SteamId {
        SteamId(u64_bits_of(i))
    }
}

impl From<SteamId> for i64 {
    fn from(id: SteamId) -> (r: i64) {
        id.as_i64()
    }
}

impl vstd::std_specs::convert::FromSpecImpl<SteamId> for i64 {
    open spec fn obeys_from_spec() -> bool {
        true
    }

    open spec fn from_spec(id: SteamId) -> i64 {
        i64_bits_of(id.0)
    }
}

/// Writing an identifier as text and reading it back gives the identifier.
pub proof fn steam_id_text_round_trip(id: SteamId)
    ensures
        parse_u64(decimal(id.0 as nat)) == Some(id.0),
{
    lemma_decimal_digits(id.0 as nat);
}

/// A decimal number too large for 64 bits is refused when read as an
/// identifier.
pub proof fn oversized_steam_id_is_refused(n: nat)
    requires
        n > u64::MAX,
    ensures
        parse_u64(decimal(n)) is None,
{
    lemma_decimal_digits(n);
}

/// Reading the database value back from its bits gives the identifier.
pub proof fn steam_id_bits_round_trip(id: SteamId)
    ensures
        u64_bits_of(i64_bits_of(id.0)) == id.0,
{
}

} // verus!
