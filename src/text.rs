//! Decimal digits, fixed-point decimals and path joining, all over `Seq<char>`.
use vstd::prelude::*;

verus! {

pub open spec fn is_digit(c: char) -> bool {
    '0' <= c && c <= '9'
}

pub open spec fn digit_char(d: int) -> char {
    (d + 48) as char
}

pub open spec fn char_value(c: char) -> int {
    c as int - 48
}

pub open spec fn all_digits(s: Seq<char>) -> bool {
    forall|i: int| 0 <= i < s.len() ==> is_digit(#[trigger] s[i])
}

/// The shortest decimal notation of `n`.
pub open spec fn digits(n: nat) -> Seq<char>
    decreases n,
{
    if n < 10 {
        seq![digit_char(n as int)]
    } else {
        digits(n / 10).push(digit_char((n % 10) as int))
    }
}

/// The last `width` decimal digits of `n`, with leading zeros.
pub open spec fn padded_digits(n: nat, width: nat) -> Seq<char>
    decreases width,
{
    if width == 0 {
        Seq::empty()
    } else {
        padded_digits(n / 10, (width - 1) as nat).push(digit_char((n % 10) as int))
    }
}

/// `n` with its last `k` decimal digits dropped.
pub open spec fn shift_right(n: nat, k: nat) -> nat
    decreases k,
{
    if k == 0 {
        n
    } else {
        shift_right(n / 10, (k - 1) as nat)
    }
}

/// The number that a string of decimal digits denotes.
pub open spec fn digits_value(s: Seq<char>) -> int
    decreases s.len(),
{
    if s.len() == 0 {
        0
    } else {
        digits_value(s.drop_last()) * 10 + char_value(s.last())
    }
}

pub proof fn lemma_digits(n: nat)
    ensures
        all_digits(digits(n)),
        digits(n).len() >= 1,
        digits_value(digits(n)) == n,
        is_digit(digits(n)[0]),
    decreases n,
{
    lemma_digit_char((n % 10) as int);
    if n >= 10 {
        lemma_digits(n / 10);
        let s = digits(n);
        assert(s.drop_last() == digits(n / 10));
        assert(s.last() == digit_char((n % 10) as int));
        assert(digits_value(s) == digits_value(digits(n / 10)) * 10 + char_value(s.last()));
        assert((n / 10) * 10 + n % 10 == n);
    } else {
        let s = digits(n);
        assert(s.drop_last() =~= Seq::<char>::empty());
        assert(s.last() == digit_char(n as int));
        assert(digits_value(s.drop_last()) == 0);
    }
}

pub proof fn lemma_digit_char(d: int)
    requires
        0 <= d < 10,
    ensures
        is_digit(digit_char(d)),
        char_value(digit_char(d)) == d,
{
}

pub proof fn lemma_padded_digits(n: nat, width: nat)
    ensures
        all_digits(padded_digits(n, width)),
        padded_digits(n, width).len() == width,
    decreases width,
{
    if width > 0 {
        lemma_padded_digits(n / 10, (width - 1) as nat);
        lemma_digit_char((n % 10) as int);
    }
}

/// Digits of the high part followed by the padded low part spell `n` again.
pub proof fn lemma_split_value(high: Seq<char>, n: nat, k: nat)
    requires
        digits_value(high) == shift_right(n, k),
    ensures
        digits_value(high + padded_digits(n, k)) == n,
    decreases k,
{
    if k == 0 {
        assert(high + padded_digits(n, k) =~= high);
    } else {
        lemma_split_value(high, n / 10, (k - 1) as nat);
        lemma_digit_char((n % 10) as int);
        let whole = high + padded_digits(n, k);
        assert(whole.drop_last() =~= high + padded_digits(n / 10, (k - 1) as nat));
    }
}

pub proof fn lemma_value_push_digits(s: Seq<char>, t: Seq<char>)
    requires
        all_digits(s),
        all_digits(t),
    ensures
        digits_value(s + t) >= digits_value(s),
        digits_value(s) >= 0,
    decreases t.len(),
{
    lemma_value_nonneg(s);
    if t.len() > 0 {
        lemma_value_push_digits(s, t.drop_last());
        assert((s + t).drop_last() =~= s + t.drop_last());
        lemma_value_nonneg(s + t.drop_last());
    } else {
        assert(s + t =~= s);
    }
}

pub proof fn lemma_value_nonneg(s: Seq<char>)
    requires
        all_digits(s),
    ensures
        digits_value(s) >= 0,
    decreases s.len(),
{
    if s.len() > 0 {
        lemma_value_nonneg(s.drop_last());
    }
}

fn digit_to_char(d: u64) -> (c: char)
    requires
        d < 10,
    ensures
        c == digit_char(d as int),
        is_digit(c),
        char_value(c) == d,
{
    let b: u8 = d as u8 + 48;
    b as char
}

fn char_to_digit(c: char) -> (d: u64)
    requires
        is_digit(c),
    ensures
        d == char_value(c),
        d < 10,
{
    (c as u32 - 48) as u64
}

/// Relies on std's `String: FromIterator<char>`: the string holds the chars in order.
#[verifier::external_body]
pub(crate) fn string_from_chars(chars: &Vec<char>) -> (s: String)
    ensures
        s@ == chars@,
{
    chars.iter().collect()
}

pub(crate) fn chars_of(s: &str) -> (v: Vec<char>)
    ensures
        v@ == s@,
{
    let n = s.unicode_len();
    let mut v: Vec<char> = Vec::new();
    let mut i: usize = 0;
    while i < n
        invariant
            n == s@.len(),
            i <= n,
            v@ == s@.take(i as int),
        decreases n - i,
    {
        let c = s.get_char(i);
        v.push(c);
        i = i + 1;
        assert(v@ =~= s@.take(i as int));
    }
    assert(v@ =~= s@);
    v
}

fn push_digits(v: &mut Vec<char>, n: u64)
    ensures
        final(v)@ == old(v)@ + digits(n as nat),
    decreases n,
{
    if n >= 10 {
        push_digits(v, n / 10);
    }
    let c = digit_to_char(n % 10);
    v.push(c);
    proof {
        if n >= 10 {
            assert(final(v)@ =~= old(v)@ + digits(n as nat));
        } else {
            assert(final(v)@ =~= old(v)@ + digits(n as nat));
        }
    }
}

fn push_padded_digits(v: &mut Vec<char>, n: u64, width: u8)
    ensures
        final(v)@ == old(v)@ + padded_digits(n as nat, width as nat),
    decreases width,
{
    if width > 0 {
        push_padded_digits(v, n / 10, width - 1);
        let c = digit_to_char(n % 10);
        v.push(c);
        assert(final(v)@ =~= old(v)@ + padded_digits(n as nat, width as nat));
    } else {
        assert(final(v)@ =~= old(v)@ + padded_digits(n as nat, width as nat));
    }
}

/// The decimal notation of `n`, as `to_string` writes it.
pub fn u64_text(n: u64) -> (s: String)
    ensures
        s@ == digits(n as nat),
{
    let mut v: Vec<char> = Vec::new();
    push_digits(&mut v, n);
    assert(v@ =~= digits(n as nat));
    string_from_chars(&v)
}

/// The last `width` digits of `n`, padded with leading zeros.
pub fn padded_text(n: u64, width: u8) -> (s: String)
    ensures
        s@ == padded_digits(n as nat, width as nat),
{
    let mut v: Vec<char> = Vec::new();
    push_padded_digits(&mut v, n, width);
    assert(v@ =~= padded_digits(n as nat, width as nat));
    string_from_chars(&v)
}

/// A decimal number `units / 10^scale` held exactly, without floating point.
#[derive(Debug, Clone, Copy, PartialEq, Eq, Structural)]
pub struct Decimal {
    pub units: u64,
    pub scale: u8,
}

/// The same number with trailing fractional zeros removed.
pub open spec fn normal_form(d: Decimal) -> Decimal
    decreases d.scale,
{
    if d.scale > 0 && d.units % 10 == 0 {
        normal_form(Decimal { units: d.units / 10, scale: (d.scale - 1) as u8 })
    } else {
        d
    }
}

/// The shortest notation of a decimal: integer digits, then a point and the
/// fractional digits if any fractional digit is not zero.
pub open spec fn decimal_text(d: Decimal) -> Seq<char> {
    let n = normal_form(d);
    if n.scale == 0 {
        digits(n.units as nat)
    } else {
        digits(shift_right(n.units as nat, n.scale as nat)) + seq!['.'] + padded_digits(
            n.units as nat,
            n.scale as nat,
        )
    }
}

/// Index of the first `.` in `s`, or `-1`.
pub open spec fn first_dot(s: Seq<char>) -> int
    decreases s.len(),
{
    if s.len() == 0 {
        -1
    } else if s[0] == '.' {
        0
    } else {
        let rest = first_dot(s.drop_first());
        if rest < 0 {
            -1
        } else {
            rest + 1
        }
    }
}

/// A decimal from its integer and fractional digit strings, if it fits.
pub open spec fn decimal_from_parts(int_part: Seq<char>, frac_part: Seq<char>) -> Option<Decimal> {
    if int_part.len() > 0 && all_digits(int_part) && all_digits(frac_part) && frac_part.len()
        <= 255 && digits_value(int_part + frac_part) <= u64::MAX {
        Some(Decimal { units: digits_value(int_part + frac_part) as u64, scale: frac_part.len() as u8 })
    } else {
        None
    }
}

/// Reads `ddd` or `ddd.ddd`: digits, then optionally a point and at least one digit.
pub open spec fn parse_decimal_spec(s: Seq<char>) -> Option<Decimal> {
    let p = first_dot(s);
    if p < 0 {
        decimal_from_parts(s, Seq::empty())
    } else if p + 1 < s.len() {
        decimal_from_parts(s.take(p), s.skip(p + 1))
    } else {
        None
    }
}

proof fn lemma_first_dot_none(s: Seq<char>)
    requires
        all_digits(s),
    ensures
        first_dot(s) == -1,
    decreases s.len(),
{
    if s.len() > 0 {
        assert(is_digit(s[0]));
        lemma_first_dot_none(s.drop_first());
    }
}

proof fn lemma_first_dot_after(a: Seq<char>, b: Seq<char>)
    requires
        all_digits(a),
    ensures
        first_dot(a + seq!['.'] + b) == a.len(),
    decreases a.len(),
{
    let s = a + seq!['.'] + b;
    if a.len() > 0 {
        assert(is_digit(a[0]));
        assert(s.drop_first() =~= a.drop_first() + seq!['.'] + b);
        lemma_first_dot_after(a.drop_first(), b);
    }
}

proof fn lemma_normal_form(d: Decimal)
    ensures
        normal_form(d).scale <= d.scale,
        normal_form(d).scale > 0 ==> normal_form(d).units % 10 != 0,
    decreases d.scale,
{
    if d.scale > 0 && d.units % 10 == 0 {
        lemma_normal_form(Decimal { units: d.units / 10, scale: (d.scale - 1) as u8 });
    }
}

/// Reading the text that a decimal is written as gives the decimal back, with
/// trailing fractional zeros removed.
pub proof fn lemma_decimal_round_trip(d: Decimal)
    ensures
        parse_decimal_spec(decimal_text(d)) == Some(normal_form(d)),
{
    let n = normal_form(d);
    lemma_normal_form(d);
    if n.scale == 0 {
        lemma_digits(n.units as nat);
        lemma_first_dot_none(digits(n.units as nat));
        assert(digits(n.units as nat) + Seq::<char>::empty() =~= digits(n.units as nat));
    } else {
        let high = digits(shift_right(n.units as nat, n.scale as nat));
        let low = padded_digits(n.units as nat, n.scale as nat);
        let s = decimal_text(d);
        lemma_digits(shift_right(n.units as nat, n.scale as nat));
        lemma_padded_digits(n.units as nat, n.scale as nat);
        lemma_first_dot_after(high, low);
        assert(s.take(high.len() as int) =~= high);
        assert(s.skip(high.len() as int + 1) =~= low);
        lemma_split_value(high, n.units as nat, n.scale as nat);
        assert forall|i: int| 0 <= i < low.len() implies is_digit(#[trigger] low[i]) by {}
    }
}

/// The number that a run of digits denotes, if it fits in a `u64`.
fn digits_to_u64(s: &Vec<char>) -> (r: Option<u64>)
    requires
        all_digits(s@),
    ensures
        r == (if digits_value(s@) <= u64::MAX {
            Some(digits_value(s@) as u64)
        } else {
            None::<u64>
        }),
{
    let mut acc: u64 = 0;
    let mut i: usize = 0;
    while i < s.len()
        invariant
            all_digits(s@),
            i <= s@.len(),
            acc == digits_value(s@.take(i as int)),
        decreases s@.len() - i,
    {
        let d = char_to_digit(s[i]);
        assert(s@.take(i + 1).drop_last() =~= s@.take(i as int));
        if acc > (u64::MAX - d) / 10 {
            proof {
                assert(digits_value(s@.take(i + 1)) > u64::MAX);
                assert(s@ =~= s@.take(i + 1) + s@.skip(i + 1));
                assert(all_digits(s@.take(i + 1)));
                assert(all_digits(s@.skip(i + 1)));
                lemma_value_push_digits(s@.take(i + 1), s@.skip(i + 1));
            }
            return None;
        }
        acc = acc * 10 + d;
        i = i + 1;
    }
    assert(s@.take(s@.len() as int) =~= s@);
    Some(acc)
}

impl Decimal {
    /// The decimal with trailing fractional zeros removed.
    pub fn normalized(&self) -> (r: Decimal)
        ensures
            r == normal_form(*self),
    {
        let mut r = *self;
        while r.scale > 0 && r.units % 10 == 0
            invariant
                normal_form(r) == normal_form(*self),
            decreases r.scale,
        {
            r = Decimal { units: r.units / 10, scale: r.scale - 1 };
        }
        r
    }

    /// The shortest notation: `12.3` for 123 tenths, `2` for 200 hundredths.
    pub fn to_text(&self) -> (s: String)
        ensures
            s@ == decimal_text(*self),
    {
        let n = self.normalized();
        let mut v: Vec<char> = Vec::new();
        if n.scale == 0 {
            push_digits(&mut v, n.units);
        } else {
            let mut high = n.units;
            let mut k: u8 = n.scale;
            while k > 0
                invariant
                    shift_right(high as nat, k as nat) == shift_right(n.units as nat, n.scale as nat),
                decreases k,
            {
                high = high / 10;
                k = k - 1;
            }
            push_digits(&mut v, high);
            v.push('.');
            push_padded_digits(&mut v, n.units, n.scale);
        }
        assert(v@ =~= decimal_text(*self));
        string_from_chars(&v)
    }

    /// Reads `ddd` or `ddd.ddd`; `None` for any other text or a value that does not fit.
    pub fn parse(text: &str) -> (r: Option<Decimal>)
        ensures
            r == parse_decimal_spec(text@),
    {
        let s = chars_of(text);
        let n = s.len();
        let mut dot: usize = 0;
        while dot < n && s[dot] != '.'
            invariant
                dot <= n,
                n == s@.len(),
                forall|j: int| 0 <= j < dot ==> s@[j] != '.',
            decreases n - dot,
        {
            dot = dot + 1;
        }
        proof {
            lemma_first_dot_scan(s@, dot as int);
        }
        if dot == n {
            assert(s@ == text@);
            decimal_from_digit_parts(&s, &Vec::new())
        } else if dot + 1 < n {
            let int_part = sub_chars(&s, 0, dot);
            let frac_part = sub_chars(&s, dot + 1, n);
            assert(int_part@ =~= s@.take(dot as int));
            assert(frac_part@ =~= s@.skip(dot + 1));
            decimal_from_digit_parts(&int_part, &frac_part)
        } else {
            None
        }
    }
}

fn sub_chars(v: &Vec<char>, from: usize, to: usize) -> (r: Vec<char>)
    requires
        from <= to <= v@.len(),
    ensures
        r@ == v@.subrange(from as int, to as int),
{
    let mut r: Vec<char> = Vec::new();
    let mut i: usize = from;
    while i < to
        invariant
            from <= i <= to <= v@.len(),
            r@ == v@.subrange(from as int, i as int),
        decreases to - i,
    {
        r.push(v[i]);
        i = i + 1;
        assert(r@ =~= v@.subrange(from as int, i as int));
    }
    r
}

fn is_all_digits(v: &Vec<char>) -> (b: bool)
    ensures
        b == all_digits(v@),
{
    let mut i: usize = 0;
    while i < v.len()
        invariant
            i <= v@.len(),
            forall|j: int| 0 <= j < i ==> is_digit(#[trigger] v@[j]),
        decreases v@.len() - i,
    {
        if !('0' <= v[i] && v[i] <= '9') {
            return false;
        }
        i = i + 1;
    }
    true
}

fn decimal_from_digit_parts(int_part: &Vec<char>, frac_part: &Vec<char>) -> (r: Option<Decimal>)
    ensures
        r == decimal_from_parts(int_part@, frac_part@),
{
    if int_part.len() == 0 || !is_all_digits(int_part) || !is_all_digits(frac_part)
        || frac_part.len() > 255 {
        return None;
    }
    let mut all: Vec<char> = Vec::new();
    let mut i: usize = 0;
    while i < int_part.len()
        invariant
            i <= int_part@.len(),
            all@ == int_part@.take(i as int),
        decreases int_part@.len() - i,
    {
        all.push(int_part[i]);
        i = i + 1;
        assert(all@ =~= int_part@.take(i as int));
    }
    let mut j: usize = 0;
    while j < frac_part.len()
        invariant
            j <= frac_part@.len(),
            all@ == int_part@ + frac_part@.take(j as int),
        decreases frac_part@.len() - j,
    {
        all.push(frac_part[j]);
        j = j + 1;
        assert(all@ =~= int_part@ + frac_part@.take(j as int));
    }
    assert(all@ =~= int_part@ + frac_part@);
    assert(all_digits(all@));
    match digits_to_u64(&all) {
        Some(units) => Some(Decimal { units, scale: frac_part.len() as u8 }),
        None => None,
    }
}

/// `base` and `name` joined by one `/`, as `PathBuf::push` joins a relative name.
pub open spec fn join_path(base: Seq<char>, name: Seq<char>) -> Seq<char> {
    if base.len() == 0 {
        name
    } else if base.last() == '/' {
        base + name
    } else {
        base + seq!['/'] + name
    }
}

/// Joins a relative name onto a path.
pub fn join(base: &str, name: &str) -> (r: String)
    ensures
        r@ == join_path(base@, name@),
{
    let b = chars_of(base);
    let nm = chars_of(name);
    let mut v = b.clone();
    if b.len() > 0 && b[b.len() - 1] != '/' {
        v.push('/');
    }
    let mut i: usize = 0;
    while i < nm.len()
        invariant
            i <= nm@.len(),
            nm@ == name@,
            b@ == base@,
            v@ == (if b@.len() > 0 && b@.last() != '/' {
                b@ + seq!['/']
            } else {
                b@
            }) + nm@.take(i as int),
        decreases nm@.len() - i,
    {
        v.push(nm[i]);
        i = i + 1;
        assert(v@ =~= (if b@.len() > 0 && b@.last() != '/' {
            b@ + seq!['/']
        } else {
            b@
        }) + nm@.take(i as int));
    }
    assert(v@ =~= join_path(base@, name@));
    string_from_chars(&v)
}

proof fn lemma_first_dot_scan(s: Seq<char>, k: int)
    requires
        0 <= k <= s.len(),
        forall|j: int| 0 <= j < k ==> s[j] != '.',
        k < s.len() ==> s[k] == '.',
    ensures
        first_dot(s) == (if k < s.len() {
            k
        } else {
            -1
        }),
    decreases s.len(),
{
    if s.len() > 0 && k > 0 {
        lemma_first_dot_scan(s.drop_first(), k - 1);
    }
}

} // verus!
