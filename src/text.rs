use vstd::prelude::*;

verus! {

use vstd::std_specs::iter::IteratorSpec;

broadcast use vstd::string::axiom_spec_iter, vstd::string::next_postcondition;

/// The characters of `s`, one by one.
pub fn chars_of(s: &str) -> (r: Vec<char>)
    ensures
        r@ == s@,
{
    let mut it = s.chars();
    let mut out: Vec<char> = Vec::new();
    loop
        invariant
            it.obeys_prophetic_iter_laws(),
            out@ + it.remaining() == s@,
            it.decrease() is Some,
        ensures
            out@ == s@,
        decreases it.decrease()->0,
    {
        match it.next() {
            Some(c) => {
                out.push(c);
            },
            None => {
                assert(out@ + it.remaining() =~= out@);
                break;
            },
        }
    }
    out
}


/// The largest milli-unit value that the store's signed 64-bit integer columns hold.
pub const MAX_MILLI: u64 = 9223372036854775807;

pub open spec fn is_digit(c: char) -> bool {
    '0' <= c && c <= '9'
}

pub open spec fn digit_value(c: char) -> nat {
    (c as nat - '0' as nat) as nat
}

pub open spec fn all_digits(s: Seq<char>) -> bool {
    forall|i: int| 0 <= i < s.len() ==> is_digit(#[trigger] s[i])
}

/// The number that a string of decimal digits denotes.
pub open spec fn digits_value(s: Seq<char>) -> nat
    decreases s.len(),
{
    if s.len() == 0 {
        0
    } else {
        digits_value(s.drop_last()) * 10 + digit_value(s.last())
    }
}

/// The first three digits after the decimal point, read as thousandths
/// (missing digits count as zero, further digits are dropped).
pub open spec fn thousandths(f: Seq<char>) -> nat {
    (if f.len() > 0 { digit_value(f[0]) * 100 } else { 0 })
        + (if f.len() > 1 { digit_value(f[1]) * 10 } else { 0 })
        + (if f.len() > 2 { digit_value(f[2]) } else { 0 })
}

/// `s` reads as `int` or `int.frac`, both non-empty runs of digits, where
/// `k` is the length of the integer part.
pub open spec fn is_decimal_split(s: Seq<char>, k: int) -> bool {
    &&& 0 < k <= s.len()
    &&& all_digits(s.take(k))
    &&& (k == s.len() || (s[k] == '.' && k + 1 < s.len() && all_digits(s.skip(k + 1))))
}

pub open spec fn is_decimal(s: Seq<char>) -> bool {
    exists|k: int| is_decimal_split(s, k)
}

pub open spec fn integer_part_len(s: Seq<char>) -> int
    recommends
        is_decimal(s),
{
    choose|k: int| is_decimal_split(s, k)
}

/// What follows the decimal point, empty where there is none.
pub open spec fn fraction_part(s: Seq<char>, k: int) -> Seq<char> {
    if k < s.len() {
        s.skip(k + 1)
    } else {
        Seq::empty()
    }
}

/// The value of a decimal text in thousandths, truncated toward zero.
pub open spec fn decimal_milli(s: Seq<char>) -> nat
    recommends
        is_decimal(s),
{
    let k = integer_part_len(s);
    digits_value(s.take(k)) * 1000 + thousandths(fraction_part(s, k))
}

/// A decimal text as an exact count of thousandths, when it is one and the
/// count fits the store.
pub open spec fn milli_of(s: Seq<char>) -> Option<u64> {
    if is_decimal(s) && decimal_milli(s) <= MAX_MILLI {
        Some(decimal_milli(s) as u64)
    } else {
        None
    }
}

/// The digits of an integer text, after an optional sign.
pub open spec fn integer_digits(s: Seq<char>) -> Seq<char> {
    if s.len() > 0 && (s[0] == '+' || s[0] == '-') {
        s.drop_first()
    } else {
        s
    }
}

/// An optional sign followed by at least one decimal digit.
pub open spec fn is_integer_text(s: Seq<char>) -> bool {
    integer_digits(s).len() > 0 && all_digits(integer_digits(s))
}

pub open spec fn integer_value(s: Seq<char>) -> int {
    let v = digits_value(integer_digits(s)) as int;
    if s.len() > 0 && s[0] == '-' {
        -v
    } else {
        v
    }
}

/// The tariff an integer text names: 1 or 2, and 0 for any other integer;
/// `None` for a text that is no integer.
pub open spec fn tariff_of(s: Seq<char>) -> Option<u8> {
    if !is_integer_text(s) {
        None
    } else if integer_value(s) == 1 {
        Some(1)
    } else if integer_value(s) == 2 {
        Some(2)
    } else {
        Some(0)
    }
}

proof fn lemma_digits_value_grows(s: Seq<char>, i: int, j: int)
    requires
        0 <= i <= j <= s.len(),
    ensures
        digits_value(s.take(i)) <= digits_value(s.take(j)),
    decreases j - i,
{
    if i < j {
        lemma_digits_value_grows(s, i, j - 1);
        assert(s.take(j).drop_last() =~= s.take(j - 1));
    }
}

/// Reads `s[start..end]` as a run of decimal digits whose value is at most `cap`.
fn parse_digits(s: &Vec<char>, start: usize, end: usize, cap: u64) -> (r: Option<u64>)
    requires
        start <= end <= s@.len(),
        9 <= cap <= MAX_MILLI,
    ensures
        ({
            let d = s@.subrange(start as int, end as int);
            r == if d.len() > 0 && all_digits(d) && digits_value(d) <= cap {
                Some(digits_value(d) as u64)
            } else {
                None
            }
        }),
{
    let ghost d = s@.subrange(start as int, end as int);
    if start == end {
        return None;
    }
    let mut v: u64 = 0;
    let mut i: usize = start;
    while i < end
        invariant
            start <= i <= end <= s@.len(),
            9 <= cap <= MAX_MILLI,
            d == s@.subrange(start as int, end as int),
            all_digits(d.take(i - start)),
            v == digits_value(d.take(i - start)),
            v <= cap,
        decreases end - i,
    {
        let c = s[i];
        if !('0' <= c && c <= '9') {
            assert(d[i - start] == c);
            return None;
        }
        let dv = (c as u32 - '0' as u32) as u64;
        assert(d.take(i + 1 - start).drop_last() =~= d.take(i - start));
        assert(d.take(i + 1 - start).last() == c);
        if v > (cap - dv) / 10 {
            proof {
                let q = (cap - dv) as int / 10;
                assert(v as int * 10 + dv > cap) by (nonlinear_arith)
                    requires
                        v as int > q,
                        q == (cap - dv) as int / 10,
                        dv <= cap,
                ;
                lemma_digits_value_grows(d, i + 1 - start, d.len() as int);
                assert(d.take(d.len() as int) =~= d);
            }
            return None;
        }
        v = v * 10 + dv;
        i = i + 1;
        assert forall|j: int| 0 <= j < d.take(i - start).len() implies is_digit(
            #[trigger] d.take(i - start)[j],
        ) by {
            if j < i - 1 - start {
                assert(d.take(i - 1 - start)[j] == d.take(i - start)[j]);
            }
        }
    }
    assert(d.take(i - start) =~= d);
    Some(v)
}


/// Reads a decimal text (`12`, `12.5`, `0.001234`) as a count of thousandths,
/// truncating digits past the third decimal place.
pub fn parse_milli(s: &Vec<char>) -> (r: Option<u64>)
    ensures
        r == milli_of(s@),
{
    let n = s.len();
    let mut k: usize = 0;
    while k < n && s[k] != '.'
        invariant
            k <= n == s@.len(),
            forall|j: int| 0 <= j < k ==> s@[j] != '.',
        decreases n - k,
    {
        k = k + 1;
    }
    let int_part = parse_digits(s, 0, k, MAX_MILLI / 1000);
    proof {
        assert(s@.subrange(0, k as int) =~= s@.take(k as int));
        // any split has its point at the first '.', or none
        assert forall|k2: int| #[trigger] is_decimal_split(s@, k2) implies k2 == k by {
            if k2 < k {
                assert(s@[k2] != '.');
            } else if k < k2 {
                assert(s@.take(k2)[k as int] == s@[k as int]);
            }
        }
    }
    let v = match int_part {
        None => {
            proof {
                if is_decimal(s@) {
                    let k2 = integer_part_len(s@);
                    assert(is_decimal_split(s@, k2));
                    lemma_digits_value_grows(s@, k as int, s@.len() as int);
                    assert(digits_value(s@.take(k as int)) * 1000 > MAX_MILLI);
                }
            }
            return None;
        },
        Some(v) => v,
    };
    if k == n {
        proof {
            assert(is_decimal_split(s@, k as int));
            assert(fraction_part(s@, k as int).len() == 0);
        }
        return Some(v * 1000);
    }
    if k + 1 == n {
        return None;
    }
    let mut j: usize = k + 1;
    while j < n
        invariant
            k + 1 <= j <= n == s@.len(),
            s@[k as int] == '.',
            forall|i: int| 0 <= i < k ==> s@[i] != '.',
            forall|i: int| k + 1 <= i < j ==> is_digit(#[trigger] s@[i]),
        decreases n - j,
    {
        let c = s[j];
        if !('0' <= c && c <= '9') {
            proof {
                assert(s@.skip(k + 1)[j - k - 1] == c);
                if is_decimal(s@) {
                    let k2 = integer_part_len(s@);
                    assert(is_decimal_split(s@, k2));
                    if k2 < k {
                        assert(s@[k2] != '.');
                    } else if k < k2 {
                        assert(s@.take(k2)[k as int] == s@[k as int]);
                    } else {
                        assert(s@.skip(k2 + 1)[j - k - 1] == c);
                    }
                }
            }
            return None;
        }
        j = j + 1;
    }
    let d0 = (s[k + 1] as u32 - '0' as u32) as u64;
    let d1 = if n - k > 2 { (s[k + 2] as u32 - '0' as u32) as u64 } else { 0 };
    let d2 = if n - k > 3 { (s[k + 3] as u32 - '0' as u32) as u64 } else { 0 };
    let f: u64 = d0 * 100 + d1 * 10 + d2;
    proof {
        let fr = s@.skip(k + 1);
        assert(fr == fraction_part(s@, k as int));
        assert forall|i: int| 0 <= i < fr.len() implies is_digit(#[trigger] fr[i]) by {
            assert(fr[i] == s@[k + 1 + i]);
        }
        assert(is_decimal_split(s@, k as int));
        assert(fr[0] == s@[k + 1]);
        if fr.len() > 1 {
            assert(fr[1] == s@[k + 2]);
        }
        if fr.len() > 2 {
            assert(fr[2] == s@[k + 3]);
        }
        assert(f == thousandths(fr));
    }
    if v > (MAX_MILLI - f) / 1000 {
        return None;
    }
    Some(v * 1000 + f)
}

/// Reads a tariff from integer text of any size and sign: 1 or 2, 0 for
/// any other integer, `None` when the text is no integer.
pub fn parse_tariff(s: &Vec<char>) -> (r: Option<u8>)
    ensures
        r == tariff_of(s@),
{
    let n = s.len();
    let negative = n > 0 && s[0] == '-';
    let start: usize = if n > 0 && (s[0] == '+' || s[0] == '-') { 1 } else { 0 };
    proof {
        if start == 1 {
            assert(s@.subrange(1, n as int) =~= integer_digits(s@));
        } else {
            assert(s@.subrange(0, n as int) =~= integer_digits(s@));
        }
    }
    if start == n {
        return None;
    }
    let mut i: usize = start;
    while i < n
        invariant
            start <= i <= n == s@.len(),
            s@.subrange(start as int, n as int) == integer_digits(s@),
            forall|j: int| start <= j < i ==> is_digit(#[trigger] s@[j]),
        decreases n - i,
    {
        if !('0' <= s[i] && s[i] <= '9') {
            assert(integer_digits(s@)[i - start] == s@[i as int]);
            return None;
        }
        i = i + 1;
    }
    assert forall|j: int| 0 <= j < integer_digits(s@).len() implies is_digit(
        #[trigger] integer_digits(s@)[j],
    ) by {
        assert(integer_digits(s@)[j] == s@[start + j]);
    }
    match parse_digits(s, start, n, 255) {
        Some(v) => if v == 1 && !negative {
            Some(1)
        } else if v == 2 && !negative {
            Some(2)
        } else {
            Some(0)
        },
        None => Some(0),
    }
}


/// `s` without the NUL characters at its start.
pub open spec fn trim_nul_start(s: Seq<char>) -> Seq<char>
    decreases s.len(),
{
    if s.len() > 0 && s[0] == '\0' {
        trim_nul_start(s.drop_first())
    } else {
        s
    }
}

/// `s` without the NUL characters at its end.
pub open spec fn trim_nul_end(s: Seq<char>) -> Seq<char>
    decreases s.len(),
{
    if s.len() > 0 && s.last() == '\0' {
        trim_nul_end(s.drop_last())
    } else {
        s
    }
}

/// `s` without the NUL padding at either end.
pub open spec fn trim_nul(s: Seq<char>) -> Seq<char> {
    trim_nul_end(trim_nul_start(s))
}

/// The pieces of `s` between occurrences of `sep`; always at least one.
pub open spec fn split_on(s: Seq<char>, sep: char) -> Seq<Seq<char>>
    decreases s.len(),
{
    if s.len() == 0 {
        seq![Seq::empty()]
    } else {
        let prev = split_on(s.drop_last(), sep);
        if s.last() == sep {
            prev.push(Seq::empty())
        } else {
            prev.update(prev.len() - 1, prev.last().push(s.last()))
        }
    }
}

pub proof fn lemma_split_on_nonempty(s: Seq<char>, sep: char)
    ensures
        split_on(s, sep).len() >= 1,
    decreases s.len(),
{
    if s.len() > 0 {
        lemma_split_on_nonempty(s.drop_last(), sep);
    }
}

proof fn lemma_trim_start_push(s: Seq<char>, c: char)
    ensures
        trim_nul_start(s.push(c)) == if trim_nul_start(s).len() == 0 {
            trim_nul_start(seq![c])
        } else {
            trim_nul_start(s).push(c)
        },
    decreases s.len(),
{
    if s.len() > 0 {
        assert(s.push(c).drop_first() =~= s.drop_first().push(c));
        assert(s.push(c)[0] == s[0]);
        if s[0] == '\0' {
            lemma_trim_start_push(s.drop_first(), c);
        }
    } else {
        assert(s.push(c) =~= seq![c]);
    }
}

/// NUL padding added at either end of a text is trimmed away with the rest.
pub proof fn law_nul_padding_trimmed(s: Seq<char>)
    ensures
        trim_nul(seq!['\0'] + s) == trim_nul(s),
        trim_nul(s.push('\0')) == trim_nul(s),
{
    assert((seq!['\0'] + s).drop_first() =~= s);
    lemma_trim_start_push(s, '\0');
    if trim_nul_start(s).len() == 0 {
        assert(seq!['\0'].drop_first() =~= Seq::<char>::empty());
        assert(trim_nul_start(seq!['\0']) == trim_nul_start(Seq::<char>::empty()));
    } else {
        assert(trim_nul_start(s).push('\0').drop_last() =~= trim_nul_start(s));
    }
}

/// Removes the NUL padding at both ends of `s`.
pub fn trim_nul_chars(s: &Vec<char>) -> (r: Vec<char>)
    ensures
        r@ == trim_nul(s@),
{
    let n = s.len();
    let mut i: usize = 0;
    assert(s@.skip(0) =~= s@);
    while i < n && s[i] == '\0'
        invariant
            i <= n == s@.len(),
            trim_nul_start(s@) == trim_nul_start(s@.skip(i as int)),
        decreases n - i,
    {
        assert(s@.skip(i as int).drop_first() =~= s@.skip(i + 1));
        i = i + 1;
    }
    assert(trim_nul_start(s@.skip(i as int)) == s@.skip(i as int));
    let mut j: usize = n;
    while j > i && s[j - 1] == '\0'
        invariant
            i <= j <= n == s@.len(),
            trim_nul(s@) == trim_nul_end(s@.subrange(i as int, j as int)),
        decreases j,
    {
        assert(s@.subrange(i as int, j as int).drop_last() =~= s@.subrange(i as int, j - 1));
        j = j - 1;
    }
    assert(s@.skip(i as int) =~= s@.subrange(i as int, n as int));
    let mut out: Vec<char> = Vec::new();
    let mut p: usize = i;
    while p < j
        invariant
            i <= p <= j <= n == s@.len(),
            out@ == s@.subrange(i as int, p as int),
        decreases j - p,
    {
        out.push(s[p]);
        p = p + 1;
        assert(out@ =~= s@.subrange(i as int, p as int));
    }
    assert(trim_nul_end(out@) == out@);
    out
}

/// Splits `s` at every `sep`.
pub fn split_chars(s: &Vec<char>, sep: char) -> (r: Vec<Vec<char>>)
    ensures
        r@.len() == split_on(s@, sep).len(),
        forall|k: int| 0 <= k < r@.len() ==> #[trigger] r@[k]@ == split_on(s@, sep)[k],
{
    let mut out: Vec<Vec<char>> = Vec::new();
    let mut cur: Vec<char> = Vec::new();
    let mut i: usize = 0;
    while i < s.len()
        invariant
            i <= s@.len(),
            out@.len() + 1 == split_on(s@.take(i as int), sep).len(),
            forall|k: int|
                0 <= k < out@.len() ==> #[trigger] out@[k]@ == split_on(s@.take(i as int), sep)[k],
            cur@ == split_on(s@.take(i as int), sep).last(),
        decreases s@.len() - i,
    {
        let c = s[i];
        proof {
            assert(s@.take(i + 1).drop_last() =~= s@.take(i as int));
            lemma_split_on_nonempty(s@.take(i as int), sep);
        }
        if c == sep {
            out.push(cur);
            cur = Vec::new();
            assert(cur@ =~= Seq::<char>::empty());
        } else {
            cur.push(c);
        }
        i = i + 1;
    }
    assert(s@.take(i as int) =~= s@);
    out.push(cur);
    out
}

} // verus!
