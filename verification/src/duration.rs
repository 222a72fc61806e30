//! Duration rendering: `H:MM:SS` / `M:SS` strings, live-stream display,
//! and the parser that inverts the formatter.

use vstd::prelude::*;

verus! {

/// The character for one decimal digit.
pub open spec fn spec_digit_char(d: nat) -> char {
    if d == 0 {
        '0'
    } else if d == 1 {
        '1'
    } else if d == 2 {
        '2'
    } else if d == 3 {
        '3'
    } else if d == 4 {
        '4'
    } else if d == 5 {
        '5'
    } else if d == 6 {
        '6'
    } else if d == 7 {
        '7'
    } else if d == 8 {
        '8'
    } else {
        '9'
    }
}

pub open spec fn spec_is_digit_char(c: char) -> bool {
    c == '0' || c == '1' || c == '2' || c == '3' || c == '4' || c == '5' || c == '6' || c == '7'
        || c == '8' || c == '9'
}

/// The numeric value of a decimal digit character; any other character
/// falls into the last branch, and callers guard with `spec_is_digit_char`.
pub open spec fn spec_digit_val(c: char) -> nat {
    if c == '0' {
        0
    } else if c == '1' {
        1
    } else if c == '2' {
        2
    } else if c == '3' {
        3
    } else if c == '4' {
        4
    } else if c == '5' {
        5
    } else if c == '6' {
        6
    } else if c == '7' {
        7
    } else if c == '8' {
        8
    } else {
        9
    }
}

/// Decimal rendering of `n`, most significant digit first, no leading zeros
/// (a lone `0` for zero).
pub open spec fn spec_dec(n: nat) -> Seq<char>
    decreases n,
{
    if n < 10 {
        seq![spec_digit_char(n)]
    } else {
        spec_dec(n / 10).push(spec_digit_char(n % 10))
    }
}

/// Two-digit zero-padded rendering of `n` (intended for `n < 100`).
pub open spec fn spec_pad2(n: nat) -> Seq<char> {
    seq![spec_digit_char(n / 10), spec_digit_char(n % 10)]
}

/// `d` seconds rendered as `H:MM:SS`, or `M:SS` when there is no full hour.
/// The leading unit is not zero-padded; minutes and seconds below the
/// leading unit always take two digits.
pub open spec fn spec_format_duration(d: u64) -> Seq<char> {
    let h = d as nat / 3600;
    let m = (d as nat % 3600) / 60;
    let s = d as nat % 60;
    if h == 0 {
        spec_dec(m) + seq![':'] + spec_pad2(s)
    } else {
        spec_dec(h) + seq![':'] + spec_pad2(m) + seq![':'] + spec_pad2(s)
    }
}

fn push_digit(out: &mut String, d: u64)
    requires
        d < 10,
    ensures
        final(out)@ == old(out)@.push(spec_digit_char(d as nat)),
{
    let s: &str = match d {
        0 => "0",
        1 => "1",
        2 => "2",
        3 => "3",
        4 => "4",
        5 => "5",
        6 => "6",
        7 => "7",
        8 => "8",
        _ => "9",
    };
    proof {
        reveal_strlit("0");
        reveal_strlit("1");
        reveal_strlit("2");
        reveal_strlit("3");
        reveal_strlit("4");
        reveal_strlit("5");
        reveal_strlit("6");
        reveal_strlit("7");
        reveal_strlit("8");
        reveal_strlit("9");
        assert(s@ =~= seq![spec_digit_char(d as nat)]);
    }
    out.append(s);
    proof {
        assert(out@ =~= old(out)@.push(spec_digit_char(d as nat)));
    }
}

fn push_colon(out: &mut String)
    ensures
        final(out)@ == old(out)@.push(':'),
{
    proof {
        reveal_strlit(":");
        assert(":"@ =~= seq![':']);
    }
    out.append(":");
    proof {
        assert(out@ =~= old(out)@.push(':'));
    }
}

/// `n` in decimal, appended to `out`.
fn push_dec(out: &mut String, n: u64)
    ensures
        final(out)@ == old(out)@ + spec_dec(n as nat),
    decreases n,
{
    if n < 10 {
        push_digit(out, n);
        proof {
            assert(out@ =~= old(out)@ + spec_dec(n as nat));
        }
    } else {
        push_dec(out, n / 10);
        push_digit(out, n % 10);
        proof {
            assert(out@ =~= old(out)@ + spec_dec(n as nat));
        }
    }
}

fn push_pad2(out: &mut String, n: u64)
    requires
        n < 100,
    ensures
        final(out)@ == old(out)@ + spec_pad2(n as nat),
{
    push_digit(out, n / 10);
    push_digit(out, n % 10);
    proof {
        assert(out@ =~= old(out)@ + spec_pad2(n as nat));
    }
}

/// `n` in decimal, as a string.
pub fn dec_string(n: u64) -> (r: String)
    ensures
        r@ == spec_dec(n as nat),
{
    let mut out = String::new();
    push_dec(&mut out, n);
    proof {
        assert(out@ =~= spec_dec(n as nat));
    }
    out
}

/// A duration of `d` seconds as a human string: `H:MM:SS`, or `M:SS` when
/// the duration is under one hour.
pub fn format_duration(d: u64) -> (r: String)
    ensures
        r@ == spec_format_duration(d),
{
    let h = d / 3600;
    let m = (d % 3600) / 60;
    let s = d % 60;
    let mut out = String::new();
    if h == 0 {
        push_dec(&mut out, m);
        push_colon(&mut out);
        push_pad2(&mut out, s);
        proof {
            assert(out@ =~= spec_format_duration(d));
        }
    } else {
        push_dec(&mut out, h);
        push_colon(&mut out);
        push_pad2(&mut out, m);
        push_colon(&mut out);
        push_pad2(&mut out, s);
        proof {
            assert(out@ =~= spec_format_duration(d));
        }
    }
    out
}

/// The text shown for a live / indefinite track.
pub open spec fn spec_live_text() -> Seq<char> {
    "LIVE"@
}

/// A duration hint that is absent, or the zero sentinel, marks a live /
/// indefinite stream.
pub open spec fn spec_is_live(d: Option<u64>) -> bool {
    match d {
        None => true,
        Some(secs) => secs == 0,
    }
}

/// Display string and live flag for a track's duration hint.  A live track
/// shows `LIVE` whatever its title; any other track shows its formatted
/// duration.  Pure: the result depends on the hint alone.
pub fn format_duration_live(d: Option<u64>, _title: &str) -> (r: (String, bool))
    ensures
        r.1 == spec_is_live(d),
        spec_is_live(d) ==> r.0@ == spec_live_text(),
        !spec_is_live(d) ==> r.0@ == spec_format_duration(match d {
            Some(secs) => secs,
            None => 0u64,
        }),
{
    match d {
        Some(secs) => {
            if secs == 0 {
                ("LIVE".to_owned(), true)
            } else {
                (format_duration(secs), false)
            }
        },
        None => ("LIVE".to_owned(), true),
    }
}

/// The value of a decimal digit string, most significant digit first.
pub open spec fn spec_digits_val(s: Seq<char>) -> nat
    decreases s.len(),
{
    if s.len() == 0 {
        0
    } else {
        spec_digits_val(s.drop_last()) * 10 + spec_digit_val(s.last())
    }
}

pub open spec fn spec_all_digits(s: Seq<char>) -> bool {
    forall|i: int| 0 <= i < s.len() ==> spec_is_digit_char(#[trigger] s[i])
}

proof fn lemma_spec_dec_digits(n: nat)
    ensures
        spec_dec(n).len() >= 1,
        spec_all_digits(spec_dec(n)),
    decreases n,
{
    if n >= 10 {
        lemma_spec_dec_digits(n / 10);
        assert forall|i: int| 0 <= i < spec_dec(n).len() implies spec_is_digit_char(
            spec_dec(n)[i],
        ) by {
            if i < spec_dec(n / 10).len() {
                assert(spec_dec(n)[i] == spec_dec(n / 10)[i]);
            }
        }
    }
}

proof fn lemma_digit_roundtrip(k: nat)
    requires
        k < 10,
    ensures
        spec_digit_val(spec_digit_char(k)) == k,
{
    if k == 0 {
    } else if k == 1 {
    } else if k == 2 {
    } else if k == 3 {
    } else if k == 4 {
    } else if k == 5 {
    } else if k == 6 {
    } else if k == 7 {
    } else if k == 8 {
    } else {
    }
}

proof fn lemma_val_spec_dec(n: nat)
    ensures
        spec_digits_val(spec_dec(n)) == n,
    decreases n,
{
    reveal_with_fuel(spec_digits_val, 3);
    if n < 10 {
        let s = spec_dec(n);
        assert(s.drop_last() =~= Seq::<char>::empty());
        lemma_digit_roundtrip(n);
    } else {
        lemma_val_spec_dec(n / 10);
        lemma_digit_roundtrip(n % 10);
        let s = spec_dec(n);
        assert(s.drop_last() =~= spec_dec(n / 10));
    }
}

proof fn lemma_val_pad2(n: nat)
    requires
        n < 100,
    ensures
        spec_digits_val(spec_pad2(n)) == n,
{
    reveal_with_fuel(spec_digits_val, 4);
    let s = spec_pad2(n);
    lemma_digit_roundtrip(n / 10);
    lemma_digit_roundtrip(n % 10);
    assert(s.drop_last() =~= seq![spec_digit_char(n / 10)]);
    assert(s.drop_last().drop_last() =~= Seq::<char>::empty());
}

/// Along an all-digit string the value of a prefix never exceeds the value
/// of the whole.
proof fn lemma_val_take_le(s: Seq<char>, j: int)
    requires
        0 <= j <= s.len(),
    ensures
        spec_digits_val(s.take(j)) <= spec_digits_val(s),
    decreases s.len() - j,
{
    if j == s.len() {
        assert(s.take(j) =~= s);
    } else {
        let t = s.take(j + 1);
        assert(t.drop_last() =~= s.take(j));
        assert(spec_digits_val(t) == spec_digits_val(s.take(j)) * 10 + spec_digit_val(s[j]));
        lemma_val_take_le(s, j + 1);
    }
}

/// The characters of `s`, in order.
fn str_chars(s: &str) -> (r: Vec<char>)
    ensures
        r@ == s@,
{
    let n = s.unicode_len();
    let mut v: Vec<char> = Vec::new();
    let mut i: usize = 0;
    while i < n
        invariant
            i <= n,
            n == s@.len(),
            v@ == s@.take(i as int),
        decreases n - i,
    {
        let c = s.get_char(i);
        v.push(c);
        i = i + 1;
        proof {
            assert(v@ =~= s@.take(i as int));
        }
    }
    proof {
        assert(v@ =~= s@);
    }
    v
}

/// Positions of every `:` in `chars`, in increasing order.
fn find_colons(chars: &Vec<char>) -> (r: Vec<usize>)
    ensures
        forall|j: int|
            0 <= j < r@.len() ==> 0 <= #[trigger] r@[j] < chars@.len() && chars@[r@[j] as int]
                == ':',
        forall|i: int|
            0 <= i < chars@.len() && chars@[i] == ':' ==> exists|j: int|
                0 <= j < r@.len() && #[trigger] r@[j] == i,
        forall|j1: int, j2: int| 0 <= j1 < j2 < r@.len() ==> #[trigger] r@[j1] < #[trigger] r@[j2],
{
    let mut r: Vec<usize> = Vec::new();
    let mut i: usize = 0;
    let n = chars.len();
    while i < n
        invariant
            i <= n,
            n == chars@.len(),
            forall|j: int|
                0 <= j < r@.len() ==> 0 <= #[trigger] r@[j] < i && chars@[r@[j] as int] == ':',
            forall|k: int|
                0 <= k < i && chars@[k] == ':' ==> exists|j: int|
                    0 <= j < r@.len() && #[trigger] r@[j] == k,
            forall|j1: int, j2: int|
                0 <= j1 < j2 < r@.len() ==> #[trigger] r@[j1] < #[trigger] r@[j2],
        decreases n - i,
    {
        if chars[i] == ':' {
            let ghost r0 = r@;
            r.push(i);
            proof {
                assert forall|k: int| 0 <= k < i + 1 && chars@[k] == ':' implies exists|j: int|
                    0 <= j < r@.len() && #[trigger] r@[j] == k by {
                    if k == i as int {
                        assert(r@[r@.len() - 1] == i);
                    } else {
                        let j = choose|j: int| 0 <= j < r0.len() && #[trigger] r0[j] == k;
                        assert(r@[j] == k);
                    }
                }
                assert forall|j1: int, j2: int| 0 <= j1 < j2 < r@.len() implies #[trigger] r@[j1]
                    < #[trigger] r@[j2] by {
                    if j2 == r@.len() - 1 {
                        assert(r@[j1] == r0[j1] && r0[j1] < i);
                    } else {
                        assert(r@[j1] == r0[j1] && r@[j2] == r0[j2]);
                    }
                }
            }
        } else {
            proof {
                assert forall|k: int| 0 <= k < i + 1 && chars@[k] == ':' implies exists|j: int|
                    0 <= j < r@.len() && #[trigger] r@[j] == k by {
                    assert(k != i as int);
                }
            }
        }
        i = i + 1;
    }
    r
}

/// The numeric value of one digit character.
fn digit_of(c: char) -> (r: Option<u64>)
    ensures
        match r {
            Some(v) => spec_is_digit_char(c) && v < 10 && v as nat == spec_digit_val(c),
            None => !spec_is_digit_char(c),
        },
{
    match c {
        '0' => Some(0),
        '1' => Some(1),
        '2' => Some(2),
        '3' => Some(3),
        '4' => Some(4),
        '5' => Some(5),
        '6' => Some(6),
        '7' => Some(7),
        '8' => Some(8),
        '9' => Some(9),
        _ => None,
    }
}

/// Reads `chars[from..to]` as an unsigned decimal number.  Fails exactly
/// when the range holds a non-digit or the value does not fit in `u64`.
fn parse_digits(chars: &Vec<char>, from: usize, to: usize) -> (r: Option<u64>)
    requires
        from <= to <= chars@.len(),
    ensures
        match r {
            Some(v) => spec_all_digits(chars@.subrange(from as int, to as int)) && v as nat
                == spec_digits_val(chars@.subrange(from as int, to as int)),
            None => !(spec_all_digits(chars@.subrange(from as int, to as int)) && spec_digits_val(
                chars@.subrange(from as int, to as int),
            ) <= u64::MAX),
        },
{
    let ghost sub = chars@.subrange(from as int, to as int);
    let mut acc: u64 = 0;
    let mut i: usize = from;
    while i < to
        invariant
            from <= i <= to <= chars@.len(),
            sub == chars@.subrange(from as int, to as int),
            spec_all_digits(sub.take(i - from)),
            acc as nat == spec_digits_val(sub.take(i - from)),
        decreases to - i,
    {
        let d = match digit_of(chars[i]) {
            Some(d) => d,
            None => {
                proof {
                    assert(sub[i - from] == chars@[i as int]);
                }
                return None;
            },
        };
        proof {
            assert(sub.take(i + 1 - from).drop_last() =~= sub.take(i - from));
            assert(sub.take(i + 1 - from).last() == chars@[i as int]);
        }
        if acc > (u64::MAX - d) / 10 {
            proof {
                assert(spec_digits_val(sub.take(i + 1 - from)) > u64::MAX);
                if spec_all_digits(sub) {
                    lemma_val_take_le(sub, i + 1 - from);
                }
            }
            return None;
        }
        proof {
            assert(acc * 10 <= (u64::MAX - d) / 10 * 10 <= u64::MAX - d);
        }
        acc = acc * 10 + d;
        i = i + 1;
    }
    proof {
        assert(sub.take(i - from) =~= sub);
    }
    Some(acc)
}

proof fn lemma_digit_char_is_digit(k: nat)
    ensures
        spec_is_digit_char(spec_digit_char(k)),
{
}

/// Structure of a formatted duration: where its colons sit and what its
/// digit fields hold.
proof fn lemma_format_shape(d: u64)
    ensures
        spec_format_duration(d).len() >= 4,
        d < 3600 ==> {
            let s = spec_format_duration(d);
            let p = s.len() - 3;
            &&& s.subrange(0, p) == spec_dec(d as nat / 60)
            &&& s[p] == ':'
            &&& s.subrange(p + 1, s.len() as int) == spec_pad2(d as nat % 60)
            &&& forall|i: int| 0 <= i < s.len() ==> ((s[i] == ':') <==> i == p)
        },
        d >= 3600 ==> {
            let s = spec_format_duration(d);
            let q = s.len() - 6;
            &&& s.subrange(0, q) == spec_dec(d as nat / 3600)
            &&& s[q] == ':'
            &&& s.subrange(q + 1, q + 3) == spec_pad2((d as nat % 3600) / 60)
            &&& s[q + 3] == ':'
            &&& s.subrange(q + 4, s.len() as int) == spec_pad2(d as nat % 60)
            &&& forall|i: int| 0 <= i < s.len() ==> ((s[i] == ':') <==> (i == q || i == q + 3))
        },
{
    let s = spec_format_duration(d);
    let sec = d as nat % 60;
    if d < 3600 {
        let m = (d as nat % 3600) / 60;
        lemma_spec_dec_digits(m);
        let a = spec_dec(m);
        let p = a.len() as int;
        assert(s.len() == a.len() + 3);
        assert(s.subrange(0, p) =~= a);
        assert(s.subrange(p + 1, s.len() as int) =~= spec_pad2(sec));
        assert(d as nat % 3600 == d as nat);
        assert forall|i: int| 0 <= i < s.len() implies ((s[i] == ':') <==> i == p) by {
            if i < p {
                assert(s[i] == a[i]);
                assert(spec_is_digit_char(a[i]));
            } else if i > p {
                lemma_digit_char_is_digit(sec / 10);
                lemma_digit_char_is_digit(sec % 10);
                assert(s[i] == spec_pad2(sec)[i - p - 1]);
            }
        }
    } else {
        let h = d as nat / 3600;
        let m = (d as nat % 3600) / 60;
        lemma_spec_dec_digits(h);
        let a = spec_dec(h);
        let q = a.len() as int;
        assert(s.len() == a.len() + 6);
        assert(s.subrange(0, q) =~= a);
        assert(s.subrange(q + 1, q + 3) =~= spec_pad2(m));
        assert(s.subrange(q + 4, s.len() as int) =~= spec_pad2(sec));
        assert forall|i: int| 0 <= i < s.len() implies ((s[i] == ':') <==> (i == q || i == q
            + 3)) by {
            lemma_digit_char_is_digit(m / 10);
            lemma_digit_char_is_digit(m % 10);
            lemma_digit_char_is_digit(sec / 10);
            lemma_digit_char_is_digit(sec % 10);
            if i < q {
                assert(s[i] == a[i]);
                assert(spec_is_digit_char(a[i]));
            } else if q < i < q + 3 {
                assert(s[i] == spec_pad2(m)[i - q - 1]);
            } else if i > q + 3 {
                assert(s[i] == spec_pad2(sec)[i - q - 4]);
            }
        }
    }
}

fn chars_equal(a: &Vec<char>, b: &Vec<char>) -> (r: bool)
    ensures
        r == (a@ == b@),
{
    if a.len() != b.len() {
        proof {
            assert(a@ != b@);
        }
        return false;
    }
    let n = a.len();
    let mut i: usize = 0;
    while i < n
        invariant
            i <= n,
            n == a@.len() == b@.len(),
            forall|j: int| 0 <= j < i ==> a@[j] == b@[j],
        decreases n - i,
    {
        if a[i] != b[i] {
            return false;
        }
        i = i + 1;
    }
    proof {
        assert(a@ =~= b@);
    }
    true
}

/// Reads a string of the shape the formatter produces, `H:MM:SS` or
/// `M:SS`, back into seconds.  Exactly the formatter's outputs are
/// accepted; every other string is rejected.
pub fn parse_duration(s: &str) -> (r: Option<u64>)
    ensures
        match r {
            Some(d) => s@ == spec_format_duration(d),
            None => forall|d: u64| s@ != #[trigger] spec_format_duration(d),
        },
{
    let chars = str_chars(s);
    let colons = find_colons(&chars);
    let n = chars.len();
    let mut candidate: Option<u64> = None;
    if colons.len() == 1 {
        let c1 = colons[0];
        let a = parse_digits(&chars, 0, c1);
        let b = parse_digits(&chars, c1 + 1, n);
        candidate = match (a, b) {
            (Some(mv), Some(sv)) => match mv.checked_mul(60) {
                Some(x) => x.checked_add(sv),
                None => None,
            },
            _ => None,
        };
        proof {
            assert forall|d: u64| s@ == #[trigger] spec_format_duration(d) implies candidate
                == Some(d) by {
                lemma_format_shape(d);
                if d >= 3600 {
                    let q = s@.len() - 6;
                    let ghost j1 = choose|j: int|
                        0 <= j < colons@.len() && #[trigger] colons@[j] == q;
                    let ghost j2 = choose|j: int|
                        0 <= j < colons@.len() && #[trigger] colons@[j] == q + 3;
                    assert(j1 != j2);
                    assert(false);
                }
                let p = s@.len() - 3;
                assert(colons@[0] == p);
                let m0 = d as nat / 60;
                let sec0 = d as nat % 60;
                lemma_spec_dec_digits(m0);
                lemma_val_spec_dec(m0);
                lemma_val_pad2(sec0);
                assert(chars@.subrange(0, c1 as int) == spec_dec(m0));
                assert(chars@.subrange(c1 as int + 1, n as int) == spec_pad2(sec0));
                assert(m0 < 60);
                assert(a == Some(m0 as u64));
                lemma_digit_char_is_digit(sec0 / 10);
                lemma_digit_char_is_digit(sec0 % 10);
                assert(spec_all_digits(spec_pad2(sec0)));
                assert(b == Some(sec0 as u64));
                assert(m0 * 60 + sec0 == d);
            }
        }
    } else if colons.len() == 2 {
        let c1 = colons[0];
        let c2 = colons[1];
        proof {
            assert(colons@[0] < colons@[1]);
        }
        let a = parse_digits(&chars, 0, c1);
        let b = parse_digits(&chars, c1 + 1, c2);
        let c = parse_digits(&chars, c2 + 1, n);
        candidate = match (a, b, c) {
            (Some(hv), Some(mv), Some(sv)) => match (hv.checked_mul(3600), mv.checked_mul(60)) {
                (Some(x), Some(y)) => match x.checked_add(y) {
                    Some(z) => z.checked_add(sv),
                    None => None,
                },
                _ => None,
            },
            _ => None,
        };
        proof {
            assert forall|d: u64| s@ == #[trigger] spec_format_duration(d) implies candidate
                == Some(d) by {
                lemma_format_shape(d);
                if d < 3600 {
                    let p = s@.len() - 3;
                    assert(colons@[0] == p && colons@[1] == p);
                    assert(false);
                }
                let q = s@.len() - 6;
                assert(colons@[0] == q || colons@[0] == q + 3);
                assert(colons@[1] == q || colons@[1] == q + 3);
                assert(colons@[0] == q && colons@[1] == q + 3);
                let h0 = d as nat / 3600;
                let m0 = (d as nat % 3600) / 60;
                let sec0 = d as nat % 60;
                lemma_spec_dec_digits(h0);
                lemma_val_spec_dec(h0);
                lemma_val_pad2(m0);
                lemma_val_pad2(sec0);
                lemma_digit_char_is_digit(m0 / 10);
                lemma_digit_char_is_digit(m0 % 10);
                lemma_digit_char_is_digit(sec0 / 10);
                lemma_digit_char_is_digit(sec0 % 10);
                assert(chars@.subrange(0, c1 as int) == spec_dec(h0));
                assert(chars@.subrange(c1 as int + 1, c2 as int) == spec_pad2(m0));
                assert(chars@.subrange(c2 as int + 1, n as int) == spec_pad2(sec0));
                assert(h0 <= d);
                assert(a == Some(h0 as u64));
                assert(spec_all_digits(spec_pad2(m0)));
                assert(spec_all_digits(spec_pad2(sec0)));
                assert(b == Some(m0 as u64));
                assert(c == Some(sec0 as u64));
                assert(m0 < 60);
                assert(h0 * 3600 + m0 * 60 + sec0 == d);
            }
        }
    } else {
        proof {
            assert forall|d: u64| s@ == #[trigger] spec_format_duration(d) implies candidate
                == Some(d) by {
                lemma_format_shape(d);
                if d < 3600 {
                    let p = s@.len() - 3;
                    assert(colons@.len() >= 1);
                    assert(forall|j: int| 0 <= j < colons@.len() ==> colons@[j] == p);
                    assert(colons@.len() >= 2 ==> colons@[0] < colons@[1]);
                    assert(false);
                } else {
                    let q = s@.len() - 6;
                    let ghost j1 = choose|j: int|
                        0 <= j < colons@.len() && #[trigger] colons@[j] == q;
                    let ghost j2 = choose|j: int|
                        0 <= j < colons@.len() && #[trigger] colons@[j] == q + 3;
                    assert(j1 != j2);
                    assert(colons@.len() >= 3 ==> {
                        &&& colons@[0] < colons@[1] < colons@[2]
                        &&& (colons@[0] == q || colons@[0] == q + 3)
                        &&& (colons@[1] == q || colons@[1] == q + 3)
                        &&& (colons@[2] == q || colons@[2] == q + 3)
                    });
                    assert(false);
                }
            }
        }
    }
    match candidate {
        None => {
            proof {
                assert forall|d: u64| s@ != #[trigger] spec_format_duration(d) by {
                    if s@ == spec_format_duration(d) {
                        assert(candidate == Some(d));
                    }
                }
            }
            None
        },
        Some(v) => {
            let f = format_duration(v);
            let fchars = str_chars(f.as_str());
            if chars_equal(&chars, &fchars) {
                Some(v)
            } else {
                proof {
                    assert forall|d: u64| s@ != #[trigger] spec_format_duration(d) by {
                        if s@ == spec_format_duration(d) {
                            assert(candidate == Some(d));
                            assert(f@ == spec_format_duration(d));
                        }
                    }
                }
                None
            }
        },
    }
}

/// No two durations format alike: the rendered string determines the
/// seconds exactly.
pub proof fn lemma_format_duration_injective(a: u64, b: u64)
    requires
        spec_format_duration(a) == spec_format_duration(b),
    ensures
        a == b,
{
    lemma_format_shape(a);
    lemma_format_shape(b);
    let s = spec_format_duration(a);
    let n = s.len() as int;
    if a < 3600 && b >= 3600 {
        assert(s[n - 6] == ':');
        assert(false);
    }
    if b < 3600 && a >= 3600 {
        assert(s[n - 6] == ':');
        assert(false);
    }
    if a < 3600 {
        lemma_val_spec_dec(a as nat / 60);
        lemma_val_spec_dec(b as nat / 60);
        lemma_val_pad2(a as nat % 60);
        lemma_val_pad2(b as nat % 60);
        assert(a as nat / 60 == b as nat / 60);
        assert(a as nat % 60 == b as nat % 60);
    } else {
        lemma_val_spec_dec(a as nat / 3600);
        lemma_val_spec_dec(b as nat / 3600);
        lemma_val_pad2((a as nat % 3600) / 60);
        lemma_val_pad2((b as nat % 3600) / 60);
        lemma_val_pad2(a as nat % 60);
        lemma_val_pad2(b as nat % 60);
        assert(a as nat / 3600 == b as nat / 3600);
        assert((a as nat % 3600) / 60 == (b as nat % 3600) / 60);
        assert(a as nat % 60 == b as nat % 60);
    }
}

/// Formatting is stable under a parse round trip: parsing a formatted
/// duration always succeeds and yields the very seconds that were
/// formatted, so formatting the parsed value reproduces the string
/// exactly, at the formatter's seconds resolution.  The argument `r`
/// stands for what `parse_duration` returned on
/// `spec_format_duration(d)`, constrained exactly as that function's
/// contract constrains it.
pub proof fn lemma_format_parse_round_trip(d: u64, r: Option<u64>)
    requires
        match r {
            Some(d2) => spec_format_duration(d) == spec_format_duration(d2),
            None => forall|d2: u64| spec_format_duration(d) != #[trigger] spec_format_duration(
                d2,
            ),
        },
    ensures
        r == Some(d),
        spec_format_duration(match r {
            Some(d2) => d2,
            None => 0u64,
        }) == spec_format_duration(d),
{
    match r {
        Some(d2) => {
            lemma_format_duration_injective(d, d2);
        },
        None => {
            assert(spec_format_duration(d) == spec_format_duration(d));
        },
    }
}

} // verus!
