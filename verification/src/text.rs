use vstd::prelude::*;

verus! {

/// Compares two strings character by character.
pub fn str_eq(a: &str, b: &str) -> (res: bool)
    ensures
        res == (a@ == b@),
{
    let n = a.unicode_len();
    if n != b.unicode_len() {
        return false;
    }
    let mut i: usize = 0;
    while i < n
        invariant
            n == a@.len(),
            n == b@.len(),
            i <= n,
            a@.take(i as int) == b@.take(i as int),
        decreases n - i,
    {
        if a.get_char(i) != b.get_char(i) {
            assert(a@[i as int] != b@[i as int]);
            return false;
        }
        assert(a@.take(i + 1) == a@.take(i as int).push(a@[i as int]));
        assert(b@.take(i + 1) == b@.take(i as int).push(b@[i as int]));
        i = i + 1;
    }
    assert(a@ == a@.take(n as int));
    assert(b@ == b@.take(n as int));
    true
}

} // verus!

verus! {

/// Every character is an ASCII decimal digit.
pub open spec fn is_decimal_digits(s: Seq<char>) -> bool {
    forall|i: int| 0 <= i < s.len() ==> '0' <= #[trigger] s[i] <= '9'
}

/// The number that a string of decimal digits spells.
pub open spec fn decimal_digits_value(s: Seq<char>) -> int
    decreases s.len(),
{
    if s.len() == 0 {
        0
    } else {
        decimal_digits_value(s.drop_last()) * 10 + (s.last() as int - '0' as int)
    }
}

/// What `i64::from_str` makes of a string: an optional `+` or `-` followed
/// by at least one decimal digit and nothing else, whose value fits in an
/// `i64`.
pub open spec fn i64_from_text(s: Seq<char>) -> Option<i64> {
    let negative = s.len() > 0 && s[0] == '-';
    let body = if s.len() > 0 && (s[0] == '-' || s[0] == '+') { s.drop_first() } else { s };
    let magnitude = decimal_digits_value(body);
    let value = if negative { -magnitude } else { magnitude };
    if body.len() > 0 && is_decimal_digits(body) && i64::MIN <= value <= i64::MAX {
        Some(value as i64)
    } else {
        None
    }
}

/// The decimal digit for `d`.
pub open spec fn digit_char(d: int) -> char {
    ('0' as int + d) as char
}

/// The decimal digits of a natural number, without leading zeros.
pub open spec fn nat_text(n: nat) -> Seq<char>
    decreases n,
{
    if n < 10 {
        seq![digit_char(n as int)]
    } else {
        nat_text(n / 10).push(digit_char(n as int % 10))
    }
}

/// How `Display` writes an integer: a `-` before negative numbers, then
/// the decimal digits of the magnitude.
pub open spec fn int_text(v: int) -> Seq<char> {
    if v < 0 {
        seq!['-'] + nat_text((-v) as nat)
    } else {
        nat_text(v as nat)
    }
}

/// A string of digits spells at least what each of its prefixes spells.
proof fn lemma_digits_value_grows(s: Seq<char>, k: int)
    requires
        is_decimal_digits(s),
        0 <= k <= s.len(),
    ensures
        0 <= decimal_digits_value(s.take(k)) <= decimal_digits_value(s),
    decreases s.len(),
{
    if s.len() > 0 {
        let rest = s.drop_last();
        assert(is_decimal_digits(rest)) by {
            assert forall|i: int| 0 <= i < rest.len() implies '0' <= #[trigger] rest[i] <= '9' by {
                assert(rest[i] == s[i]);
            }
        }
        if k == s.len() {
            assert(s.take(k) =~= s);
            lemma_digits_value_grows(rest, rest.len() as int);
            assert(rest.take(rest.len() as int) =~= rest);
        } else {
            lemma_digits_value_grows(rest, k);
            assert(rest.take(k) =~= s.take(k));
        }
        assert(s.last() == s[s.len() - 1]);
    } else {
        assert(s.take(k) =~= s);
    }
}

/// Reads a decimal integer as `str::parse::<i64>` does: an optional `+` or
/// `-`, then at least one ASCII digit and nothing else, within the range of
/// `i64`.
pub(crate) fn parse_i64(s: &str) -> (res: Option<i64>)
    ensures
        res == i64_from_text(s@),
{
    let n = s.unicode_len();
    let negative = n > 0 && s.get_char(0) == '-';
    let start: usize = if n > 0 && (s.get_char(0) == '-' || s.get_char(0) == '+') {
        1
    } else {
        0
    };
    let ghost body = if s@.len() > 0 && (s@[0] == '-' || s@[0] == '+') {
        s@.drop_first()
    } else {
        s@
    };
    assert(body =~= s@.subrange(start as int, n as int));
    if start == n {
        return None;
    }
    let limit: u64 = if negative {
        9223372036854775808u64
    } else {
        9223372036854775807u64
    };
    let mut acc: u64 = 0;
    let mut i: usize = start;
    while i < n
        invariant
            n == s@.len(),
            start <= i <= n,
            body == s@.subrange(start as int, n as int),
            body == if s@.len() > 0 && (s@[0] == '-' || s@[0] == '+') {
                s@.drop_first()
            } else {
                s@
            },
            is_decimal_digits(body.take(i - start)),
            acc == decimal_digits_value(body.take(i - start)),
            acc <= limit,
            9223372036854775807u64 <= limit <= 9223372036854775808u64,
            negative == (s@.len() > 0 && s@[0] == '-'),
            limit == if negative { 9223372036854775808u64 } else { 9223372036854775807u64 },
        decreases n - i,
    {
        let c = s.get_char(i);
        let ghost k: int = i - start;
        assert(body[k] == c);
        assert(body.take(k + 1).drop_last() =~= body.take(k));
        if c < '0' || c > '9' {
            assert(!('0' <= body[k] <= '9'));
            assert(!is_decimal_digits(body));
            return None;
        }
        assert('0' as u32 <= c as u32 <= '9' as u32);
        let d: u64 = (c as u32 - '0' as u32) as u64;
        assert(d == c as int - '0' as int);
        assert(d <= 9);
        assert(decimal_digits_value(body.take(k + 1)) == acc * 10 + d);
        assert(body.take(k + 1).last() == c);
        if acc > (limit - d) / 10 {
            assert(acc * 10 + d > limit) by (nonlinear_arith)
                requires
                    acc > (limit - d) / 10,
                    d <= 9,
                    d <= limit,
            ;
            proof {
                if is_decimal_digits(body) {
                    lemma_digits_value_grows(body, k + 1);
                }
            }
            return None;
        }
        assert(acc * 10 + d <= limit) by (nonlinear_arith)
            requires
                acc <= (limit - d) / 10,
                d <= 9,
        ;
        acc = acc * 10 + d;
        assert(is_decimal_digits(body.take(k + 1))) by {
            assert forall|j: int| 0 <= j < k + 1 implies '0' <= #[trigger] body.take(k + 1)[j] <= '9' by {
                if j < k {
                    assert(body.take(k + 1)[j] == body.take(k)[j]);
                }
            }
        }
        i = i + 1;
    }
    assert(body.take(n - start) =~= body);
    if negative {
        if acc == 9223372036854775808u64 {
            Some(i64::MIN)
        } else {
            Some(-(acc as i64))
        }
    } else {
        Some(acc as i64)
    }
}

/// The text of one decimal digit.
fn digit_text(d: u64) -> (res: &'static str)
    requires
        d < 10,
    ensures
        res@ == seq![digit_char(d as int)],
{
    proof {
        reveal_strlit("0");
        reveal_strlit("1");
        reveal_strlit("2");
        reveal_strlit("3");
        reveal_strlit("4");
        reveal_strlit("5");
        reveal_strlit("6");
        reveal_strlit("7");
        reveal_strlit("8");
        reveal_strlit("9");
    }
    match d {
        0 => "0",
        1 => "1",
        2 => "2",
        3 => "3",
        4 => "4",
        5 => "5",
        6 => "6",
        7 => "7",
        8 => "8",
        _ => "9",
    }
}

/// The decimal digits of `n`, without leading zeros.
fn nat_to_text(n: u64) -> (res: String)
    ensures
        res@ == nat_text(n as nat),
    decreases n,
{
    if n < 10 {
        owned(digit_text(n))
    } else {
        let mut res = nat_to_text(n / 10);
        res.append(digit_text(n % 10));
        res
    }
}

/// The decimal notation of `v`, as `i64::to_string` writes it: a `-` before
/// a negative number, then the digits of its magnitude.
pub(crate) fn i64_to_text(v: i64) -> (res: String)
    ensures
        res@ == int_text(v as int),
{
    if v < 0 {
        let magnitude: u64 = if v == i64::MIN {
            9223372036854775808u64
        } else {
            (-v) as u64
        };
        proof {
            reveal_strlit("-");
        }
        let mut res = owned("-");
        res.append(nat_to_text(magnitude).as_str());
        res
    } else {
        nat_to_text(v as u64)
    }
}

/// The text of a truth value: `true` or `false`.
pub(crate) fn bool_to_text(v: bool) -> (res: String)
    ensures
        res@ == if v { seq!['t', 'r', 'u', 'e'] } else { seq!['f', 'a', 'l', 's', 'e'] },
{
    proof {
        reveal_strlit("true");
        reveal_strlit("false");
    }
    if v {
        owned("true")
    } else {
        owned("false")
    }
}

/// A copy of `s` as an owned string.
pub fn owned(s: &str) -> (res: String)
    ensures
        res@ == s@,
{
    s.to_owned()
}

/// The characters of `s` from `from` up to `to`.
pub fn slice_chars(s: &str, from: usize, to: usize) -> (res: String)
    requires
        from <= to <= s@.len(),
    ensures
        res@ == s@.subrange(from as int, to as int),
{
    s.substring_char(from, to).to_owned()
}

/// The pieces of `parts` joined with `sep` between each two.
pub open spec fn join_with(parts: Seq<Seq<char>>, sep: Seq<char>) -> Seq<char>
    decreases parts.len(),
{
    if parts.len() == 0 {
        seq![]
    } else if parts.len() == 1 {
        parts[0]
    } else {
        join_with(parts.drop_last(), sep) + sep + parts.last()
    }
}

/// The views of a list of strings.
pub open spec fn string_views(v: Seq<String>) -> Seq<Seq<char>> {
    v.map_values(|s: String| s@)
}

/// Joins `parts` with `sep` between each two.
pub fn join(parts: &[String], sep: &str) -> (res: String)
    ensures
        res@ == join_with(string_views(parts@), sep@),
{
    let mut res = String::new();
    let ghost views = string_views(parts@);
    let mut i: usize = 0;
    while i < parts.len()
        invariant
            i <= parts.len(),
            views == string_views(parts@),
            res@ == join_with(views.take(i as int), sep@),
        decreases parts.len() - i,
    {
        assert(views.take(i + 1).drop_last() == views.take(i as int));
        if i != 0 {
            res.append(sep);
        }
        res.append(parts[i].as_str());
        i = i + 1;
    }
    assert(views.take(parts.len() as int) == views);
    res
}

} // verus!

verus! {

/// The map that inserting the pairs in order builds: a later pair overwrites
/// an earlier one with the same key.
pub open spec fn map_of_pairs<K, V>(pairs: Seq<(K, V)>) -> Map<K, V>
    decreases pairs.len(),
{
    if pairs.len() == 0 {
        Map::empty()
    } else {
        map_of_pairs(pairs.drop_last()).insert(pairs.last().0, pairs.last().1)
    }
}

/// The views of pairs of strings.
pub open spec fn string_pair_views(v: Seq<(String, String)>) -> Seq<(Seq<char>, Seq<char>)> {
    v.map_values(|p: (String, String)| (p.0@, p.1@))
}

/// Looking a key up in the map of pairs finds the last pair with that key;
/// with `at == -1`, no pair has the key and neither has the map.
pub proof fn lookup_last<K, V>(pairs: Seq<(K, V)>, key: K, at: int)
    requires
        -1 <= at < pairs.len(),
        at >= 0 ==> pairs[at].0 == key,
        forall|j: int| at < j < pairs.len() ==> (#[trigger] pairs[j]).0 != key,
    ensures
        at >= 0 ==> map_of_pairs(pairs).contains_key(key) && map_of_pairs(pairs)[key] == pairs[at].1,
        at < 0 ==> !map_of_pairs(pairs).contains_key(key),
    decreases pairs.len(),
{
    if pairs.len() > 0 {
        if at == pairs.len() - 1 {
        } else {
            assert(pairs.last().0 != key);
            let rest = pairs.drop_last();
            assert forall|j: int| at < j < rest.len() implies (#[trigger] rest[j]).0 != key by {
                assert(rest[j] == pairs[j]);
            }
            lookup_last(rest, key, at);
        }
    }
}

/// Copies a list of strings.
pub fn copy_strings(v: &[String]) -> (res: Vec<String>)
    ensures
        string_views(res@) == string_views(v@),
{
    let mut res: Vec<String> = Vec::new();
    let mut i: usize = 0;
    while i < v.len()
        invariant
            i <= v.len(),
            string_views(res@) == string_views(v@).take(i as int),
        decreases v.len() - i,
    {
        let ghost prev = res@;
        assert(prev.len() == i) by {
            assert(string_views(prev).len() == i);
        }
        res.push(v[i].clone());
        assert(string_views(res@) =~= string_views(v@).take(i + 1)) by {
            assert(res@ == prev.push(res@.last()));
        }
        i = i + 1;
    }
    assert(string_views(v@).take(v.len() as int) == string_views(v@));
    res
}

/// Copies a list of string pairs.
pub fn copy_pairs(v: &Vec<(String, String)>) -> (res: Vec<(String, String)>)
    ensures
        string_pair_views(res@) == string_pair_views(v@),
{
    let mut res: Vec<(String, String)> = Vec::new();
    let mut i: usize = 0;
    while i < v.len()
        invariant
            i <= v.len(),
            string_pair_views(res@) == string_pair_views(v@).take(i as int),
        decreases v.len() - i,
    {
        let ghost prev = res@;
        assert(prev.len() == i) by {
            assert(string_pair_views(prev).len() == i);
        }
        res.push((v[i].0.clone(), v[i].1.clone()));
        assert(string_pair_views(res@) =~= string_pair_views(v@).take(i + 1)) by {
            assert(res@ == prev.push(res@.last()));
        }
        i = i + 1;
    }
    assert(string_pair_views(v@).take(v.len() as int) == string_pair_views(v@));
    res
}

} // verus!

verus! {

/// The decimal notation of a natural number is a nonempty string of digits
/// that spells the number.
pub proof fn lemma_nat_text_reads_back(n: nat)
    ensures
        nat_text(n).len() > 0,
        is_decimal_digits(nat_text(n)),
        decimal_digits_value(nat_text(n)) == n,
    decreases n,
{
    if n < 10 {
        assert(digit_char(n as int) as int == '0' as int + n);
        assert(nat_text(n).drop_last() =~= Seq::<char>::empty());
        assert(decimal_digits_value(nat_text(n).drop_last()) == 0);
    } else {
        lemma_nat_text_reads_back(n / 10);
        let d = n as int % 10;
        assert(digit_char(d) as int == '0' as int + d);
        assert(nat_text(n).drop_last() =~= nat_text(n / 10));
        assert(nat_text(n).last() == digit_char(d));
        assert(decimal_digits_value(nat_text(n)) == decimal_digits_value(nat_text(n / 10)) * 10 + d);
        assert(n == (n / 10) * 10 + d);
    }
}

/// What `i64::to_string` writes, `i64::from_str` reads back as the same
/// number.
pub proof fn lemma_int_text_reads_back(v: i64)
    ensures
        i64_from_text(int_text(v as int)) == Some(v),
{
    if v < 0 {
        let m = (-v) as nat;
        lemma_nat_text_reads_back(m);
        let s = int_text(v as int);
        assert(s.drop_first() =~= nat_text(m));
    } else {
        lemma_nat_text_reads_back(v as nat);
        let s = nat_text(v as nat);
        assert('0' <= s[0] <= '9');
    }
}

} // verus!
