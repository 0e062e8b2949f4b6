//! Verified string helpers: equality, case-insensitive search, decimal
//! formatting, trimming and splitting.

use vstd::prelude::*;

verus! {

/// Character-for-character equality of two string slices.
pub fn str_eq(a: &str, b: &str) -> (r: bool)
    ensures
        r == (a@ == b@),
{
    let an = a.unicode_len();
    let bn = b.unicode_len();
    if an != bn {
        return false;
    }
    let mut i: usize = 0;
    while i < an
        invariant
            an == a@.len(),
            an == b@.len(),
            i <= an,
            forall|k: int| 0 <= k < i ==> a@[k] == b@[k],
        decreases an - i,
    {
        if a.get_char(i) != b.get_char(i) {
            return false;
        }
        i = i + 1;
    }
    proof {
        assert(a@ =~= b@);
    }
    true
}

/// ASCII upper-case letters.
pub open spec fn is_upper(c: char) -> bool {
    'A' <= c && c <= 'Z'
}

/// ASCII lower-casing of one character; other characters are unchanged.
pub open spec fn lower_char(c: char) -> char {
    if is_upper(c) {
        (((c as u8) + 32) as char)
    } else {
        c
    }
}

/// ASCII lower-casing of a character sequence.
pub open spec fn lower_seq(s: Seq<char>) -> Seq<char> {
    s.map_values(|c: char| lower_char(c))
}

/// `needle` occurs in `hay` starting at position `i`, comparing
/// ASCII-case-insensitively on the `hay` side.
pub open spec fn matches_at(hay: Seq<char>, needle: Seq<char>, i: int) -> bool {
    &&& 0 <= i
    &&& i + needle.len() <= hay.len()
    &&& forall|j: int| 0 <= j < needle.len() ==> lower_char(hay[i + j]) == needle[j]
}

/// `needle` occurs somewhere in `hay`, comparing ASCII-case-insensitively
/// on the `hay` side.
pub open spec fn contains_ci_spec(hay: Seq<char>, needle: Seq<char>) -> bool {
    exists|i: int| matches_at(hay, needle, i)
}

fn lower_char_exec(c: char) -> (r: char)
    ensures
        r == lower_char(c),
{
    if 'A' <= c && c <= 'Z' {
        ((c as u8) + 32) as char
    } else {
        c
    }
}

/// Whether `needle` occurs in `hay`, ignoring ASCII case in `hay`
/// (`needle` is expected already lower-case).
pub fn contains_ci(hay: &str, needle: &str) -> (r: bool)
    ensures
        r == contains_ci_spec(hay@, needle@),
{
    let hn = hay.unicode_len();
    let nn = needle.unicode_len();
    if nn > hn {
        return false;
    }
    let mut i: usize = 0;
    while i <= hn - nn
        invariant
            hn == hay@.len(),
            nn == needle@.len(),
            nn <= hn,
            i <= hn - nn + 1,
            forall|k: int| 0 <= k < i ==> !matches_at(hay@, needle@, k),
        decreases hn - nn + 1 - i,
    {
        let mut j: usize = 0;
        let mut hit = true;
        while j < nn
            invariant
                hn == hay@.len(),
                nn == needle@.len(),
                i + nn <= hn,
                j <= nn,
                hit ==> forall|l: int| 0 <= l < j ==> lower_char(hay@[i + l]) == needle@[l],
                !hit ==> exists|l: int|
                    0 <= l < nn && lower_char(hay@[i + l]) != needle@[l],
            decreases nn - j,
        {
            if lower_char_exec(hay.get_char(i + j)) != needle.get_char(j) {
                proof {
                    assert(lower_char(hay@[i + j]) != needle@[j as int]);
                }
                hit = false;
                j = nn;
            } else {
                j = j + 1;
            }
        }
        if hit {
            assert(matches_at(hay@, needle@, i as int));
            return true;
        }
        proof {
            assert(!matches_at(hay@, needle@, i as int));
        }
        i = i + 1;
    }
    proof {
        assert(forall|k: int| matches_at(hay@, needle@, k) ==> 0 <= k <= hn - nn);
    }
    false
}

/// Whether lower-casing `a` (ASCII-wise) yields exactly `b`.
pub fn str_eq_ci(a: &str, b: &str) -> (r: bool)
    ensures
        r == (lower_seq(a@) == b@),
{
    let an = a.unicode_len();
    let bn = b.unicode_len();
    if an != bn {
        proof {
            assert(lower_seq(a@).len() == a@.len());
        }
        return false;
    }
    let mut i: usize = 0;
    while i < an
        invariant
            an == a@.len(),
            an == b@.len(),
            i <= an,
            forall|k: int| 0 <= k < i ==> lower_char(a@[k]) == b@[k],
        decreases an - i,
    {
        if lower_char_exec(a.get_char(i)) != b.get_char(i) {
            proof {
                assert(lower_seq(a@)[i as int] != b@[i as int]);
            }
            return false;
        }
        i = i + 1;
    }
    proof {
        assert(lower_seq(a@) =~= b@);
    }
    true
}

/// The character for one decimal digit.
pub open spec fn digit_char(d: nat) -> char {
    if d == 0 {
        '0'
    } else if d == 1 {
        '1'
    } else if d == 2 {
        '2'
    } else if d == 3 {
        '3'
    } else if d == 4 {
        '4'
    } else if d == 5 {
        '5'
    } else if d == 6 {
        '6'
    } else if d == 7 {
        '7'
    } else if d == 8 {
        '8'
    } else {
        '9'
    }
}

/// The decimal digits of `n`, most significant first, with no leading
/// zeros (a single `'0'` for zero).
pub open spec fn spec_decimal(n: nat) -> Seq<char>
    decreases n,
{
    if n < 10 {
        seq![digit_char(n)]
    } else {
        spec_decimal(n / 10).push(digit_char(n % 10))
    }
}

fn digit_str(d: u64) -> (r: &'static str)
    requires
        d < 10,
    ensures
        r@ =~= seq![digit_char(d as nat)],
{
    proof {
        reveal_strlit("0");
        reveal_strlit("1");
        reveal_strlit("2");
        reveal_strlit("3");
        reveal_strlit("4");
        reveal_strlit("5");
        reveal_strlit("6");
        reveal_strlit("7");
        reveal_strlit("8");
        reveal_strlit("9");
    }
    if d == 0 {
        "0"
    } else if d == 1 {
        "1"
    } else if d == 2 {
        "2"
    } else if d == 3 {
        "3"
    } else if d == 4 {
        "4"
    } else if d == 5 {
        "5"
    } else if d == 6 {
        "6"
    } else if d == 7 {
        "7"
    } else if d == 8 {
        "8"
    } else {
        "9"
    }
}

/// A decimal digit character.
pub open spec fn is_digit(c: char) -> bool {
    48 <= (c as u32) <= 57
}

pub proof fn lemma_decimal_len(n: nat)
    ensures
        spec_decimal(n).len() >= 1,
    decreases n,
{
    if n >= 10 {
        lemma_decimal_len(n / 10);
    }
}

pub proof fn lemma_decimal_digits(n: nat)
    ensures
        forall|i: int| 0 <= i < spec_decimal(n).len() ==> is_digit(#[trigger] spec_decimal(n)[i]),
    decreases n,
{
    if n < 10 {
        assert(is_digit(digit_char(n)));
    } else {
        lemma_decimal_digits(n / 10);
        assert(is_digit(digit_char(n % 10)));
        assert forall|i: int| 0 <= i < spec_decimal(n).len() implies is_digit(
            #[trigger] spec_decimal(n)[i],
        ) by {
            if i < spec_decimal(n).len() - 1 {
                assert(spec_decimal(n)[i] == spec_decimal(n / 10)[i]);
            }
        }
    }
}

proof fn lemma_digit_char_injective(a: nat, b: nat)
    requires
        a < 10,
        b < 10,
        digit_char(a) == digit_char(b),
    ensures
        a == b,
{
}

/// Two numbers with the same decimal rendering are the same number.
pub proof fn lemma_decimal_injective(m: nat, n: nat)
    requires
        spec_decimal(m) == spec_decimal(n),
    ensures
        m == n,
    decreases m,
{
    lemma_decimal_len(m);
    lemma_decimal_len(n);
    if m < 10 && n < 10 {
        assert(spec_decimal(m) =~= seq![digit_char(m)]);
        assert(spec_decimal(n) =~= seq![digit_char(n)]);
        assert(spec_decimal(m)[0] == digit_char(m));
        assert(spec_decimal(n)[0] == digit_char(n));
        assert(digit_char(m) == digit_char(n));
        lemma_digit_char_injective(m, n);
    } else if m < 10 && n >= 10 {
        lemma_decimal_len(n / 10);
        assert(spec_decimal(m).len() == 1);
        assert(spec_decimal(n).len() >= 2);
    } else if m >= 10 && n < 10 {
        lemma_decimal_len(m / 10);
        assert(spec_decimal(n).len() == 1);
        assert(spec_decimal(m).len() >= 2);
    } else {
        let dm = spec_decimal(m / 10);
        let dn = spec_decimal(n / 10);
        assert(spec_decimal(m).last() == digit_char(m % 10));
        assert(spec_decimal(n).last() == digit_char(n % 10));
        lemma_digit_char_injective(m % 10, n % 10);
        assert(dm =~= spec_decimal(m).drop_last());
        assert(dn =~= spec_decimal(n).drop_last());
        lemma_decimal_injective(m / 10, n / 10);
        vstd::arithmetic::div_mod::lemma_fundamental_div_mod(m as int, 10);
        vstd::arithmetic::div_mod::lemma_fundamental_div_mod(n as int, 10);
    }
}

/// Two numbers with the same signed decimal rendering are the same
/// number.
pub proof fn lemma_signed_decimal_injective(m: int, n: int)
    requires
        spec_signed_decimal(m) == spec_signed_decimal(n),
    ensures
        m == n,
{
    if m >= 0 && n >= 0 {
        lemma_decimal_injective(m as nat, n as nat);
    } else if m < 0 && n < 0 {
        assert(spec_decimal((-m) as nat) =~= spec_signed_decimal(m).drop_first());
        assert(spec_decimal((-n) as nat) =~= spec_signed_decimal(n).drop_first());
        lemma_decimal_injective((-m) as nat, (-n) as nat);
    } else if m >= 0 && n < 0 {
        lemma_decimal_digits(m as nat);
        lemma_decimal_len(m as nat);
        assert(spec_signed_decimal(m)[0] == spec_decimal(m as nat)[0]);
        assert(is_digit(spec_signed_decimal(m)[0]));
        assert(spec_signed_decimal(n)[0] == '-');
        assert(('-' as u32) == 45);
    } else {
        lemma_decimal_digits(n as nat);
        lemma_decimal_len(n as nat);
        assert(spec_signed_decimal(n)[0] == spec_decimal(n as nat)[0]);
        assert(is_digit(spec_signed_decimal(n)[0]));
        assert(spec_signed_decimal(m)[0] == '-');
        assert(('-' as u32) == 45);
    }
}

/// Renders `n` in decimal.
pub fn u64_to_string(n: u64) -> (r: String)
    ensures
        r@ == spec_decimal(n as nat),
    decreases n,
{
    if n < 10 {
        String::from_str(digit_str(n))
    } else {
        let mut s = u64_to_string(n / 10);
        s.append(digit_str(n % 10));
        proof {
            assert(s@ =~= spec_decimal(n as nat));
        }
        s
    }
}

/// The decimal rendering of a possibly negative number.
pub open spec fn spec_signed_decimal(n: int) -> Seq<char> {
    if n >= 0 {
        spec_decimal(n as nat)
    } else {
        seq!['-'] + spec_decimal((-n) as nat)
    }
}

/// Renders `n` in decimal, with a leading `'-'` when negative.
pub fn i64_to_string(n: i64) -> (r: String)
    ensures
        r@ == spec_signed_decimal(n as int),
{
    if n >= 0 {
        u64_to_string(n as u64)
    } else {
        let mag: u64 = ((-(n + 1)) as u64) + 1;
        let mut s = String::from_str("-");
        let digits = u64_to_string(mag);
        s.append(digits.as_str());
        proof {
            reveal_strlit("-");
            assert(s@ =~= spec_signed_decimal(n as int));
        }
        s
    }
}

/// Copies a list of strings.
pub fn clone_strings(v: &Vec<String>) -> (r: Vec<String>)
    ensures
        r@ == v@,
{
    let mut out: Vec<String> = Vec::new();
    let mut i: usize = 0;
    while i < v.len()
        invariant
            i <= v@.len(),
            out@.len() == i,
            forall|k: int| 0 <= k < i ==> out@[k] == v@[k],
        decreases v@.len() - i,
    {
        out.push(v[i].clone());
        i = i + 1;
    }
    proof {
        assert(out@ =~= v@);
    }
    out
}

/// ASCII whitespace, as trimmed from the ends of configured values.
pub open spec fn is_space(c: char) -> bool {
    c == ' ' || c == '\t' || c == '\n' || c == '\r'
}

/// `s` without its leading whitespace.
pub open spec fn trim_front(s: Seq<char>) -> Seq<char>
    decreases s.len(),
{
    if s.len() > 0 && is_space(s[0]) {
        trim_front(s.subrange(1, s.len() as int))
    } else {
        s
    }
}

/// `s` without its trailing whitespace.
pub open spec fn trim_back(s: Seq<char>) -> Seq<char>
    decreases s.len(),
{
    if s.len() > 0 && is_space(s[s.len() - 1]) {
        trim_back(s.subrange(0, s.len() - 1))
    } else {
        s
    }
}

/// `s` without leading and trailing whitespace.
pub open spec fn spec_trim(s: Seq<char>) -> Seq<char> {
    trim_back(trim_front(s))
}

proof fn lemma_trim_front_at(s: Seq<char>, a: int)
    requires
        0 <= a <= s.len(),
        forall|k: int| 0 <= k < a ==> is_space(s[k]),
        a == s.len() || !is_space(s[a]),
    ensures
        trim_front(s) =~= s.subrange(a, s.len() as int),
    decreases a,
{
    if a == 0 {
        if s.len() > 0 && is_space(s[0]) {
            assert(false);
        }
        assert(trim_front(s) =~= s.subrange(0, s.len() as int));
    } else {
        let t = s.subrange(1, s.len() as int);
        lemma_trim_front_at(t, a - 1);
        assert(t.subrange(a - 1, t.len() as int) =~= s.subrange(a, s.len() as int));
    }
}

proof fn lemma_trim_back_at(s: Seq<char>, b: int)
    requires
        0 <= b <= s.len(),
        forall|k: int| b <= k < s.len() ==> is_space(s[k]),
        b == 0 || !is_space(s[b - 1]),
    ensures
        trim_back(s) =~= s.subrange(0, b),
    decreases s.len() - b,
{
    if b == s.len() as int {
        if s.len() > 0 && is_space(s[s.len() - 1]) {
            assert(false);
        }
        assert(trim_back(s) =~= s.subrange(0, b));
    } else {
        let t = s.subrange(0, s.len() - 1);
        lemma_trim_back_at(t, b);
        assert(t.subrange(0, b) =~= s.subrange(0, b));
    }
}

fn is_space_exec(c: char) -> (r: bool)
    ensures
        r == is_space(c),
{
    c == ' ' || c == '\t' || c == '\n' || c == '\r'
}

/// Removes ASCII whitespace from both ends of `s`.
pub fn trim_str(s: &str) -> (r: String)
    ensures
        r@ == spec_trim(s@),
{
    let n = s.unicode_len();
    let mut a: usize = 0;
    while a < n && is_space_exec(s.get_char(a))
        invariant
            n == s@.len(),
            a <= n,
            forall|k: int| 0 <= k < a ==> is_space(s@[k]),
        decreases n - a,
    {
        a = a + 1;
    }
    let mut e: usize = n;
    while e > a && is_space_exec(s.get_char(e - 1))
        invariant
            n == s@.len(),
            a <= e <= n,
            forall|k: int| e <= k < n ==> is_space(s@[k]),
        decreases e,
    {
        e = e - 1;
    }
    proof {
        lemma_trim_front_at(s@, a as int);
        let t = s@.subrange(a as int, n as int);
        lemma_trim_back_at(t, e - a);
        assert(t.subrange(0, e - a) =~= s@.subrange(a as int, e as int));
    }
    let piece = s.substring_char(a, e);
    let r = piece.to_owned();
    proof {
        assert(r@ =~= spec_trim(s@));
    }
    r
}

/// Splitting on commas, carried out left to right: `cur` is the piece
/// accumulated so far.
pub open spec fn split_acc(s: Seq<char>, cur: Seq<char>) -> Seq<Seq<char>>
    decreases s.len(),
{
    if s.len() == 0 {
        seq![cur]
    } else if s[0] == ',' {
        seq![cur] + split_acc(s.subrange(1, s.len() as int), Seq::empty())
    } else {
        split_acc(s.subrange(1, s.len() as int), cur.push(s[0]))
    }
}

/// The pieces of `s` between commas, in order; a string without commas
/// is one piece, and the empty string is one empty piece.
pub open spec fn spec_split(s: Seq<char>) -> Seq<Seq<char>> {
    split_acc(s, Seq::empty())
}

/// Splits `s` on `','`, keeping empty pieces.
pub fn split_commas(s: &str) -> (r: Vec<String>)
    ensures
        r.deep_view() == spec_split(s@),
{
    let n = s.unicode_len();
    let mut out: Vec<String> = Vec::new();
    let mut start: usize = 0;
    let mut i: usize = 0;
    proof {
        assert(s@.subrange(0, n as int) =~= s@);
        assert(s@.subrange(0, 0) =~= Seq::<char>::empty());
        assert(out.deep_view() =~= Seq::<Seq<char>>::empty());
        assert(out.deep_view() + split_acc(s@, Seq::empty()) =~= split_acc(
            s@,
            Seq::empty(),
        ));
    }
    while i < n
        invariant
            n == s@.len(),
            start <= i <= n,
            forall|k: int| start <= k < i ==> s@[k] != ',',
            out.deep_view() + split_acc(
                s@.subrange(i as int, n as int),
                s@.subrange(start as int, i as int),
            ) =~= spec_split(s@),
        decreases n - i,
    {
        let ghost rest = s@.subrange(i as int, n as int);
        let ghost cur = s@.subrange(start as int, i as int);
        let c = s.get_char(i);
        proof {
            assert(rest[0] == s@[i as int]);
            assert(rest.subrange(1, rest.len() as int) =~= s@.subrange(
                i + 1,
                n as int,
            ));
        }
        if c == ',' {
            let piece = s.substring_char(start, i).to_owned();
            let ghost out0 = out.deep_view();
            let ghost tail = split_acc(s@.subrange(i + 1, n as int), Seq::empty());
            proof {
                assert(split_acc(rest, cur) =~= seq![cur] + tail);
            }
            out.push(piece);
            proof {
                assert(out.deep_view() =~= out0.push(cur));
                assert(out0.push(cur) + tail =~= out0 + (seq![cur] + tail));
                assert(out.deep_view() + tail =~= spec_split(s@));
                assert(s@.subrange(i + 1, i + 1) =~= Seq::<char>::empty());
            }
            start = i + 1;
        } else {
            proof {
                assert(cur.push(s@[i as int]) =~= s@.subrange(start as int, i + 1));
                assert(split_acc(rest, cur) == split_acc(
                    s@.subrange(i + 1, n as int),
                    s@.subrange(start as int, i + 1),
                ));
            }
        }
        i = i + 1;
    }
    let last = s.substring_char(start, n).to_owned();
    let ghost out0 = out.deep_view();
    let ghost cur = s@.subrange(start as int, n as int);
    proof {
        assert(s@.subrange(n as int, n as int).len() == 0);
        assert(split_acc(s@.subrange(n as int, n as int), cur) =~= seq![cur]);
    }
    out.push(last);
    proof {
        assert(out.deep_view() =~= out0.push(cur));
        assert(out0.push(cur) =~= out0 + seq![cur]);
        assert(out.deep_view() =~= spec_split(s@));
    }
    out
}

} // verus!
