//! Text operations over the characters of a string, with their meaning
//! stated over `Seq<char>`.
use vstd::prelude::*;
use vstd::std_specs::iter::IteratorSpec;
use vstd::string::StrSliceExecFns;
use vstd::string::StringExecFns;
use vstd::string::StringSliceAdditionalSpecFns;

verus! {

broadcast use vstd::string::group_string_axioms;

/// Unicode `White_Space`, the property that `char::is_whitespace` and
/// `str::trim` go by.
pub open spec fn is_white_space(c: char) -> bool {
    let u = c as u32;
    ||| 0x09 <= u <= 0x0d
    ||| u == 0x20
    ||| u == 0x85
    ||| u == 0xa0
    ||| u == 0x1680
    ||| 0x2000 <= u <= 0x200a
    ||| u == 0x2028
    ||| u == 0x2029
    ||| u == 0x202f
    ||| u == 0x205f
    ||| u == 0x3000
}

/// The text is empty once leading and trailing white space is removed.
pub open spec fn is_blank_text(s: Seq<char>) -> bool {
    forall|i: int| 0 <= i < s.len() ==> is_white_space(#[trigger] s[i])
}

/// Whether `c` has the Unicode `White_Space` property.
pub fn is_white_space_char(c: char) -> (r: bool)
    ensures
        r == is_white_space(c),
{
    let u = c as u32;
    (0x09 <= u && u <= 0x0d) || u == 0x20 || u == 0x85 || u == 0xa0 || u == 0x1680 || (0x2000
        <= u && u <= 0x200a) || u == 0x2028 || u == 0x2029 || u == 0x202f || u == 0x205f || u
        == 0x3000
}

/// Whether `s.trim()` is empty: every character of `s` is white space.
pub fn is_blank(s: &str) -> (r: bool)
    ensures
        r == is_blank_text(s@),
{
    let mut chars = s.chars();
    let ghost mut idx: int = 0;
    loop
        invariant
            0 <= idx <= s@.len(),
            chars.remaining() == s@.subrange(idx, s@.len() as int),
            forall|j: int| 0 <= j < idx ==> is_white_space(#[trigger] s@[j]),
        decreases s@.len() - idx,
    {
        let ghost before = chars.remaining();
        match chars.next() {
            Some(c) => {
                proof {
                    assert(before[0] == s@[idx]);
                    assert(chars.remaining() =~= s@.subrange(idx + 1, s@.len() as int));
                }
                if !is_white_space_char(c) {
                    return false;
                }
                proof {
                    idx = idx + 1;
                }
            },
            None => {
                assert(before.len() == 0);
                return true;
            },
        }
    }
}


/// `s` with every trailing `c` removed, as `str::trim_end_matches(c)` gives.
pub open spec fn trim_trailing(s: Seq<char>, c: char) -> Seq<char>
    decreases s.len(),
{
    if s.len() > 0 && s.last() == c {
        trim_trailing(s.drop_last(), c)
    } else {
        s
    }
}

/// `s` with every leading copy of a non-empty `prefix` removed, as
/// `str::trim_start_matches(prefix)` gives.
pub open spec fn strip_leading(s: Seq<char>, prefix: Seq<char>) -> Seq<char>
    decreases s.len(),
{
    if prefix.len() > 0 && prefix.len() <= s.len() && s.take(prefix.len() as int) == prefix {
        strip_leading(s.skip(prefix.len() as int), prefix)
    } else {
        s
    }
}

/// Removing trailing `c` from `s` keeps the first `end` characters when
/// those after them are all `c` and the last kept one is not.
proof fn lemma_trim_trailing_at(s: Seq<char>, c: char, end: int)
    requires
        0 <= end <= s.len(),
        forall|j: int| end <= j < s.len() ==> s[j] == c,
        end == 0 || s[end - 1] != c,
    ensures
        trim_trailing(s, c) == s.take(end),
    decreases s.len(),
{
    if s.len() > end {
        lemma_trim_trailing_at(s.drop_last(), c, end);
        assert(s.drop_last().take(end) =~= s.take(end));
    } else {
        assert(s.take(end) =~= s);
    }
}

/// Whether two strings hold the same characters.
pub fn str_eq(a: &str, b: &str) -> (r: bool)
    ensures
        r == (a@ == b@),
{
    let x = a.as_bytes();
    let y = b.as_bytes();
    proof {
        vstd::utf8::encode_utf8_decode_utf8(a@);
        vstd::utf8::encode_utf8_decode_utf8(b@);
    }
    if x.len() != y.len() {
        return false;
    }
    let mut i: usize = 0;
    while i < x.len()
        invariant
            x@.len() == y@.len(),
            x@ == a.spec_bytes(),
            y@ == b.spec_bytes(),
            i <= x@.len(),
            forall|j: int| 0 <= j < i ==> x@[j] == y@[j],
        decreases x@.len() - i,
    {
        if x[i] != y[i] {
            return false;
        }
        i = i + 1;
    }
    assert(x@ =~= y@);
    true
}

/// Whether `s` begins with the characters of `prefix`.
pub fn starts_with(s: &str, prefix: &str) -> (r: bool)
    ensures
        r == (prefix@.len() <= s@.len() && s@.take(prefix@.len() as int) == prefix@),
{
    let n = s.unicode_len();
    let m = prefix.unicode_len();
    if m > n {
        return false;
    }
    let mut i: usize = 0;
    while i < m
        invariant
            m == prefix@.len(),
            n == s@.len(),
            m <= n,
            i <= m,
            forall|j: int| 0 <= j < i ==> s@[j] == prefix@[j],
        decreases m - i,
    {
        if s.get_char(i) != prefix.get_char(i) {
            assert(s@.take(m as int)[i as int] != prefix@[i as int]);
            return false;
        }
        i = i + 1;
    }
    assert(s@.take(m as int) =~= prefix@);
    true
}

/// `s.trim_end_matches(c)`.
pub fn trim_trailing_char(s: &str, c: char) -> (r: String)
    ensures
        r@ == trim_trailing(s@, c),
{
    let total = s.unicode_len();
    let mut chars = s.chars();
    let ghost mut idx: int = 0;
    let mut count: usize = 0;
    let mut end: usize = 0;
    loop
        invariant
            0 <= idx <= s@.len(),
            total == s@.len(),
            count == idx,
            0 <= end <= idx,
            end == 0 || s@[end - 1] != c,
            forall|j: int| end <= j < idx ==> s@[j] == c,
            chars.remaining() == s@.subrange(idx, s@.len() as int),
        ensures
            idx == s@.len(),
            0 <= end <= s@.len(),
            end == 0 || s@[end - 1] != c,
            forall|j: int| end <= j < s@.len() ==> s@[j] == c,
        decreases s@.len() - idx,
    {
        let ghost before = chars.remaining();
        match chars.next() {
            Some(x) => {
                proof {
                    assert(before[0] == s@[idx]);
                    assert(chars.remaining() =~= s@.subrange(idx + 1, s@.len() as int));
                }
                count = count + 1;
                if x != c {
                    end = count;
                }
                proof {
                    idx = idx + 1;
                }
            },
            None => {
                assert(before.len() == 0);
                break ;
            },
        }
    }
    proof {
        lemma_trim_trailing_at(s@, c, end as int);
    }
    s.substring_char(0, end).to_owned()
}

/// `s.trim_start_matches(prefix)` for a non-empty `prefix`.
pub fn strip_leading_all(s: &str, prefix: &str) -> (r: String)
    requires
        prefix@.len() > 0,
    ensures
        r@ == strip_leading(s@, prefix@),
{
    let mut rest: &str = s;
    let m = prefix.unicode_len();
    loop
        invariant
            m == prefix@.len(),
            m > 0,
            strip_leading(rest@, prefix@) == strip_leading(s@, prefix@),
        decreases rest@.len(),
    {
        if !starts_with(rest, prefix) {
            return rest.to_owned();
        }
        let n = rest.unicode_len();
        rest = rest.substring_char(m, n);
    }
}


/// The ASCII digit for `d < 10`.
pub open spec fn digit_char(d: nat) -> char {
    if d == 0 {
        '0'
    } else if d == 1 {
        '1'
    } else if d == 2 {
        '2'
    } else if d == 3 {
        '3'
    } else if d == 4 {
        '4'
    } else if d == 5 {
        '5'
    } else if d == 6 {
        '6'
    } else if d == 7 {
        '7'
    } else if d == 8 {
        '8'
    } else {
        '9'
    }
}

/// The decimal representation of `n`, without sign or leading zeros.
pub open spec fn decimal(n: nat) -> Seq<char>
    decreases n,
{
    if n < 10 {
        seq![digit_char(n)]
    } else {
        decimal(n / 10) + seq![digit_char(n % 10)]
    }
}

fn digit_str(d: u64) -> (r: &'static str)
    requires
        d < 10,
    ensures
        r@ == seq![digit_char(d as nat)],
{
    proof {
        reveal_strlit("0");
        reveal_strlit("1");
        reveal_strlit("2");
        reveal_strlit("3");
        reveal_strlit("4");
        reveal_strlit("5");
        reveal_strlit("6");
        reveal_strlit("7");
        reveal_strlit("8");
        reveal_strlit("9");
    }
    if d == 0 {
        "0"
    } else if d == 1 {
        "1"
    } else if d == 2 {
        "2"
    } else if d == 3 {
        "3"
    } else if d == 4 {
        "4"
    } else if d == 5 {
        "5"
    } else if d == 6 {
        "6"
    } else if d == 7 {
        "7"
    } else if d == 8 {
        "8"
    } else {
        "9"
    }
}

/// `n` written in decimal, as `n.to_string()` writes it.
pub fn decimal_string(n: u64) -> (r: String)
    ensures
        r@ == decimal(n as nat),
    decreases n,
{
    if n < 10 {
        digit_str(n).to_owned()
    } else {
        let mut r = decimal_string(n / 10);
        r.append(digit_str(n % 10));
        r
    }
}

} // verus!
