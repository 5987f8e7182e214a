//! Small verified text helpers shared across the crate.

use vstd::prelude::*;

verus! {

/// The decimal digit character for a value below ten.
pub open spec fn spec_digit(d: nat) -> char {
    if d == 0 {
        '0'
    } else if d == 1 {
        '1'
    } else if d == 2 {
        '2'
    } else if d == 3 {
        '3'
    } else if d == 4 {
        '4'
    } else if d == 5 {
        '5'
    } else if d == 6 {
        '6'
    } else if d == 7 {
        '7'
    } else if d == 8 {
        '8'
    } else {
        '9'
    }
}

/// The decimal rendering of a natural number, most significant digit first,
/// without leading zeros (a lone zero for zero itself).
pub open spec fn spec_dec(n: nat) -> Seq<char>
    decreases n,
{
    if n < 10 {
        seq![spec_digit(n)]
    } else {
        spec_dec(n / 10) + seq![spec_digit(n % 10)]
    }
}

/// A one-character string slice holding the digit for `d`.
fn digit_str(d: u64) -> (r: &'static str)
    requires
        d < 10,
    ensures
        r@ == seq![spec_digit(d as nat)],
{
    let r: &'static str = match d {
        0 => "0",
        1 => "1",
        2 => "2",
        3 => "3",
        4 => "4",
        5 => "5",
        6 => "6",
        7 => "7",
        8 => "8",
        _ => "9",
    };
    proof {
        reveal_strlit("0");
        reveal_strlit("1");
        reveal_strlit("2");
        reveal_strlit("3");
        reveal_strlit("4");
        reveal_strlit("5");
        reveal_strlit("6");
        reveal_strlit("7");
        reveal_strlit("8");
        reveal_strlit("9");
        assert(r@ =~= seq![spec_digit(d as nat)]);
    }
    r
}

/// The decimal rendering of `n`, zero-padded on the left to at least two
/// characters.
pub open spec fn spec_pad2(n: nat) -> Seq<char> {
    if n < 10 {
        "0"@ + spec_dec(n)
    } else {
        spec_dec(n)
    }
}

/// The decimal rendering of `n`, zero-padded on the left to at least four
/// characters.
pub open spec fn spec_pad4(n: nat) -> Seq<char> {
    if n < 10 {
        "000"@ + spec_dec(n)
    } else if n < 100 {
        "00"@ + spec_dec(n)
    } else if n < 1000 {
        "0"@ + spec_dec(n)
    } else {
        spec_dec(n)
    }
}

/// Renders `n` in decimal, zero-padded to at least two characters.
pub fn pad2(n: u64) -> (r: String)
    ensures
        r@ == spec_pad2(n as nat),
{
    let digits = u64_to_string(n);
    if n < 10 {
        let mut s = String::from_str("0");
        s.append(digits.as_str());
        s
    } else {
        digits
    }
}

/// Renders `n` in decimal, zero-padded to at least four characters.
pub fn pad4(n: u64) -> (r: String)
    ensures
        r@ == spec_pad4(n as nat),
{
    let digits = u64_to_string(n);
    if n < 10 {
        let mut s = String::from_str("000");
        s.append(digits.as_str());
        s
    } else if n < 100 {
        let mut s = String::from_str("00");
        s.append(digits.as_str());
        s
    } else if n < 1000 {
        let mut s = String::from_str("0");
        s.append(digits.as_str());
        s
    } else {
        digits
    }
}

/// Renders `n` in decimal.
pub fn u64_to_string(n: u64) -> (r: String)
    ensures
        r@ == spec_dec(n as nat),
    decreases n,
{
    let d: u64 = n % 10;
    let digit = digit_str(d);
    if n < 10 {
        String::from_str(digit)
    } else {
        let mut s = u64_to_string(n / 10);
        s.append(digit);
        s
    }
}

/// `s` with every occurrence of `pat` removed, scanning left to right
/// without overlap. An empty pattern removes nothing.
pub open spec fn spec_remove_all(s: Seq<char>, pat: Seq<char>) -> Seq<char>
    decreases s.len(),
{
    if pat.len() == 0 || s.len() == 0 {
        s
    } else if s.len() >= pat.len() && s.subrange(0, pat.len() as int) == pat {
        spec_remove_all(s.skip(pat.len() as int), pat)
    } else {
        seq![s[0]] + spec_remove_all(s.drop_first(), pat)
    }
}

/// Whether `pat` stands in `s` at position `i`.
fn match_at(s: &str, s_len: usize, pat: &str, pat_len: usize, i: usize) -> (r: bool)
    requires
        s_len == s@.len(),
        pat_len == pat@.len(),
        i <= s_len,
    ensures
        r == (i + pat@.len() <= s@.len() && s@.subrange(i as int, i as int + pat@.len() as int)
            == pat@),
{
    if pat_len > s_len - i {
        return false;
    }
    let mut k: usize = 0;
    while k < pat_len
        invariant
            s_len == s@.len(),
            pat_len == pat@.len(),
            i + pat_len <= s_len,
            k <= pat_len,
            forall|j: int| 0 <= j < k ==> s@[i + j] == pat@[j],
        decreases pat_len - k,
    {
        if s.get_char(i + k) != pat.get_char(k) {
            proof {
                assert(s@.subrange(i as int, i as int + pat@.len() as int)[k as int] == s@[i + k]);
            }
            return false;
        }
        k = k + 1;
    }
    proof {
        assert(s@.subrange(i as int, i as int + pat@.len() as int) =~= pat@);
    }
    true
}

/// One unfolding step of [`spec_remove_all`] at a position where the
/// pattern does not match.
proof fn lemma_remove_all_no_match(s: Seq<char>, pat: Seq<char>, i: int)
    requires
        0 <= i < s.len(),
        pat.len() > 0,
        !(i + pat.len() <= s.len() && s.subrange(i, i + pat.len() as int) == pat),
    ensures
        spec_remove_all(s.skip(i), pat) == seq![s[i]] + spec_remove_all(s.skip(i + 1), pat),
{
    let t = s.skip(i);
    assert(t.len() == s.len() - i);
    if t.len() >= pat.len() {
        assert(t.subrange(0, pat.len() as int) =~= s.subrange(i, i + pat.len() as int));
        assert(t.subrange(0, pat.len() as int) != pat);
    }
    assert(t[0] == s[i]);
    assert(t.drop_first() =~= s.skip(i + 1));
}

/// One unfolding step of [`spec_remove_all`] at a position where the
/// pattern matches.
proof fn lemma_remove_all_match(s: Seq<char>, pat: Seq<char>, i: int)
    requires
        0 <= i < s.len(),
        pat.len() > 0,
        i + pat.len() <= s.len(),
        s.subrange(i, i + pat.len() as int) == pat,
    ensures
        spec_remove_all(s.skip(i), pat) == spec_remove_all(s.skip(i + pat.len()), pat),
{
    let t = s.skip(i);
    assert(t.subrange(0, pat.len() as int) =~= s.subrange(i, i + pat.len() as int));
    assert(t.skip(pat.len() as int) =~= s.skip(i + pat.len()));
}

/// Removes every occurrence of `pat` from `s`, scanning left to right
/// without overlap.
pub fn remove_all(s: &str, pat: &str) -> (r: String)
    ensures
        r@ == spec_remove_all(s@, pat@),
{
    let s_len = s.unicode_len();
    let pat_len = pat.unicode_len();
    if pat_len == 0 {
        return String::from_str(s);
    }
    let mut out = String::new();
    let mut seg: usize = 0;
    let mut i: usize = 0;
    proof {
        assert(s@.subrange(0, 0) =~= Seq::<char>::empty());
        assert(s@.skip(0) =~= s@);
        assert(out@ + s@.subrange(0, 0) + spec_remove_all(s@.skip(0), pat@) =~= spec_remove_all(
            s@,
            pat@,
        ));
    }
    while i < s_len
        invariant
            s_len == s@.len(),
            pat_len == pat@.len(),
            pat_len > 0,
            seg <= i <= s_len,
            spec_remove_all(s@, pat@) == out@ + s@.subrange(seg as int, i as int)
                + spec_remove_all(s@.skip(i as int), pat@),
        decreases s_len - i,
    {
        if match_at(s, s_len, pat, pat_len, i) {
            let piece = s.substring_char(seg, i);
            out.append(piece);
            proof {
                lemma_remove_all_match(s@, pat@, i as int);
                assert(out@ + s@.subrange(i as int + pat@.len() as int, i as int + pat@.len() as int)
                    + spec_remove_all(s@.skip(i as int + pat@.len()), pat@) =~= out@
                    + spec_remove_all(s@.skip(i as int + pat@.len()), pat@));
                assert(s@.subrange(
                    i as int + pat@.len() as int,
                    i as int + pat@.len() as int,
                ) =~= Seq::<char>::empty());
            }
            i = i + pat_len;
            seg = i;
        } else {
            proof {
                lemma_remove_all_no_match(s@, pat@, i as int);
                assert(s@.subrange(seg as int, i as int) + seq![s@[i as int]] =~= s@.subrange(
                    seg as int,
                    i as int + 1,
                ));
                assert(out@ + s@.subrange(seg as int, i as int) + (seq![s@[i as int]]
                    + spec_remove_all(s@.skip(i as int + 1), pat@)) =~= out@ + s@.subrange(
                    seg as int,
                    i as int + 1,
                ) + spec_remove_all(s@.skip(i as int + 1), pat@));
            }
            i = i + 1;
        }
    }
    let piece = s.substring_char(seg, s_len);
    out.append(piece);
    proof {
        assert(s@.skip(s_len as int) =~= Seq::<char>::empty());
        assert(out@ =~= spec_remove_all(s@, pat@));
    }
    out
}

/// Whether `c` is one of the characters `trim` strips: the Unicode
/// whitespace set.
pub open spec fn spec_is_space(c: char) -> bool {
    let u = c as u32;
    (9 <= u && u <= 13) || u == 32 || u == 0x85 || u == 0xa0 || u == 0x1680 || (0x2000 <= u && u
        <= 0x200a) || u == 0x2028 || u == 0x2029 || u == 0x202f || u == 0x205f || u == 0x3000
}

/// Checks at run time whether `c` is whitespace.
pub fn is_space(c: char) -> (r: bool)
    ensures
        r == spec_is_space(c),
{
    let u = c as u32;
    (9 <= u && u <= 13) || u == 32 || u == 0x85 || u == 0xa0 || u == 0x1680 || (0x2000 <= u && u
        <= 0x200a) || u == 0x2028 || u == 0x2029 || u == 0x202f || u == 0x205f || u == 0x3000
}

/// `s` without its leading whitespace.
pub open spec fn spec_trim_start(s: Seq<char>) -> Seq<char>
    decreases s.len(),
{
    if s.len() > 0 && spec_is_space(s[0]) {
        spec_trim_start(s.drop_first())
    } else {
        s
    }
}

/// `s` without its trailing whitespace.
pub open spec fn spec_trim_end(s: Seq<char>) -> Seq<char>
    decreases s.len(),
{
    if s.len() > 0 && spec_is_space(s[s.len() - 1]) {
        spec_trim_end(s.drop_last())
    } else {
        s
    }
}

/// `s` without leading and trailing whitespace.
pub open spec fn spec_trim(s: Seq<char>) -> Seq<char> {
    spec_trim_end(spec_trim_start(s))
}

/// Skipping a fully-whitespace prefix is what [`spec_trim_start`] does.
proof fn lemma_trim_start_skips(s: Seq<char>, i: int)
    requires
        0 <= i <= s.len(),
        forall|j: int| 0 <= j < i ==> spec_is_space(s[j]),
        i < s.len() ==> !spec_is_space(s[i]),
    ensures
        spec_trim_start(s) == s.skip(i),
    decreases i,
{
    if i == 0 {
        assert(s.skip(0) =~= s);
    } else {
        lemma_trim_start_skips(s.drop_first(), i - 1);
        assert(s.drop_first().skip(i - 1) =~= s.skip(i));
    }
}

/// Taking everything before a fully-whitespace suffix is what
/// [`spec_trim_end`] does.
proof fn lemma_trim_end_takes(s: Seq<char>, e: int)
    requires
        0 <= e <= s.len(),
        forall|j: int| e <= j < s.len() ==> spec_is_space(s[j]),
        e > 0 ==> !spec_is_space(s[e - 1]),
    ensures
        spec_trim_end(s) == s.take(e),
    decreases s.len() - e,
{
    if e == s.len() {
        assert(s.take(e) =~= s);
    } else {
        lemma_trim_end_takes(s.drop_last(), e);
        assert(s.drop_last().take(e) =~= s.take(e));
    }
}

/// Strips leading and trailing whitespace.
pub fn trim(s: &str) -> (r: String)
    ensures
        r@ == spec_trim(s@),
{
    let len = s.unicode_len();
    let mut start: usize = 0;
    while start < len && is_space(s.get_char(start))
        invariant
            len == s@.len(),
            start <= len,
            forall|j: int| 0 <= j < start ==> spec_is_space(s@[j]),
        decreases len - start,
    {
        start = start + 1;
    }
    let mut end: usize = len;
    while end > start && is_space(s.get_char(end - 1))
        invariant
            len == s@.len(),
            start <= end <= len,
            forall|j: int| end <= j < len ==> spec_is_space(s@[j]),
        decreases end,
    {
        end = end - 1;
    }
    let piece = s.substring_char(start, end);
    proof {
        lemma_trim_start_skips(s@, start as int);
        let t = s@.skip(start as int);
        lemma_trim_end_takes(t, end - start);
        assert(t.take(end - start) =~= s@.subrange(start as int, end as int));
    }
    String::from_str(piece)
}

} // verus!
