//! Text helpers: trimming, lower-casing, splitting and number formatting.

use vstd::prelude::*;

verus! {

/// The characters that Unicode gives the `White_Space` property, which is
/// what `char::is_whitespace` tests.
pub open spec fn is_white_space(c: char) -> bool {
    let u = c as u32;
    ||| 0x09 <= u <= 0x0d
    ||| u == 0x20
    ||| u == 0x85
    ||| u == 0xa0
    ||| u == 0x1680
    ||| 0x2000 <= u <= 0x200a
    ||| u == 0x2028
    ||| u == 0x2029
    ||| u == 0x202f
    ||| u == 0x205f
    ||| u == 0x3000
}

/// `s` without its leading white space.
pub open spec fn trim_start_spec(s: Seq<char>) -> Seq<char>
    decreases s.len(),
{
    if s.len() > 0 && is_white_space(s[0]) {
        trim_start_spec(s.drop_first())
    } else {
        s
    }
}

/// `s` without its trailing white space.
pub open spec fn trim_end_spec(s: Seq<char>) -> Seq<char>
    decreases s.len(),
{
    if s.len() > 0 && is_white_space(s.last()) {
        trim_end_spec(s.drop_last())
    } else {
        s
    }
}

/// `s` without its leading and trailing white space.
pub open spec fn trim_spec(s: Seq<char>) -> Seq<char> {
    trim_end_spec(trim_start_spec(s))
}

/// `s` without its trailing slashes.
pub open spec fn trim_trailing_slashes_spec(s: Seq<char>) -> Seq<char>
    decreases s.len(),
{
    if s.len() > 0 && s.last() == '/' {
        trim_trailing_slashes_spec(s.drop_last())
    } else {
        s
    }
}

/// What `str::to_lowercase` returns for a string (Unicode lower-case mapping).
pub uninterp spec fn lowercase_of(s: Seq<char>) -> Seq<char>;

/// Whether `c` is white space (`char::is_whitespace`).
pub fn is_white_space_char(c: char) -> (r: bool)
    ensures
        r == is_white_space(c),
{
    let u = c as u32;
    (0x09 <= u && u <= 0x0d) || u == 0x20 || u == 0x85 || u == 0xa0 || u == 0x1680 || (0x2000 <= u
        && u <= 0x200a) || u == 0x2028 || u == 0x2029 || u == 0x202f || u == 0x205f || u == 0x3000
}

/// `s` without leading and trailing white space, as `str::trim` gives it.
pub fn trim(s: &str) -> (r: &str)
    ensures
        r@ == trim_spec(s@),
{
    let n = s.unicode_len();
    let mut start: usize = 0;
    assert(s@.subrange(0, n as int) =~= s@);
    while start < n && is_white_space_char(s.get_char(start))
        invariant
            n == s@.len(),
            start <= n,
            trim_start_spec(s@) == trim_start_spec(s@.subrange(start as int, n as int)),
        decreases n - start,
    {
        proof {
            let t = s@.subrange(start as int, n as int);
            assert(t[0] == s@[start as int]);
            assert(t.drop_first() =~= s@.subrange(start + 1, n as int));
        }
        start = start + 1;
    }
    proof {
        let t = s@.subrange(start as int, n as int);
        if start < n {
            assert(t[0] == s@[start as int]);
        }
        assert(trim_start_spec(t) == t);
    }
    let mut end: usize = n;
    while end > start && is_white_space_char(s.get_char(end - 1))
        invariant
            n == s@.len(),
            start <= end <= n,
            trim_spec(s@) == trim_end_spec(s@.subrange(start as int, end as int)),
        decreases end,
    {
        proof {
            let t = s@.subrange(start as int, end as int);
            assert(t.last() == s@[end - 1]);
            assert(t.drop_last() =~= s@.subrange(start as int, end - 1));
        }
        end = end - 1;
    }
    proof {
        let t = s@.subrange(start as int, end as int);
        if end > start {
            assert(t.last() == s@[end - 1]);
        }
        assert(trim_end_spec(t) == t);
    }
    s.substring_char(start, end)
}

/// Calls `str::to_lowercase`. Its result is named, not described: the
/// Unicode case mapping is not written out here. Stated from the
/// documentation: each character maps to one or more characters
/// (`char::to_lowercase`), so the result is empty exactly when the input is.
#[verifier::external_body]
pub(crate) fn to_lowercase(s: &str) -> (r: String)
    ensures
        r@ == lowercase_of(s@),
        r@.len() == 0 <==> s@.len() == 0,
{
    s.to_lowercase()
}


/// The decimal digits, then the lower-case hexadecimal ones.
pub open spec fn digit_chars() -> Seq<char> {
    seq!['0', '1', '2', '3', '4', '5', '6', '7', '8', '9', 'a', 'b', 'c', 'd', 'e', 'f']
}

/// The shortest decimal representation of `n`.
pub open spec fn decimal_spec(n: nat) -> Seq<char>
    decreases n,
{
    if n < 10 {
        seq![digit_chars()[n as int]]
    } else {
        decimal_spec(n / 10) + seq![digit_chars()[(n % 10) as int]]
    }
}

/// Each byte as two lower-case hexadecimal digits, high nibble first.
pub open spec fn hex_lower_spec(bytes: Seq<u8>) -> Seq<char>
    decreases bytes.len(),
{
    if bytes.len() == 0 {
        Seq::empty()
    } else {
        seq![digit_chars()[(bytes[0] / 16) as int], digit_chars()[(bytes[0] % 16) as int]]
            + hex_lower_spec(bytes.drop_first())
    }
}

/// The one-character string holding digit `d` of `digit_chars()`.
fn digit_str(d: usize) -> (r: &'static str)
    requires
        d < 16,
    ensures
        r@ == seq![digit_chars()[d as int]],
{
    let digits = "0123456789abcdef";
    proof {
        reveal_strlit("0123456789abcdef");
    }
    assert(digits@ =~= digit_chars());
    let r = digits.substring_char(d, d + 1);
    assert(r@ =~= seq![digit_chars()[d as int]]);
    r
}

/// Formats `n` in decimal, as `u64::to_string` does.
pub fn decimal(n: u64) -> (r: String)
    ensures
        r@ == decimal_spec(n as nat),
    decreases n,
{
    if n < 10 {
        String::from_str(digit_str(n as usize))
    } else {
        let mut r = decimal(n / 10);
        r.append(digit_str((n % 10) as usize));
        r
    }
}

/// Two hexadecimal digits per byte.
pub proof fn lemma_hex_lower_len(bytes: Seq<u8>)
    ensures
        hex_lower_spec(bytes).len() == 2 * bytes.len(),
    decreases bytes.len(),
{
    if bytes.len() > 0 {
        lemma_hex_lower_len(bytes.drop_first());
    }
}

/// Formats `bytes` as lower-case hexadecimal, two digits per byte.
pub fn hex_lower(bytes: &[u8]) -> (r: String)
    ensures
        r@ == hex_lower_spec(bytes@),
        r@.len() == 2 * bytes@.len(),
{
    let mut r = String::new();
    let n = bytes.len();
    let mut i: usize = 0;
    assert(bytes@.skip(0) =~= bytes@);
    assert(r@ + hex_lower_spec(bytes@) =~= hex_lower_spec(bytes@));
    while i < n
        invariant
            n == bytes@.len(),
            i <= n,
            hex_lower_spec(bytes@) == r@ + hex_lower_spec(bytes@.skip(i as int)),
        decreases n - i,
    {
        let b = bytes[i];
        proof {
            assert(bytes@.skip(i as int)[0] == b);
            assert(bytes@.skip(i as int).drop_first() =~= bytes@.skip(i + 1));
        }
        let ghost before = r@;
        r.append(digit_str((b / 16) as usize));
        r.append(digit_str((b % 16) as usize));
        proof {
            let pair = seq![digit_chars()[(b / 16) as int], digit_chars()[(b % 16) as int]];
            assert(r@ =~= before + pair);
            assert(hex_lower_spec(bytes@.skip(i as int)) == pair + hex_lower_spec(
                bytes@.skip(i + 1),
            ));
            assert(before + (pair + hex_lower_spec(bytes@.skip(i + 1))) =~= (before + pair)
                + hex_lower_spec(bytes@.skip(i + 1)));
        }
        i = i + 1;
    }
    assert(bytes@.skip(n as int) =~= Seq::<u8>::empty());
    assert(r@ =~= r@ + hex_lower_spec(bytes@.skip(n as int)));
    proof {
        lemma_hex_lower_len(bytes@);
    }
    r
}

proof fn lemma_trim_slash_step(s: Seq<char>, end: int)
    requires
        0 < end <= s.len(),
        s[end - 1] == '/',
    ensures
        trim_trailing_slashes_spec(s.subrange(0, end)) == trim_trailing_slashes_spec(
            s.subrange(0, end - 1),
        ),
{
    assert(s.subrange(0, end).drop_last() =~= s.subrange(0, end - 1));
}

/// `s` without its trailing slashes, as `str::trim_end_matches('/')` gives it.
pub fn trim_trailing_slashes(s: &str) -> (r: String)
    ensures
        r@ == trim_trailing_slashes_spec(s@),
{
    let n = s.unicode_len();
    let mut end = n;
    assert(s@.subrange(0, n as int) =~= s@);
    while end > 0 && s.get_char(end - 1) == '/'
        invariant
            n == s@.len(),
            end <= n,
            trim_trailing_slashes_spec(s@) == trim_trailing_slashes_spec(s@.subrange(0, end as int)),
        decreases end,
    {
        proof {
            lemma_trim_slash_step(s@, end as int);
        }
        end = end - 1;
    }
    String::from_str(s.substring_char(0, end))
}

/// The pieces of `s` between the commas, as `str::split(',')` yields them.
pub open spec fn split_commas_spec(s: Seq<char>) -> Seq<Seq<char>>
    decreases s.len(),
{
    if s.len() == 0 {
        seq![Seq::empty()]
    } else {
        let init = split_commas_spec(s.drop_last());
        if s.last() == ',' {
            init.push(Seq::empty())
        } else {
            init.update(init.len() - 1, init.last().push(s.last()))
        }
    }
}

proof fn lemma_split_commas_nonempty(s: Seq<char>)
    ensures
        split_commas_spec(s).len() >= 1,
    decreases s.len(),
{
    if s.len() > 0 {
        lemma_split_commas_nonempty(s.drop_last());
    }
}

/// Splits `s` at every comma, keeping empty pieces.
pub fn split_commas(s: &str) -> (r: Vec<String>)
    ensures
        r.deep_view() == split_commas_spec(s@),
{
    let n = s.unicode_len();
    let mut done: Vec<String> = Vec::new();
    let mut start: usize = 0;
    let mut i: usize = 0;
    assert(s@.subrange(0, 0) =~= Seq::<char>::empty());
    assert(done.deep_view().push(s@.subrange(0, 0)) =~= seq![Seq::<char>::empty()]);
    while i < n
        invariant
            n == s@.len(),
            start <= i <= n,
            split_commas_spec(s@.subrange(0, i as int)) == done.deep_view().push(
                s@.subrange(start as int, i as int),
            ),
        decreases n - i,
    {
        let c = s.get_char(i);
        proof {
            let t = s@.subrange(0, i + 1);
            assert(t.drop_last() =~= s@.subrange(0, i as int));
            assert(t.last() == c);
            lemma_split_commas_nonempty(s@.subrange(0, i as int));
        }
        if c == ',' {
            let piece = String::from_str(s.substring_char(start, i));
            let ghost before = done.deep_view();
            done.push(piece);
            proof {
                assert(done.deep_view() =~= before.push(s@.subrange(start as int, i as int)));
                assert(s@.subrange((i + 1) as int, (i + 1) as int) =~= Seq::<char>::empty());
            }
            start = i + 1;
        } else {
            proof {
                assert(s@.subrange(start as int, i + 1) =~= s@.subrange(start as int, i as int).push(c));
            }
        }
        i = i + 1;
        assert(split_commas_spec(s@.subrange(0, i as int)) =~= done.deep_view().push(
            s@.subrange(start as int, i as int),
        ));
    }
    let last = String::from_str(s.substring_char(start, n));
    let ghost before = done.deep_view();
    done.push(last);
    proof {
        assert(done.deep_view() =~= before.push(s@.subrange(start as int, n as int)));
        assert(s@.subrange(0, n as int) =~= s@);
    }
    done
}

} // verus!
