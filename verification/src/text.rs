//! Character-level string utilities: equality, decimal parsing, splitting.
use vstd::prelude::*;

verus! {

use vstd::string::StrSliceExecFns;

/// Compare two string slices character by character.
pub fn str_eq(a: &str, b: &str) -> (r: bool)
    ensures
        r == (a@ == b@),
{
    let la = a.unicode_len();
    let lb = b.unicode_len();
    if la != lb {
        return false;
    }
    let mut i: usize = 0;
    while i < la
        invariant
            la == a@.len(),
            la == b@.len(),
            i <= la,
            forall|j: int| 0 <= j < i ==> a@[j] == b@[j],
        decreases la - i,
    {
        if a.get_char(i) != b.get_char(i) {
            return false;
        }
        i += 1;
    }
    proof {
        assert(a@ =~= b@);
    }
    true
}

/// Collect the characters of a string slice into a vector.
pub fn chars_of(s: &str) -> (r: Vec<char>)
    ensures
        r@ == s@,
{
    let len = s.unicode_len();
    let mut out: Vec<char> = Vec::new();
    let mut i: usize = 0;
    while i < len
        invariant
            len == s@.len(),
            i <= len,
            out@ == s@.subrange(0, i as int),
        decreases len - i,
    {
        out.push(s.get_char(i));
        proof {
            assert(out@ =~= s@.subrange(0, i + 1 as int));
        }
        i += 1;
    }
    proof {
        assert(s@.subrange(0, len as int) =~= s@);
    }
    out
}

/// Relies on `String`'s `FromIterator<char>` implementation: collecting an
/// iterator of characters yields a string holding exactly those characters.
#[verifier::external_body]
pub(crate) fn string_of(chars: Vec<char>) -> (r: String)
    ensures
        r@ == chars@,
{
    chars.into_iter().collect()
}

/// An ASCII decimal digit.
pub open spec fn is_digit(c: char) -> bool {
    '0' <= c && c <= '9'
}

/// The numeric value of an ASCII decimal digit.
pub open spec fn digit_val(c: char) -> int {
    c as int - '0' as int
}

pub open spec fn all_digits(s: Seq<char>) -> bool {
    forall|i: int| 0 <= i < s.len() ==> is_digit(#[trigger] s[i])
}

/// The number denoted by a sequence of decimal digits, most significant first.
pub open spec fn digits_val(s: Seq<char>) -> int
    decreases s.len(),
{
    if s.len() == 0 {
        0
    } else {
        digits_val(s.drop_last()) * 10 + digit_val(s.last())
    }
}

proof fn lemma_digits_val_nonneg(s: Seq<char>)
    requires
        all_digits(s),
    ensures
        digits_val(s) >= 0,
    decreases s.len(),
{
    if s.len() > 0 {
        assert(all_digits(s.drop_last())) by {
            assert(forall|i: int|
                0 <= i < s.drop_last().len() ==> #[trigger] s.drop_last()[i] == s[i]);
        }
        lemma_digits_val_nonneg(s.drop_last());
    }
}

proof fn lemma_digits_val_prefix_le(s: Seq<char>, i: int)
    requires
        all_digits(s),
        0 <= i <= s.len(),
    ensures
        digits_val(s.subrange(0, i)) <= digits_val(s),
        digits_val(s.subrange(0, i)) >= 0,
    decreases s.len() - i,
{
    assert(all_digits(s.subrange(0, i)));
    lemma_digits_val_nonneg(s.subrange(0, i));
    if i < s.len() {
        lemma_digits_val_prefix_le(s, i + 1);
        let p1 = s.subrange(0, i + 1);
        assert(p1.drop_last() =~= s.subrange(0, i));
        assert(digits_val(p1) == digits_val(s.subrange(0, i)) * 10 + digit_val(s[i]));
    } else {
        assert(s.subrange(0, i) =~= s);
    }
}

/// What `str::parse::<u32>` accepts: an optional leading `+`, then one or
/// more decimal digits whose value fits in the type.
pub open spec fn parse_u32_spec(s: Seq<char>) -> Option<u32> {
    let body = if s.len() > 0 && s[0] == '+' {
        s.drop_first()
    } else {
        s
    };
    if body.len() > 0 && all_digits(body) && digits_val(body) <= u32::MAX {
        Some(digits_val(body) as u32)
    } else {
        None
    }
}

pub open spec fn parse_u8_spec(s: Seq<char>) -> Option<u8> {
    let body = if s.len() > 0 && s[0] == '+' {
        s.drop_first()
    } else {
        s
    };
    if body.len() > 0 && all_digits(body) && digits_val(body) <= u8::MAX {
        Some(digits_val(body) as u8)
    } else {
        None
    }
}

/// Parse an unsigned 32-bit decimal, as `str::parse::<u32>` does.
pub fn parse_u32(s: &str) -> (r: Option<u32>)
    ensures
        r == parse_u32_spec(s@),
{
    let len = s.unicode_len();
    if len == 0 {
        return None;
    }
    let ghost body: Seq<char> = if s@[0] == '+' {
        s@.drop_first()
    } else {
        s@
    };
    let start: usize = if s.get_char(0) == '+' {
        1
    } else {
        0
    };
    proof {
        assert(forall|j: int|
            0 <= j < body.len() ==> #[trigger] body[j] == s@[j + start]);
    }
    if start == 1 && len == 1 {
        return None;
    }
    let mut acc: u32 = 0;
    let mut i: usize = start;
    while i < len
        invariant
            len == s@.len(),
            start <= i <= len,
            start == 0 || start == 1,
            start == 1 <==> s@[0] == '+',
            body == (if s@[0] == '+' { s@.drop_first() } else { s@ }),
            start + body.len() == len,
            forall|j: int| 0 <= j < body.len() ==> #[trigger] body[j] == s@[j + start],
            all_digits(body.subrange(0, i - start)),
            acc == digits_val(body.subrange(0, i - start)),
        decreases len - i,
    {
        let c = s.get_char(i);
        if c < '0' || c > '9' {
            proof {
                assert(body[i - start] == c);
                assert(!is_digit(c));
                assert(!all_digits(body));
                assert(s@.len() > 0);
                assert(parse_u32_spec(s@) is None);
            }
            return None;
        }
        let d: u32 = (c as u32) - ('0' as u32);
        let ghost pref = body.subrange(0, i - start);
        let ghost pref1 = body.subrange(0, i + 1 - start);
        proof {
            assert(pref1.drop_last() =~= pref);
            assert(pref1.last() == c);
            assert(digits_val(pref1) == digits_val(pref) * 10 + digit_val(c));
            assert(all_digits(pref1));
        }
        if acc > (u32::MAX - d) / 10 {
            proof {
                assert(digits_val(pref1) > u32::MAX) by {
                    assert(acc * 10 + d > u32::MAX);
                };
                if all_digits(body) {
                    lemma_digits_val_prefix_le(body, i + 1 - start);
                    assert(digits_val(body) > u32::MAX);
                }
                assert(parse_u32_spec(s@) is None);
            }
            return None;
        }
        acc = acc * 10 + d;
        i += 1;
    }
    proof {
        assert(body.subrange(0, body.len() as int) =~= body);
    }
    Some(acc)
}

/// Parse an unsigned 8-bit decimal, as `str::parse::<u8>` does.
pub fn parse_u8(s: &str) -> (r: Option<u8>)
    ensures
        r == parse_u8_spec(s@),
{
    match parse_u32(s) {
        Some(v) => {
            proof {
                let body = if s@.len() > 0 && s@[0] == '+' {
                    s@.drop_first()
                } else {
                    s@
                };
                lemma_digits_val_nonneg(body);
                assert(digits_val(body) == v);
            }
            if v <= 255 {
                Some(v as u8)
            } else {
                None
            }
        },
        None => {
            proof {
                let body = if s@.len() > 0 && s@[0] == '+' {
                    s@.drop_first()
                } else {
                    s@
                };
                if body.len() > 0 && all_digits(body) {
                    assert(digits_val(body) > u32::MAX);
                    assert(digits_val(body) > u8::MAX);
                }
                assert(parse_u8_spec(s@) is None);
            }
            None
        },
    }
}

/// Splitting a sequence on a separator, as `str::split` does: splitting the
/// empty sequence yields one empty part; each separator starts a new part.
pub open spec fn split_on(s: Seq<char>, sep: char) -> Seq<Seq<char>>
    decreases s.len(),
{
    if s.len() == 0 {
        seq![Seq::empty()]
    } else if s.last() == sep {
        split_on(s.drop_last(), sep).push(Seq::empty())
    } else {
        let r = split_on(s.drop_last(), sep);
        r.update(r.len() - 1, r.last().push(s.last()))
    }
}

proof fn lemma_split_on_len(s: Seq<char>, sep: char)
    ensures
        split_on(s, sep).len() >= 1,
    decreases s.len(),
{
    if s.len() > 0 {
        lemma_split_on_len(s.drop_last(), sep);
    }
}

/// Split a string on a separator character into its parts.
pub fn split_str(s: &str, sep: char) -> (r: Vec<String>)
    ensures
        r@.len() == split_on(s@, sep).len(),
        forall|i: int| 0 <= i < r@.len() ==> #[trigger] r@[i]@ == split_on(s@, sep)[i],
{
    let len = s.unicode_len();
    let mut done: Vec<String> = Vec::new();
    let mut cur: Vec<char> = Vec::new();
    let mut i: usize = 0;
    while i < len
        invariant
            len == s@.len(),
            i <= len,
            done@.len() + 1 == split_on(s@.subrange(0, i as int), sep).len(),
            forall|j: int|
                0 <= j < done@.len()
                    ==> #[trigger] done@[j]@ == split_on(s@.subrange(0, i as int), sep)[j],
            cur@ == split_on(s@.subrange(0, i as int), sep).last(),
        decreases len - i,
    {
        let ghost pre = s@.subrange(0, i as int);
        let ghost pre1 = s@.subrange(0, i + 1 as int);
        proof {
            assert(pre1.drop_last() =~= pre);
            assert(pre1.last() == s@[i as int]);
            lemma_split_on_len(pre, sep);
        }
        let c = s.get_char(i);
        if c == sep {
            done.push(string_of(cur));
            cur = Vec::new();
        } else {
            cur.push(c);
        }
        i += 1;
    }
    proof {
        assert(s@.subrange(0, len as int) =~= s@);
        lemma_split_on_len(s@, sep);
    }
    done.push(string_of(cur));
    done
}

} // verus!
