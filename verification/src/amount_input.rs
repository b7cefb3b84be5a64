use vstd::prelude::*;

verus! {

/// `c` is an ASCII decimal digit.
pub open spec fn is_digit(c: char) -> bool {
    '0' <= c <= '9'
}

/// Every character of `s` is a decimal digit.
pub open spec fn all_digits(s: Seq<char>) -> bool {
    forall|i: int| 0 <= i < s.len() ==> #[trigger] is_digit(s[i])
}

/// The number that the decimal digits `s` spell.
pub open spec fn digits_value(s: Seq<char>) -> nat
    decreases s.len(),
{
    if s.len() == 0 {
        0
    } else {
        digits_value(s.drop_last()) * 10 + ((s.last() as int - '0' as int) as nat)
    }
}

/// The part of `s` after an optional leading `+`.
pub open spec fn unsigned_digits(s: Seq<char>) -> Seq<char> {
    if s.len() > 0 && s[0] == '+' { s.subrange(1, s.len() as int) } else { s }
}

/// What `str::parse::<u32>` gives for `s`: an optional leading `+`, then at
/// least one decimal digit, and a value that fits in a `u32`.
pub open spec fn spec_parse_u32(s: Seq<char>) -> Option<u32> {
    let d = unsigned_digits(s);
    if (d.len() > 0 && all_digits(d) && digits_value(d) <= u32::MAX) {
        Some(digits_value(d) as u32)
    } else {
        None
    }
}

/// Appending digits never makes the value smaller.
proof fn lemma_digits_grow(s: Seq<char>, n: int)
    requires
        0 <= n <= s.len(),
        all_digits(s),
    ensures
        digits_value(s.subrange(0, n)) <= digits_value(s),
    decreases s.len() - n,
{
    if n < s.len() {
        lemma_digits_grow(s, n + 1);
        let p = s.subrange(0, n + 1);
        assert(p.drop_last() == s.subrange(0, n));
        assert(is_digit(s[n]));
    } else {
        assert(s.subrange(0, n) == s);
    }
}

/// Reads a typed amount as `str::parse::<u32>` would.
pub fn parse_u32(input: &Vec<char>) -> (r: Option<u32>)
    ensures
        r == spec_parse_u32(input@),
{
    let ghost s = input@;
    let start: usize = if input.len() > 0 && input[0] == '+' { 1 } else { 0 };
    let ghost d = unsigned_digits(s);
    assert(d == s.subrange(start as int, s.len() as int));
    if start >= input.len() {
        return None;
    }
    let mut value: u64 = 0;
    let mut i: usize = start;
    while i < input.len()
        invariant
            start <= i <= input@.len(),
            s == input@,
            d == s.subrange(start as int, s.len() as int),
            d == unsigned_digits(s),
            all_digits(s.subrange(start as int, i as int)),
            value == digits_value(s.subrange(start as int, i as int)),
            value <= u32::MAX,
        decreases input@.len() - i,
    {
        let c = input[i];
        let ghost pre = s.subrange(start as int, i as int);
        let ghost post = s.subrange(start as int, i + 1);
        assert(post.drop_last() == pre);
        if !('0' <= c && c <= '9') {
            proof {
                assert(d[i - start] == c);
                assert(!is_digit(d[i - start]));
            }
            return None;
        }
        let digit = (c as u32 - '0' as u32) as u64;
        value = value * 10 + digit;
        proof {
            assert(post.last() == c);
            assert(value == digits_value(post));
            assert(all_digits(post)) by {
                assert forall|j: int| 0 <= j < post.len() implies #[trigger] is_digit(post[j]) by {
                    if j < pre.len() {
                        assert(post[j] == pre[j]);
                    }
                }
            }
        }
        if value > 0xffff_ffff {
            proof {
                if all_digits(d) {
                    lemma_digits_grow(d, (i + 1 - start) as int);
                    assert(d.subrange(0, (i + 1 - start) as int) == post);
                }
            }
            return None;
        }
        i = i + 1;
    }
    assert(s.subrange(start as int, s.len() as int) == d);
    Some(value as u32)
}

} // verus!
