use vstd::prelude::*;

verus! {

/// True when every character of `s` is an ASCII decimal digit.
pub open spec fn all_digits(s: Seq<char>) -> bool {
    forall|i: int| 0 <= i < s.len() ==> '0' <= #[trigger] s[i] && s[i] <= '9'
}

/// The value of a string of decimal digits, most significant first.
pub open spec fn digits_value(s: Seq<char>) -> nat
    decreases s.len(),
{
    if s.len() == 0 {
        0
    } else {
        digits_value(s.drop_last()) * 10 + ((s.last() as nat) - ('0' as nat)) as nat
    }
}

/// The digits of a number: the text without one optional leading `+`.
pub open spec fn unsigned_digits(s: Seq<char>) -> Seq<char> {
    if s.len() > 0 && s[0] == '+' {
        s.skip(1)
    } else {
        s
    }
}

/// The unsigned 32-bit number that `s` spells: an optional `+`, then one or
/// more decimal digits whose value fits in `u32`; `None` for any other text.
pub open spec fn decimal_of(s: Seq<char>) -> Option<u32> {
    let d = unsigned_digits(s);
    if d.len() > 0 && all_digits(d) && digits_value(d) <= u32::MAX {
        Some(digits_value(d) as u32)
    } else {
        None
    }
}

/// What `str::trim` leaves of a text.
pub uninterp spec fn trimmed(s: Seq<char>) -> Seq<char>;

/// Relies on `str::trim`: the text without leading and trailing whitespace,
/// which depends on the characters alone.
#[verifier::external_body]
fn trim(s: &str) -> (r: &str)
    ensures
        r@ == trimmed(s@),
{
    s.trim()
}

/// Reads an unsigned 32-bit number from text that holds nothing else.
pub fn parse_number(t: &str) -> (r: Option<u32>)
    ensures
        r == decimal_of(t@),
{
    let n = t.unicode_len();
    let mut start: usize = 0;
    if n > 0 && t.get_char(0) == '+' {
        start = 1;
    }
    let ghost d = unsigned_digits(t@);
    assert(d == t@.subrange(start as int, n as int));
    if start >= n {
        return None;
    }
    let mut value: u32 = 0;
    let mut i: usize = start;
    while i < n
        invariant
            start <= i <= n,
            n == t@.len(),
            d == t@.subrange(start as int, n as int),
            d == unsigned_digits(t@),
            all_digits(t@.subrange(start as int, i as int)),
            value as nat == digits_value(t@.subrange(start as int, i as int)),
        decreases n - i,
    {
        let c = t.get_char(i);
        let ghost prefix = t@.subrange(start as int, i as int);
        let ghost next = t@.subrange(start as int, i + 1);
        assert(next.drop_last() == prefix);
        assert(next.last() == c);
        if c < '0' || c > '9' {
            assert(!all_digits(d)) by {
                assert(d[i - start] == t@[i as int]);
            }
            assert(decimal_of(t@) == None::<u32>);
            return None;
        }
        let digit: u32 = (c as u32) - ('0' as u32);
        if value > 429496729 || (value == 429496729 && digit > 5) {
            proof {
                assert(all_digits(next));
                assert(digits_value(next) == value * 10 + digit);
                assert(digits_value(next) > u32::MAX) by (nonlinear_arith)
                    requires
                        digits_value(next) == value * 10 + digit,
                        value > 429496729 || (value == 429496729 && digit > 5),
                ;
                if all_digits(d) {
                    assert(d.subrange(0, i + 1 - start) == next);
                    lemma_digits_value_grows(d, (i + 1 - start) as int);
                }
                assert(decimal_of(t@) == None::<u32>);
            }
            return None;
        }
        value = value * 10 + digit;
        i = i + 1;
    }
    assert(t@.subrange(start as int, n as int) == d);
    Some(value)
}

/// A prefix of a digit string is worth no more than the whole.
proof fn lemma_digits_value_grows(s: Seq<char>, k: int)
    requires
        0 <= k <= s.len(),
        all_digits(s),
    ensures
        digits_value(s.subrange(0, k)) <= digits_value(s),
    decreases s.len() - k,
{
    if k < s.len() {
        lemma_digits_value_grows(s, k + 1);
        let a = s.subrange(0, k + 1);
        assert(a.drop_last() == s.subrange(0, k));
        assert('0' <= a.last());
    } else {
        assert(s.subrange(0, k) == s);
    }
}

/// Reads an unsigned 32-bit number from one line of input, ignoring the
/// whitespace around it and the line's end.
pub fn parse_line(line: &str) -> (r: Option<u32>)
    ensures
        r == decimal_of(trimmed(line@)),
{
    parse_number(trim(line))
}

} // verus!
