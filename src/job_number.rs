use vstd::prelude::*;

verus! {

/// Whether `c` is one of the ASCII decimal digits `'0'..='9'`.
pub open spec fn is_digit(c: char) -> bool {
    '0' <= c && c <= '9'
}

/// Every character of `s` is an ASCII decimal digit.
pub open spec fn all_digits(s: Seq<char>) -> bool {
    forall|i: int| 0 <= i < s.len() ==> #[trigger] is_digit(s[i])
}

/// `s` with every character that is not an ASCII digit removed, the digits
/// kept in their order.
pub open spec fn sanitized(s: Seq<char>) -> Seq<char>
    decreases s.len(),
{
    if s.len() == 0 {
        Seq::empty()
    } else {
        let rest = sanitized(s.drop_last());
        if is_digit(s.last()) {
            rest.push(s.last())
        } else {
            rest
        }
    }
}

/// Numeric value of one digit character.
pub open spec fn digit_value(c: char) -> nat {
    (c as u32 - '0' as u32) as nat
}

/// Value of a string of decimal digits, most significant digit first.
pub open spec fn decimal_value(s: Seq<char>) -> nat
    decreases s.len(),
{
    if s.len() == 0 {
        0
    } else {
        decimal_value(s.drop_last()) * 10 + digit_value(s.last())
    }
}

/// What parsing `s` as a job number yields: the number when `s` is a non-empty
/// string of decimal digits whose value fits in a `u64`, and nothing otherwise.
pub open spec fn parse_spec(s: Seq<char>) -> Option<JobNumber> {
    if s.len() > 0 && all_digits(s) && decimal_value(s) <= u64::MAX {
        Some(JobNumber { value: decimal_value(s) as u64 })
    } else {
        None
    }
}

/// Identifier of a job, as typed by the operator.
#[derive(Clone, Copy, Debug, PartialEq, Eq, Hash, Structural)]
pub struct JobNumber {
    pub value: u64,
}

/// Filtering keeps only digits.
pub proof fn lemma_sanitized_all_digits(s: Seq<char>)
    ensures
        all_digits(sanitized(s)),
        sanitized(s).len() <= s.len(),
    decreases s.len(),
{
    if s.len() > 0 {
        lemma_sanitized_all_digits(s.drop_last());
    }
}

/// Filtering a string made of digits alone leaves it as it is.
pub proof fn lemma_sanitized_of_digits(s: Seq<char>)
    requires
        all_digits(s),
    ensures
        sanitized(s) == s,
    decreases s.len(),
{
    if s.len() > 0 {
        let p = s.drop_last();
        assert(all_digits(p)) by {
            assert forall|i: int| 0 <= i < p.len() implies #[trigger] is_digit(p[i]) by {
                assert(p[i] == s[i]);
            }
        }
        lemma_sanitized_of_digits(p);
        assert(is_digit(s[s.len() - 1]));
        assert(p.push(s.last()) =~= s);
    }
}

/// Filtering twice is filtering once, and what comes out holds digits only.
pub proof fn lemma_sanitize_idempotent(s: Seq<char>)
    ensures
        sanitized(sanitized(s)) == sanitized(s),
        all_digits(sanitized(s)),
{
    lemma_sanitized_all_digits(s);
    lemma_sanitized_of_digits(sanitized(s));
}

/// The value of a prefix of a digit string never exceeds the value of the whole.
proof fn lemma_prefix_value_le(s: Seq<char>, i: int)
    requires
        0 <= i <= s.len(),
        all_digits(s),
    ensures
        decimal_value(s.subrange(0, i)) <= decimal_value(s),
    decreases s.len(),
{
    if i < s.len() {
        let p = s.drop_last();
        assert(all_digits(p)) by {
            assert forall|k: int| 0 <= k < p.len() implies #[trigger] is_digit(p[k]) by {
                assert(p[k] == s[k]);
            }
        }
        lemma_prefix_value_le(p, i);
        assert(p.subrange(0, i) =~= s.subrange(0, i));
        assert(decimal_value(s) == decimal_value(p) * 10 + digit_value(s.last()));
    } else {
        assert(s.subrange(0, i) =~= s);
    }
}

/// Removes from `s` every character that is not an ASCII decimal digit.
pub fn sanitize(s: &str) -> (r: String)
    ensures
        r@ == sanitized(s@),
{
    let n = s.unicode_len();
    let mut out = String::new();
    let mut i: usize = 0;
    while i < n
        invariant
            n == s@.len(),
            i <= n,
            out@ == sanitized(s@.subrange(0, i as int)),
        decreases n - i,
    {
        let c = s.get_char(i);
        assert(s@.subrange(0, i + 1).drop_last() =~= s@.subrange(0, i as int));
        if '0' <= c && c <= '9' {
            push_char(&mut out, c);
        }
        i = i + 1;
    }
    assert(s@.subrange(0, n as int) =~= s@);
    out
}

/// Relies on `String::push`: the character is appended at the end.
#[verifier::external_body]
fn push_char(s: &mut String, c: char)
    ensures
        final(s)@ == old(s)@.push(c),
{
    s.push(c)
}

/// Parses `s` as a job number: a non-empty run of decimal digits whose value
/// fits in a `u64`. Any other text gives `None`.
pub fn parse_job_number(s: &str) -> (r: Option<JobNumber>)
    ensures
        r == parse_spec(s@),
{
    let n = s.unicode_len();
    if n == 0 {
        return None;
    }
    let mut i: usize = 0;
    while i < n
        invariant
            n == s@.len(),
            i <= n,
            forall|k: int| 0 <= k < i ==> #[trigger] is_digit(s@[k]),
        decreases n - i,
    {
        let c = s.get_char(i);
        if !('0' <= c && c <= '9') {
            assert(!is_digit(s@[i as int]));
            return None;
        }
        i = i + 1;
    }
    assert(all_digits(s@));
    let mut acc: u64 = 0;
    let mut j: usize = 0;
    while j < n
        invariant
            n == s@.len(),
            j <= n,
            all_digits(s@),
            acc as nat == decimal_value(s@.subrange(0, j as int)),
        decreases n - j,
    {
        let c = s.get_char(j);
        assert(is_digit(s@[j as int]));
        let d: u64 = (c as u32 - '0' as u32) as u64;
        assert(s@.subrange(0, j + 1).drop_last() =~= s@.subrange(0, j as int));
        assert(is_digit(s@[j as int]));
        proof {
            lemma_prefix_value_le(s@, j + 1);
        }
        if acc > (u64::MAX - d) / 10 {
            assert(decimal_value(s@.subrange(0, j + 1)) > u64::MAX) by (nonlinear_arith)
                requires
                    acc > (u64::MAX - d) / 10,
                    decimal_value(s@.subrange(0, j + 1)) == acc * 10 + d,
            ;
            return None;
        }
        assert(acc * 10 + d <= u64::MAX) by (nonlinear_arith)
            requires
                acc <= (u64::MAX - d) / 10,
                d <= 9,
        ;
        acc = acc * 10 + d;
        j = j + 1;
    }
    assert(s@.subrange(0, n as int) =~= s@);
    Some(JobNumber { value: acc })
}

} // verus!
