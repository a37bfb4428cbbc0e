use vstd::prelude::*;

verus! {

/// The decimal digits of a number, most significant first.
pub open spec fn spec_u64_digits(n: u64) -> Seq<char>
    decreases n,
{
    let d = spec_digit_char((n % 10) as int);
    if n < 10 {
        seq![d]
    } else {
        spec_u64_digits(n / 10) + seq![d]
    }
}

pub open spec fn spec_digit_char(d: int) -> char {
    if d == 0 {
        '0'
    } else if d == 1 {
        '1'
    } else if d == 2 {
        '2'
    } else if d == 3 {
        '3'
    } else if d == 4 {
        '4'
    } else if d == 5 {
        '5'
    } else if d == 6 {
        '6'
    } else if d == 7 {
        '7'
    } else if d == 8 {
        '8'
    } else {
        '9'
    }
}

fn digit_str(d: u64) -> (r: &'static str)
    requires
        d < 10,
    ensures
        r@ == seq![spec_digit_char(d as int)],
{
    proof {
        reveal_strlit("0");
        reveal_strlit("1");
        reveal_strlit("2");
        reveal_strlit("3");
        reveal_strlit("4");
        reveal_strlit("5");
        reveal_strlit("6");
        reveal_strlit("7");
        reveal_strlit("8");
        reveal_strlit("9");
    }
    let r = if d == 0 {
        "0"
    } else if d == 1 {
        "1"
    } else if d == 2 {
        "2"
    } else if d == 3 {
        "3"
    } else if d == 4 {
        "4"
    } else if d == 5 {
        "5"
    } else if d == 6 {
        "6"
    } else if d == 7 {
        "7"
    } else if d == 8 {
        "8"
    } else {
        "9"
    };
    proof {
        assert(r@ =~= seq![spec_digit_char(d as int)]);
    }
    r
}

/// Appends the decimal form of a number.
pub fn append_u64(out: &mut String, n: u64)
    ensures
        final(out)@ == old(out)@ + spec_u64_digits(n),
    decreases n,
{
    if n >= 10 {
        append_u64(out, n / 10);
    }
    out.append(digit_str(n % 10));
    proof {
        if n < 10 {
            assert(final(out)@ =~= old(out)@ + spec_u64_digits(n));
        } else {
            assert(final(out)@ =~= old(out)@ + spec_u64_digits(n));
        }
    }
}

/// The decimal form of a number.
pub fn u64_to_string(n: u64) -> (r: String)
    ensures
        r@ == spec_u64_digits(n),
{
    let mut out = String::new();
    append_u64(&mut out, n);
    proof {
        assert(Seq::<char>::empty() + spec_u64_digits(n) =~= spec_u64_digits(n));
    }
    out
}

/// The decimal form of a signed number, with its sign.
pub open spec fn spec_i32_digits(n: i32) -> Seq<char> {
    if n < 0 {
        seq!['-'] + spec_u64_digits(((n as int) * -1) as u64)
    } else {
        spec_u64_digits(n as u64)
    }
}

/// The decimal form of a signed number.
pub fn i32_to_string(n: i32) -> (r: String)
    ensures
        r@ == spec_i32_digits(n),
{
    if n < 0 {
        proof {
            reveal_strlit("-");
        }
        let mut out = String::from_str("-");
        let magnitude: u64 = if n == i32::MIN {
            2147483648u64
        } else {
            (-n) as u64
        };
        append_u64(&mut out, magnitude);
        proof {
            assert("-"@ =~= seq!['-']);
        }
        out
    } else {
        u64_to_string(n as u64)
    }
}

/// The whitespace characters trimming removes.
pub open spec fn spec_is_ws(c: char) -> bool {
    c == ' ' || c == '\t' || c == '\n' || c == '\r'
}

pub open spec fn spec_trim_start(s: Seq<char>) -> Seq<char>
    decreases s.len(),
{
    if s.len() > 0 && spec_is_ws(s[0]) {
        spec_trim_start(s.skip(1))
    } else {
        s
    }
}

pub open spec fn spec_trim_end(s: Seq<char>) -> Seq<char>
    decreases s.len(),
{
    if s.len() > 0 && spec_is_ws(s[s.len() - 1]) {
        spec_trim_end(s.take(s.len() - 1))
    } else {
        s
    }
}

/// The text with leading and trailing whitespace removed.
pub open spec fn spec_trim(s: Seq<char>) -> Seq<char> {
    spec_trim_end(spec_trim_start(s))
}

fn is_ws(c: char) -> (r: bool)
    ensures
        r == spec_is_ws(c),
{
    c == ' ' || c == '\t' || c == '\n' || c == '\r'
}

/// Trims leading and trailing whitespace.
#[verifier::loop_isolation(false)]
pub fn str_trim(s: &str) -> (r: String)
    ensures
        r@ == spec_trim(s@),
{
    let len = s.unicode_len();
    let mut start: usize = 0;
    proof {
        assert(s@.skip(0) =~= s@);
    }
    while start < len && is_ws(s.get_char(start))
        invariant
            0 <= start <= len,
            spec_trim_start(s@) == spec_trim_start(s@.skip(start as int)),
        decreases len - start,
    {
        proof {
            assert(s@.skip(start as int)[0] == s@[start as int]);
            assert(s@.skip(start as int).skip(1) =~= s@.skip(start as int + 1));
        }
        start = start + 1;
    }
    proof {
        if start < len {
            assert(s@.skip(start as int)[0] == s@[start as int]);
        }
        assert(spec_trim_start(s@) == s@.skip(start as int));
    }
    let mut end: usize = len;
    while end > start && is_ws(s.get_char(end - 1))
        invariant
            start <= end <= len,
            spec_trim_end(s@.skip(start as int)) == spec_trim_end(
                s@.subrange(start as int, end as int),
            ),
        decreases end,
    {
        proof {
            let cur = s@.subrange(start as int, end as int);
            assert(cur[cur.len() - 1] == s@[end - 1]);
            assert(cur.take(cur.len() - 1) =~= s@.subrange(start as int, end as int - 1));
        }
        end = end - 1;
    }
    proof {
        let cur = s@.subrange(start as int, end as int);
        if end > start {
            assert(cur[cur.len() - 1] == s@[end - 1]);
        }
        assert(spec_trim_end(cur) == cur);
        assert(s@.skip(start as int) =~= s@.subrange(start as int, s@.len() as int));
    }
    let out = s.substring_char(start, end);
    out.to_owned()
}

/// The trimmed text, when anything is left of it.
pub open spec fn spec_nonempty_trim(t: Seq<char>) -> Option<Seq<char>> {
    if spec_trim(t).len() > 0 {
        Some(spec_trim(t))
    } else {
        None
    }
}

/// Trims, and keeps only a non-empty remainder.
pub fn nonempty_trim(t: &str) -> (r: Option<String>)
    ensures
        r.deep_view() == spec_nonempty_trim(t@),
{
    let trimmed = str_trim(t);
    if trimmed.as_str().is_empty() {
        None
    } else {
        Some(trimmed)
    }
}

/// Whether one sequence is a prefix of another.
pub open spec fn is_prefix_of(p: Seq<char>, s: Seq<char>) -> bool {
    p.len() <= s.len() && s.subrange(0, p.len() as int) == p
}

/// Whether `s` begins with `pre`.
pub fn str_starts_with(s: &str, pre: &str) -> (r: bool)
    ensures
        r == is_prefix_of(pre@, s@),
{
    let slen = s.unicode_len();
    let plen = pre.unicode_len();
    if plen > slen {
        return false;
    }
    let head = s.substring_char(0, plen);
    crate::json::str_eq(head, pre)
}

/// The delta between two successive partial results: where the prior text is
/// a prefix of the next, what follows it; anywhere else, the whole next text.
pub open spec fn spec_delta(previous: Seq<char>, next: Seq<char>) -> Seq<char> {
    if is_prefix_of(previous, next) {
        next.skip(previous.len() as int)
    } else {
        next
    }
}

/// The delta between two successive partial results.
pub fn delta_from_partial(previous: &str, next: &str) -> (r: String)
    ensures
        r@ == spec_delta(previous@, next@),
{
    if str_starts_with(next, previous) {
        let nlen = next.unicode_len();
        let plen = previous.unicode_len();
        let tail = next.substring_char(plen, nlen);
        proof {
            assert(next@.subrange(previous@.len() as int, next@.len() as int) =~= next@.skip(
                previous@.len() as int,
            ));
        }
        tail.to_owned()
    } else {
        next.to_owned()
    }
}

/// The position of the first slash, if any.
pub open spec fn spec_first_slash(s: Seq<char>) -> Option<int>
    decreases s.len(),
{
    if s.len() == 0 {
        None
    } else if s[0] == '/' {
        Some(0)
    } else {
        match spec_first_slash(s.skip(1)) {
            Some(i) => Some(i + 1),
            None => None,
        }
    }
}

proof fn lemma_first_slash_found(s: Seq<char>, i: int)
    requires
        0 <= i < s.len(),
        s[i] == '/',
        forall|j: int| 0 <= j < i ==> s[j] != '/',
    ensures
        spec_first_slash(s) == Some(i),
    decreases i,
{
    if i > 0 {
        assert(forall|j: int| 0 <= j < s.skip(1).len() ==> s.skip(1)[j] == s[j + 1]);
        lemma_first_slash_found(s.skip(1), i - 1);
    }
}

proof fn lemma_first_slash_none(s: Seq<char>)
    requires
        forall|j: int| 0 <= j < s.len() ==> s[j] != '/',
    ensures
        spec_first_slash(s) is None,
    decreases s.len(),
{
    if s.len() > 0 {
        assert(forall|j: int| 0 <= j < s.skip(1).len() ==> s.skip(1)[j] == s[j + 1]);
        lemma_first_slash_none(s.skip(1));
    }
}

/// Splits a model string at its first slash into a provider and a model id;
/// a string without one names only the model.
#[verifier::loop_isolation(false)]
pub fn split_model(model: &str) -> (r: (Option<String>, String))
    ensures
        match spec_first_slash(model@) {
            Some(i) => r.0.deep_view() == Some(model@.take(i)) && r.1@ == model@.skip(i + 1),
            None => r.0 is None && r.1@ == model@,
        },
{
    let len = model.unicode_len();
    let mut i: usize = 0;
    while i < len
        invariant
            0 <= i <= len,
            len as int == model@.len(),
            forall|j: int| 0 <= j < i ==> model@[j] != '/',
        decreases len - i,
    {
        if model.get_char(i) == '/' {
            proof {
                lemma_first_slash_found(model@, i as int);
            }
            let provider = model.substring_char(0, i).to_owned();
            let rest = model.substring_char(i + 1, len).to_owned();
            proof {
                assert(model@.subrange(0, i as int) =~= model@.take(i as int));
                assert(model@.subrange(i as int + 1, model@.len() as int) =~= model@.skip(
                    i as int + 1,
                ));
            }
            return (Some(provider), rest);
        }
        i = i + 1;
    }
    proof {
        lemma_first_slash_none(model@);
    }
    (None, model.to_owned())
}

} // verus!
