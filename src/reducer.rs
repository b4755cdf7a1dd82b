use vstd::prelude::*;

verus! {

/// The decimal digit character for `d < 10`.
pub open spec fn digit_char(d: nat) -> char {
    (('0' as u8) + (d % 10) as u8) as char
}

/// Decimal representation of `n`, without leading zeros.
pub open spec fn decimal(n: nat) -> Seq<char>
    decreases n,
{
    if n < 10 {
        seq![digit_char(n)]
    } else {
        decimal(n / 10).push(digit_char(n % 10))
    }
}

pub open spec fn is_digit(c: char) -> bool {
    '0' <= c && c <= '9'
}

/// `s` is one or more decimal digits.
pub open spec fn all_digits(s: Seq<char>) -> bool {
    s.len() >= 1 && forall|i: int| 0 <= i < s.len() ==> is_digit(#[trigger] s[i])
}

fn digit_str(d: usize) -> (r: &'static str)
    requires
        d < 10,
    ensures
        r@ == seq![digit_char(d as nat)],
{
    proof {
        reveal_strlit("0");
        reveal_strlit("1");
        reveal_strlit("2");
        reveal_strlit("3");
        reveal_strlit("4");
        reveal_strlit("5");
        reveal_strlit("6");
        reveal_strlit("7");
        reveal_strlit("8");
        reveal_strlit("9");
    }
    match d {
        0 => "0",
        1 => "1",
        2 => "2",
        3 => "3",
        4 => "4",
        5 => "5",
        6 => "6",
        7 => "7",
        8 => "8",
        _ => "9",
    }
}

/// Renders `n` in decimal.
pub fn decimal_string(n: usize) -> (r: String)
    ensures
        r@ == decimal(n as nat),
    decreases n,
{
    if n < 10 {
        String::from_str(digit_str(n))
    } else {
        let mut s = decimal_string(n / 10);
        s.append(digit_str(n % 10));
        s
    }
}

/// The short context flag `-U<n>`.
pub open spec fn short_flag(n: nat) -> Seq<char> {
    seq!['-', 'U'] + decimal(n)
}

pub open spec fn long_prefix() -> Seq<char> {
    seq!['-', '-', 'u', 'n', 'i', 'f', 'i', 'e', 'd', '=']
}

/// The long context flag `--unified=<n>`.
pub open spec fn long_flag(n: nat) -> Seq<char> {
    long_prefix() + decimal(n)
}

/// `s` is `-U` immediately followed by one or more digits.
pub open spec fn is_short_form(s: Seq<char>) -> bool {
    s.len() >= 3 && s[0] == '-' && s[1] == 'U' && all_digits(s.skip(2))
}

/// `s` is `--unified=` followed by one or more digits.
pub open spec fn is_long_form(s: Seq<char>) -> bool {
    s.len() > long_prefix().len() && s.take(long_prefix().len() as int) == long_prefix()
        && all_digits(s.skip(long_prefix().len() as int))
}

/// One argument after the context flags are set to `n` lines.
pub open spec fn rewrite_token(s: Seq<char>, n: nat) -> Seq<char> {
    if is_short_form(s) {
        short_flag(n)
    } else if is_long_form(s) {
        long_flag(n)
    } else {
        s
    }
}

/// An argument list after every context flag in it is set to `n` lines.
pub open spec fn rewrite_all(args: Seq<Seq<char>>, n: nat) -> Seq<Seq<char>> {
    args.map_values(|s: Seq<char>| rewrite_token(s, n))
}

/// Whether the characters of `s` from `from` on are one or more digits.
fn digits_from(s: &str, from: usize) -> (r: bool)
    requires
        from <= s@.len(),
    ensures
        r == all_digits(s@.skip(from as int)),
{
    let len = s.unicode_len();
    if from >= len {
        assert(s@.skip(from as int).len() == 0);
        return false;
    }
    let mut i: usize = from;
    while i < len
        invariant
            from <= i <= len,
            len == s@.len(),
            forall|j: int| from <= j < i ==> is_digit(#[trigger] s@[j]),
        decreases len - i,
    {
        let c = s.get_char(i);
        if !('0' <= c && c <= '9') {
            assert(!is_digit(s@.skip(from as int)[i - from]));
            return false;
        }
        i = i + 1;
    }
    assert forall|j: int| 0 <= j < s@.skip(from as int).len() implies is_digit(
        #[trigger] s@.skip(from as int)[j],
    ) by {
        assert(s@.skip(from as int)[j] == s@[j + from]);
    }
    true
}

/// Whether `s` is a short context flag such as `-U3`.
pub fn is_short_flag(s: &str) -> (r: bool)
    ensures
        r == is_short_form(s@),
{
    let len = s.unicode_len();
    if len < 3 {
        return false;
    }
    if s.get_char(0) != '-' || s.get_char(1) != 'U' {
        return false;
    }
    digits_from(s, 2)
}

/// Whether `s` is a long context flag such as `--unified=3`.
pub fn is_long_flag(s: &str) -> (r: bool)
    ensures
        r == is_long_form(s@),
{
    let prefix = "--unified=";
    proof {
        reveal_strlit("--unified=");
        assert(prefix@ =~= long_prefix());
    }
    let len = s.unicode_len();
    if len <= 10 {
        return false;
    }
    let mut i: usize = 0;
    while i < 10
        invariant
            i <= 10,
            len == s@.len(),
            len > 10,
            prefix@ == long_prefix(),
            forall|j: int| 0 <= j < i ==> s@[j] == long_prefix()[j],
        decreases 10 - i,
    {
        if s.get_char(i) != prefix.get_char(i) {
            assert(s@.take(10)[i as int] != long_prefix()[i as int]);
            return false;
        }
        i = i + 1;
    }
    assert(s@.take(10) =~= long_prefix());
    digits_from(s, 10)
}

/// The short context flag for `n` lines.
pub fn short_flag_string(n: usize) -> (r: String)
    ensures
        r@ == short_flag(n as nat),
{
    proof {
        reveal_strlit("-U");
    }
    let mut r = String::from_str("-U");
    let digits = decimal_string(n);
    r.append(digits.as_str());
    r
}

/// The long context flag for `n` lines.
pub fn long_flag_string(n: usize) -> (r: String)
    ensures
        r@ == long_flag(n as nat),
{
    proof {
        reveal_strlit("--unified=");
    }
    let mut r = String::from_str("--unified=");
    let digits = decimal_string(n);
    r.append(digits.as_str());
    r
}

/// One argument with its context-line count, if it is a context flag, set to
/// `n`; any other argument is copied unchanged.
pub fn rewrite_arg(arg: &String, n: usize) -> (r: String)
    ensures
        r@ == rewrite_token(arg@, n as nat),
{
    if is_short_flag(arg.as_str()) {
        short_flag_string(n)
    } else if is_long_flag(arg.as_str()) {
        long_flag_string(n)
    } else {
        arg.clone()
    }
}

/// A new argument list in which every context flag, short or long, carries
/// `n` lines; every other argument is copied unchanged and the order is kept.
pub fn rewrite_args(args: &Vec<String>, n: usize) -> (r: Vec<String>)
    ensures
        r.deep_view() == rewrite_all(args.deep_view(), n as nat),
{
    let mut r: Vec<String> = Vec::new();
    let mut i: usize = 0;
    while i < args.len()
        invariant
            i <= args.len(),
            r@.len() == i,
            forall|j: int| 0 <= j < i ==> (#[trigger] r@[j])@ == rewrite_token(args@[j]@, n as nat),
        decreases args.len() - i,
    {
        let a = rewrite_arg(&args[i], n);
        r.push(a);
        i = i + 1;
    }
    assert(r.deep_view() =~= rewrite_all(args.deep_view(), n as nat));
    r
}

/// The reduced context-line count: the current count scaled by how far the
/// estimate is over the budget, and never below one line.
pub open spec fn reduced_spec(current: nat, max_tokens: nat, estimated_tokens: nat) -> nat
    recommends
        estimated_tokens > 0,
{
    let scaled = current * max_tokens / estimated_tokens;
    if scaled >= 1 {
        scaled
    } else {
        1
    }
}

/// Computes `max(1, current * max_tokens / estimated_tokens)`.
pub fn reduced_context(current: usize, max_tokens: usize, estimated_tokens: usize) -> (r: usize)
    requires
        estimated_tokens > 0,
        current as nat * max_tokens as nat / estimated_tokens as nat <= usize::MAX,
    ensures
        r == reduced_spec(current as nat, max_tokens as nat, estimated_tokens as nat),
{
    let c = current as u128;
    let m = max_tokens as u128;
    proof {
        assert(c * m <= u64::MAX as int * u64::MAX as int) by (nonlinear_arith)
            requires
                c <= u64::MAX,
                m <= u64::MAX,
        ;
    }
    let scaled = (c * m / estimated_tokens as u128) as usize;
    if scaled >= 1 {
        scaled
    } else {
        1
    }
}

/// The reduced argument list for a diff of `estimated_tokens` tokens, or
/// `None` when the estimate is zero and no reduction is needed.
pub open spec fn reduce_spec(
    args: Seq<Seq<char>>,
    current: nat,
    estimated_tokens: nat,
    max_tokens: nat,
) -> Option<Seq<Seq<char>>> {
    if estimated_tokens == 0 {
        None
    } else {
        Some(rewrite_all(args, reduced_spec(current, max_tokens, estimated_tokens)))
    }
}

/// Rewrites the context flags of `args` to the reduced context-line count.
/// An estimate of zero tokens needs no reduction and gives `None`.
pub fn reduce(
    args: &Vec<String>,
    current_context_lines: usize,
    estimated_tokens: usize,
    max_tokens: usize,
) -> (r: Option<Vec<String>>)
    requires
        estimated_tokens == 0 || current_context_lines as nat * max_tokens as nat
            / estimated_tokens as nat <= usize::MAX,
    ensures
        r matches Some(v) ==> reduce_spec(
            args.deep_view(),
            current_context_lines as nat,
            estimated_tokens as nat,
            max_tokens as nat,
        ) == Some(v.deep_view()),
        r is None <==> estimated_tokens == 0,
{
    if estimated_tokens == 0 {
        return None;
    }
    let n = reduced_context(current_context_lines, max_tokens, estimated_tokens);
    Some(rewrite_args(args, n))
}

proof fn lemma_decimal_digits(n: nat)
    ensures
        all_digits(decimal(n)),
    decreases n,
{
    if n >= 10 {
        lemma_decimal_digits(n / 10);
        let d = decimal(n / 10);
        assert forall|i: int| 0 <= i < decimal(n).len() implies is_digit(#[trigger] decimal(n)[i]) by {
            if i < d.len() {
                assert(decimal(n)[i] == d[i]);
            }
        }
    }
}

/// Every context flag written for `n` lines is recognised as a context flag
/// again and keeps its form.
pub proof fn lemma_flags_recognised(n: nat)
    ensures
        is_short_form(short_flag(n)),
        !is_short_form(long_flag(n)),
        is_long_form(long_flag(n)),
{
    lemma_decimal_digits(n);
    assert(short_flag(n).skip(2) =~= decimal(n));
    assert(long_flag(n).take(10) =~= long_prefix());
    assert(long_flag(n).skip(10) =~= decimal(n));
    assert(long_flag(n)[1] == '-');
}

/// Rewriting is order-preserving: the list keeps its length, each context
/// flag is replaced in its own position by the flag of the same form, and
/// every other argument is left exactly as it was.
pub proof fn lemma_rewrite_preserves_others(args: Seq<Seq<char>>, n: nat)
    ensures
        rewrite_all(args, n).len() == args.len(),
        forall|i: int|
            0 <= i < args.len() ==> {
                &&& is_short_form(args[i]) ==> #[trigger] rewrite_all(args, n)[i] == short_flag(n)
                &&& !is_short_form(args[i]) && is_long_form(args[i]) ==> rewrite_all(args, n)[i]
                    == long_flag(n)
                &&& !is_short_form(args[i]) && !is_long_form(args[i]) ==> rewrite_all(args, n)[i]
                    == args[i]
            },
{
}

/// Rewriting twice with the same line count gives the same argument list as
/// rewriting once.
pub proof fn lemma_rewrite_idempotent(args: Seq<Seq<char>>, n: nat)
    ensures
        rewrite_all(rewrite_all(args, n), n) == rewrite_all(args, n),
{
    lemma_flags_recognised(n);
    assert(rewrite_all(rewrite_all(args, n), n) =~= rewrite_all(args, n));
}

/// With at least one context line and an estimate over a positive budget,
/// the reduced count is at least one and at most the current count, and
/// strictly smaller whenever the current count is above one.
pub proof fn lemma_reduction_shrinks(current: nat, max_tokens: nat, estimated_tokens: nat)
    requires
        current >= 1,
        estimated_tokens > max_tokens,
        max_tokens > 0,
    ensures
        reduced_spec(current, max_tokens, estimated_tokens) >= 1,
        reduced_spec(current, max_tokens, estimated_tokens) <= current,
        current > 1 ==> reduced_spec(current, max_tokens, estimated_tokens) < current,
{
    let scaled = current * max_tokens / estimated_tokens;
    assert(current * max_tokens < current * estimated_tokens) by (nonlinear_arith)
        requires
            current >= 1,
            estimated_tokens > max_tokens,
    ;
    assert(scaled < current) by (nonlinear_arith)
        requires
            scaled == current * max_tokens / estimated_tokens,
            current * max_tokens < current * estimated_tokens,
            estimated_tokens > 0,
    ;
}

} // verus!
