use vstd::prelude::*;

verus! {

/// The decimal digit for `d < 10`.
pub open spec fn digit_char(d: nat) -> char {
    if d == 0 { '0' }
    else if d == 1 { '1' }
    else if d == 2 { '2' }
    else if d == 3 { '3' }
    else if d == 4 { '4' }
    else if d == 5 { '5' }
    else if d == 6 { '6' }
    else if d == 7 { '7' }
    else if d == 8 { '8' }
    else { '9' }
}

/// The decimal text of `n`, without leading zeros.
pub open spec fn decimal(n: nat) -> Seq<char>
    decreases n,
{
    if n < 10 {
        seq![digit_char(n)]
    } else {
        decimal(n / 10).push(digit_char(n % 10))
    }
}

/// Whether `pat` occurs in `s` as a contiguous run.
pub open spec fn occurs_in(s: Seq<char>, pat: Seq<char>) -> bool {
    exists|i: int| 0 <= i && i + pat.len() <= s.len() && #[trigger] s.subrange(i, i + pat.len()) == pat
}

/// `s` with every occurrence of `from` replaced by `to`, matching from left
/// to right without overlap.
pub open spec fn replace_all(s: Seq<char>, from: Seq<char>, to: Seq<char>) -> Seq<char>
    decreases s.len(),
{
    if from.len() == 0 || s.len() < from.len() {
        s
    } else if s.subrange(0, from.len() as int) == from {
        to + replace_all(s.subrange(from.len() as int, s.len() as int), from, to)
    } else {
        seq![s[0]] + replace_all(s.subrange(1, s.len() as int), from, to)
    }
}

/// The upstream the proxy forwards to once the origin is bound on `actual`
/// after `requested` was asked for: where the port moved and the configured
/// text names the requested port, each occurrence of that number is replaced
/// by the actual one; otherwise the configured text stands.
pub open spec fn resolved_upstream(configured: Seq<char>, requested: u16, actual: u16) -> Seq<char> {
    if actual != requested && occurs_in(configured, decimal(requested as nat)) {
        replace_all(configured, decimal(requested as nat), decimal(actual as nat))
    } else {
        configured
    }
}

/// Relies on `u16`'s `to_string`: the decimal text of the number.
#[verifier::external_body]
fn port_text(port: u16) -> (r: String)
    ensures
        r@ == decimal(port as nat),
{
    port.to_string()
}

/// Relies on `str::contains`: whether the text holds the pattern.
#[verifier::external_body]
fn text_contains(s: &str, pat: &str) -> (r: bool)
    ensures
        r == occurs_in(s@, pat@),
{
    s.contains(pat)
}

/// Relies on `str::replace`: every match of a non-empty pattern, found left to
/// right without overlap, replaced.
#[verifier::external_body]
fn text_replace(s: &str, from: &str, to: &str) -> (r: String)
    requires
        from@.len() > 0,
    ensures
        r@ == replace_all(s@, from@, to@),
{
    s.replace(from, to)
}

proof fn lemma_decimal_nonempty(n: nat)
    ensures
        decimal(n).len() > 0,
    decreases n,
{
    if n >= 10 {
        lemma_decimal_nonempty(n / 10);
    }
}

/// Computes the upstream the proxy forwards to after the origin was bound on
/// `actual` in place of `requested`.
pub fn resolve_upstream(configured: &str, requested: u16, actual: u16) -> (r: String)
    ensures
        r@ == resolved_upstream(configured@, requested, actual),
        actual == requested ==> r@ == configured@,
        !occurs_in(configured@, decimal(requested as nat)) ==> r@ == configured@,
{
    if actual == requested {
        return String::from_str(configured);
    }
    let from = port_text(requested);
    if text_contains(configured, from.as_str()) {
        let to = port_text(actual);
        proof {
            lemma_decimal_nonempty(requested as nat);
        }
        text_replace(configured, from.as_str(), to.as_str())
    } else {
        String::from_str(configured)
    }
}

} // verus!
