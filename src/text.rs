//! Text for people: decimal numbers, durations and lists of names.

use vstd::prelude::*;

verus! {

/// The decimal digits of `n`, most significant first, with no leading zeros
/// (zero is the single digit `0`).
pub open spec fn decimal(n: nat) -> Seq<char>
    decreases n,
{
    if n < 10 {
        seq![digit_char(n)]
    } else {
        decimal(n / 10).push(digit_char(n % 10))
    }
}

/// The character of a single decimal digit.
pub open spec fn digit_char(d: nat) -> char {
    if d == 0 { '0' }
    else if d == 1 { '1' }
    else if d == 2 { '2' }
    else if d == 3 { '3' }
    else if d == 4 { '4' }
    else if d == 5 { '5' }
    else if d == 6 { '6' }
    else if d == 7 { '7' }
    else if d == 8 { '8' }
    else { '9' }
}

fn digit_text(d: u8) -> (r: &'static str)
    requires
        d < 10,
    ensures
        r@ == seq![digit_char(d as nat)],
{
    proof {
        reveal_strlit("0");
        reveal_strlit("1");
        reveal_strlit("2");
        reveal_strlit("3");
        reveal_strlit("4");
        reveal_strlit("5");
        reveal_strlit("6");
        reveal_strlit("7");
        reveal_strlit("8");
        reveal_strlit("9");
    }
    if d == 0 { "0" }
    else if d == 1 { "1" }
    else if d == 2 { "2" }
    else if d == 3 { "3" }
    else if d == 4 { "4" }
    else if d == 5 { "5" }
    else if d == 6 { "6" }
    else if d == 7 { "7" }
    else if d == 8 { "8" }
    else { "9" }
}

/// Appends the decimal digits of `n` to `out`.
pub fn push_decimal(out: &mut String, n: u128)
    ensures
        final(out)@ == old(out)@ + decimal(n as nat),
    decreases n,
{
    if n < 10 {
        out.append(digit_text(n as u8));
    } else {
        push_decimal(out, n / 10);
        out.append(digit_text((n % 10) as u8));
    }
}


/// The digits of `n` (below 1000) written with exactly three characters,
/// zeros in front where needed.
pub open spec fn three_digits(n: nat) -> Seq<char> {
    seq![digit_char(n / 100), digit_char((n / 10) % 10), digit_char(n % 10)]
}

/// How a span of `nanos` nanoseconds is shown: below one second in
/// milliseconds, otherwise in seconds, each with three decimals rounded to
/// the nearest unit (ties upward).
pub open spec fn duration_text(nanos: nat) -> Seq<char> {
    if nanos < 1_000_000_000 {
        let micros = (nanos + 500) / 1000;
        decimal(micros / 1000) + seq!['.'] + three_digits(micros % 1000) + seq![' ', 'm', 's']
    } else {
        let millis = (nanos + 500_000) / 1_000_000;
        decimal(millis / 1000) + seq!['.'] + three_digits(millis % 1000) + seq![' ', 's']
    }
}

/// How a span of `secs` seconds and `nanos` nanoseconds is shown.
pub open spec fn span_text(secs: u64, nanos: u32) -> Seq<char> {
    duration_text(secs as nat * 1_000_000_000 + nanos as nat)
}

fn push_three_digits(out: &mut String, n: u128)
    requires
        n < 1000,
    ensures
        final(out)@ == old(out)@ + three_digits(n as nat),
{
    out.append(digit_text((n / 100) as u8));
    out.append(digit_text(((n / 10) % 10) as u8));
    out.append(digit_text((n % 10) as u8));
}

/// Shows the span of `secs` seconds and `nanos` nanoseconds.
pub fn format_seconds(secs: u64, nanos: u32) -> (r: String)
    ensures
        r@ == span_text(secs, nanos),
{
    proof {
        reveal_strlit(".");
        reveal_strlit(" ms");
        reveal_strlit(" s");
    }
    let total: u128 = secs as u128 * 1_000_000_000 + nanos as u128;
    let mut out = String::new();
    if total < 1_000_000_000 {
        let micros = (total + 500) / 1000;
        push_decimal(&mut out, micros / 1000);
        out.append(".");
        push_three_digits(&mut out, micros % 1000);
        out.append(" ms");
    } else {
        let millis = (total + 500_000) / 1_000_000;
        push_decimal(&mut out, millis / 1000);
        out.append(".");
        push_three_digits(&mut out, millis % 1000);
        out.append(" s");
    }
    out
}

/// Relies on `Duration::as_secs`: the whole seconds of the span.
pub assume_specification[ std::time::Duration::as_secs ](d: &std::time::Duration) -> u64;

/// Relies on `Duration::subsec_nanos`: the fractional part of the span in
/// nanoseconds, which std documents as always below one billion.
pub assume_specification[ std::time::Duration::subsec_nanos ](d: &std::time::Duration) -> (r: u32)
    ensures
        r < 1_000_000_000,
;

/// Shows how long `duration` is: below one second in milliseconds, otherwise
/// in seconds, with three decimals.
pub fn format_duration(duration: std::time::Duration) -> (r: String)
    ensures
        exists|secs: u64, nanos: u32|
            nanos < 1_000_000_000 && r@ == #[trigger] span_text(secs, nanos),
{
    let secs = duration.as_secs();
    let nanos = duration.subsec_nanos();
    format_seconds(secs, nanos)
}

/// A value with a plain-text form, as it appears in a list of names.
pub trait Label {
    spec fn label_view(&self) -> Seq<char>;

    fn label(&self) -> (r: String)
        ensures
            r@ == self.label_view(),
    ;
}

/// An integer in decimal, with a minus sign in front when it is negative.
pub open spec fn signed_decimal(n: int) -> Seq<char> {
    if n < 0 {
        seq!['-'] + decimal((-n) as nat)
    } else {
        decimal(n as nat)
    }
}

fn signed_text(n: i128) -> (r: String)
    requires
        n > i128::MIN,
    ensures
        r@ == signed_decimal(n as int),
{
    proof {
        reveal_strlit("-");
    }
    let mut out = String::new();
    if n < 0 {
        out.append("-");
        push_decimal(&mut out, (-n) as u128);
    } else {
        push_decimal(&mut out, n as u128);
    }
    out
}

impl<'a> Label for &'a str {
    open spec fn label_view(&self) -> Seq<char> {
        (**self)@
    }

    fn label(&self) -> (r: String) {
        (**self).to_owned()
    }
}

impl Label for String {
    open spec fn label_view(&self) -> Seq<char> {
        self@
    }

    fn label(&self) -> (r: String) {
        self.as_str().to_owned()
    }
}

impl Label for i32 {
    open spec fn label_view(&self) -> Seq<char> {
        signed_decimal(*self as int)
    }

    fn label(&self) -> (r: String) {
        signed_text(*self as i128)
    }
}

impl Label for i64 {
    open spec fn label_view(&self) -> Seq<char> {
        signed_decimal(*self as int)
    }

    fn label(&self) -> (r: String) {
        signed_text(*self as i128)
    }
}

impl Label for u32 {
    open spec fn label_view(&self) -> Seq<char> {
        decimal(*self as nat)
    }

    fn label(&self) -> (r: String) {
        let mut out = String::new();
        push_decimal(&mut out, *self as u128);
        out
    }
}

impl Label for u64 {
    open spec fn label_view(&self) -> Seq<char> {
        decimal(*self as nat)
    }

    fn label(&self) -> (r: String) {
        let mut out = String::new();
        push_decimal(&mut out, *self as u128);
        out
    }
}

impl Label for usize {
    open spec fn label_view(&self) -> Seq<char> {
        decimal(*self as nat)
    }

    fn label(&self) -> (r: String) {
        let mut out = String::new();
        push_decimal(&mut out, *self as u128);
        out
    }
}

/// What stands after the item at `index` in a list of `len` items: a comma
/// between items, "and" before the last one, nothing after it.
pub open spec fn list_separator(index: int, len: int) -> Seq<char> {
    if index + 2 < len {
        seq![',', ' ']
    } else if index + 2 == len {
        seq![' ', 'a', 'n', 'd', ' ']
    } else {
        seq![]
    }
}

/// The first `k` items of a list of texts, each in single quotes, each
/// followed by its separator.
pub open spec fn quoted_prefix(items: Seq<Seq<char>>, k: nat) -> Seq<char>
    recommends
        k <= items.len(),
    decreases k,
{
    if k == 0 {
        seq![]
    } else {
        quoted_prefix(items, (k - 1) as nat) + seq!['\''] + items[k - 1] + seq!['\'']
            + list_separator(k - 1, items.len() as int)
    }
}

/// A list of texts written out as `'a', 'b' and 'c'`.
pub open spec fn quoted_list(items: Seq<Seq<char>>) -> Seq<char> {
    quoted_prefix(items, items.len())
}

/// Writes the items of `list` in single quotes, separated by commas, with
/// "and" before the last one.
pub fn prettify_list<T: Label>(list: &[T]) -> (r: String)
    ensures
        r@ == quoted_list(list@.map_values(|t: T| t.label_view())),
{
    let ghost items = list@.map_values(|t: T| t.label_view());
    let n = list.len();
    let mut out = String::new();
    let mut i: usize = 0;
    while i < n
        invariant
            n == list@.len(),
            items == list@.map_values(|t: T| t.label_view()),
            i <= n,
            out@ == quoted_prefix(items, i as nat),
        decreases n - i,
    {
        let item = list[i].label();
        assert(items[i as int] == item@);
        proof {
            reveal_strlit("'");
            reveal_strlit(", ");
            reveal_strlit(" and ");
        }
        out.append("'");
        out.append(item.as_str());
        out.append("'");
        if n - i > 2 {
            out.append(", ");
        } else if n - i == 2 {
            out.append(" and ");
        }
        assert(out@ =~= quoted_prefix(items, (i + 1) as nat));
        i = i + 1;
    }
    out
}

} // verus!
