//! Text as sequences of characters: how numbers are written out, and what it
//! means for pieces of text to stand inside a longer one.

use vstd::prelude::*;

verus! {

/// The character that writes the digit `d` in any base up to sixteen.
pub open spec fn digit_char(d: nat) -> char
    recommends
        d < 16,
{
    "0123456789abcdef"@[d as int]
}

/// The digits of `n` in `base`, most significant first, without padding:
/// a single `0` for zero, and no leading zero otherwise.
pub open spec fn digits(n: nat, base: nat) -> Seq<char>
    recommends
        2 <= base <= 16,
    decreases n,
{
    if base < 2 || n < base {
        seq![digit_char(n)]
    } else {
        proof {
            assert(n / base < n) by (nonlinear_arith)
                requires
                    n >= base,
                    base >= 2,
            ;
        }
        digits(n / base, base).push(digit_char(n % base))
    }
}

/// `n` written in decimal.
pub open spec fn decimal_text(n: nat) -> Seq<char> {
    digits(n, 10)
}

/// `n` written in binary.
pub open spec fn binary_text(n: nat) -> Seq<char> {
    digits(n, 2)
}

/// `n` written in hexadecimal, with the letters in lower case.
pub open spec fn hex_text(n: nat) -> Seq<char> {
    digits(n, 16)
}

/// The digit that the character `c` writes.
pub open spec fn digit_value(c: char) -> nat {
    choose|d: nat| d < 16 && digit_char(d) == c
}

/// The number that `text` writes in `base`, its first character being the
/// most significant digit.
pub open spec fn number_of(text: Seq<char>, base: nat) -> nat
    decreases text.len(),
{
    if text.len() == 0 {
        0
    } else {
        number_of(text.drop_last(), base) * base + digit_value(text.last())
    }
}

/// `part` stands in `text`, starting at position `at`.
pub open spec fn occurs_at(text: Seq<char>, part: Seq<char>, at: int) -> bool {
    &&& 0 <= at
    &&& at + part.len() <= text.len()
    &&& text.subrange(at, at + part.len()) =~= part
}

/// `part` stands somewhere in `text`.
pub open spec fn contains_text(text: Seq<char>, part: Seq<char>) -> bool {
    exists|at: int| occurs_at(text, part, at)
}

/// The `parts` stand in `text` one after another, in the order given and
/// without overlapping.
pub open spec fn holds_in_order(text: Seq<char>, parts: Seq<Seq<char>>) -> bool
    decreases parts.len(),
{
    parts.len() == 0 || exists|at: int|
        {
            &&& #[trigger] occurs_at(text, parts[0], at)
            &&& holds_in_order(text.skip(at + parts[0].len()), parts.drop_first())
        }
}

/// The sixteen digit characters are all different: each writes one digit.
pub proof fn lemma_digit_reads_back(d: nat)
    requires
        d < 16,
    ensures
        digit_value(digit_char(d)) == d,
{
    reveal_strlit("0123456789abcdef");
    let read = digit_value(digit_char(d));
    assert(read < 16 && digit_char(read) == digit_char(d));
}

/// A number is read back from its digits: what is written is the number and
/// nothing else, so two numbers are written alike only if they are the same.
pub proof fn lemma_digits_read_back(n: nat, base: nat)
    requires
        2 <= base <= 16,
    ensures
        number_of(digits(n, base), base) == n,
    decreases n,
{
    let written = digits(n, base);
    if n < base {
        lemma_digit_reads_back(n);
        assert(written.drop_last() =~= Seq::<char>::empty());
        assert(number_of(written.drop_last(), base) == 0);
        assert(0 * base == 0) by (nonlinear_arith);
    } else {
        assert(n / base < n && n % base < base && (n / base) * base + n % base == n)
            by (nonlinear_arith)
            requires
                n >= base,
                base >= 2,
        ;
        lemma_digits_read_back(n / base, base);
        lemma_digit_reads_back(n % base);
        assert(written.drop_last() =~= digits(n / base, base));
    }
}

/// Two numbers with the same digits in one base are the same number.
pub proof fn lemma_digits_tell_numbers_apart(a: nat, b: nat, base: nat)
    requires
        2 <= base <= 16,
        digits(a, base) == digits(b, base),
    ensures
        a == b,
{
    lemma_digits_read_back(a, base);
    lemma_digits_read_back(b, base);
}

/// A number is written without padding: only zero starts with the digit `0`.
pub proof fn lemma_digits_have_no_leading_zero(n: nat, base: nat)
    requires
        2 <= base <= 16,
        n > 0,
    ensures
        digits(n, base).len() >= 1,
        digits(n, base)[0] != digit_char(0),
    decreases n,
{
    if n < base {
        lemma_digit_reads_back(n);
        lemma_digit_reads_back(0);
    } else {
        assert(0 < n / base < n) by (nonlinear_arith)
            requires
                n >= base,
                base >= 2,
        ;
        lemma_digits_have_no_leading_zero(n / base, base);
    }
}

/// Each of the parts that stand in order in a text stands somewhere in it.
pub proof fn lemma_held_part_is_contained(text: Seq<char>, parts: Seq<Seq<char>>, i: int)
    requires
        holds_in_order(text, parts),
        0 <= i < parts.len(),
    ensures
        contains_text(text, parts[i]),
    decreases parts.len(),
{
    let at = choose|at: int|
        {
            &&& #[trigger] occurs_at(text, parts[0], at)
            &&& holds_in_order(text.skip(at + parts[0].len()), parts.drop_first())
        };
    if i > 0 {
        let end = at + parts[0].len();
        let rest = text.skip(end);
        lemma_held_part_is_contained(rest, parts.drop_first(), i - 1);
        assert(parts.drop_first()[i - 1] == parts[i]);
        let within = choose|within: int| occurs_at(rest, parts[i], within);
        assert(text.subrange(end + within, end + within + parts[i].len()) =~= rest.subrange(
            within,
            within + parts[i].len(),
        ));
        assert(occurs_at(text, parts[i], end + within));
    }
}

/// What stands in order in a text still does when more text comes before it.
pub proof fn lemma_holds_in_order_after(before: Seq<char>, text: Seq<char>, parts: Seq<Seq<char>>)
    requires
        holds_in_order(text, parts),
    ensures
        holds_in_order(before + text, parts),
{
    if parts.len() > 0 {
        let at = choose|at: int|
            {
                &&& #[trigger] occurs_at(text, parts[0], at)
                &&& holds_in_order(text.skip(at + parts[0].len()), parts.drop_first())
            };
        let end = at + parts[0].len();
        let shifted = before.len() + at;
        assert((before + text).skip(shifted + parts[0].len()) =~= text.skip(end));
        assert((before + text).subrange(shifted, shifted + parts[0].len()) =~= text.subrange(
            at,
            end,
        ));
        assert(occurs_at(before + text, parts[0], shifted));
    }
}

/// A text made of a first part followed by a rest holds that part and then
/// whatever the rest holds.
pub proof fn lemma_holds_in_order_first(part: Seq<char>, rest: Seq<char>, parts: Seq<Seq<char>>)
    requires
        holds_in_order(rest, parts),
    ensures
        holds_in_order(part + rest, seq![part] + parts),
{
    let all = seq![part] + parts;
    assert(all[0] == part);
    assert(all.drop_first() =~= parts);
    assert((part + rest).skip(0int + part.len()) =~= rest);
    assert((part + rest).subrange(0, 0int + part.len()) =~= part);
    assert(occurs_at(part + rest, all[0], 0));
}

/// A text holds itself.
pub proof fn lemma_holds_itself(text: Seq<char>)
    ensures
        holds_in_order(text, seq![text]),
{
    assert(holds_in_order(Seq::<char>::empty(), Seq::<Seq<char>>::empty()));
    lemma_holds_in_order_first(text, Seq::empty(), Seq::empty());
    assert(text + Seq::<char>::empty() =~= text);
    assert(seq![text] + Seq::<Seq<char>>::empty() =~= seq![text]);
}

/// A text that ends in `value` holds `value`.
pub proof fn lemma_holds_last(head: Seq<char>, value: Seq<char>)
    ensures
        holds_in_order(head + value, seq![value]),
{
    lemma_holds_itself(value);
    lemma_holds_in_order_after(head, value, seq![value]);
}

/// A text made of a wording, a first value, more wording and a second value
/// holds the first value and then the second.
pub proof fn lemma_holds_two(head: Seq<char>, a: Seq<char>, between: Seq<char>, b: Seq<char>)
    ensures
        holds_in_order(head + a + between + b, seq![a, b]),
{
    lemma_holds_last(between, b);
    lemma_holds_in_order_first(a, between + b, seq![b]);
    assert(seq![a] + seq![b] =~= seq![a, b]);
    lemma_holds_in_order_after(head, a + (between + b), seq![a, b]);
    assert(head + (a + (between + b)) =~= head + a + between + b);
}

/// The character that writes the digit `d`.
fn digit(d: u64) -> (c: char)
    requires
        d < 16,
    ensures
        c == digit_char(d as nat),
{
    proof {
        reveal_strlit("0123456789abcdef");
    }
    "0123456789abcdef".get_char(d as usize)
}

/// Appends the digits of `n` in `base` to `out`.
fn push_digits(out: &mut String, n: u64, base: u64)
    requires
        2 <= base <= 16,
    ensures
        final(out)@ == old(out)@ + digits(n as nat, base as nat),
    decreases n,
{
    if n >= base {
        assert(n / base < n) by (nonlinear_arith)
            requires
                n >= base,
                base >= 2,
        ;
        push_digits(out, n / base, base);
    } else {
        assert(n % base == n) by (nonlinear_arith)
            requires
                n < base,
        ;
    }
    assert(n % base < base) by (nonlinear_arith)
        requires
            base >= 2,
    ;
    out.push(digit(n % base));
    assert(out@ =~= old(out)@ + digits(n as nat, base as nat));
}

/// Appends `n`, written in decimal, to `out`.
pub fn push_decimal(out: &mut String, n: u64)
    ensures
        final(out)@ == old(out)@ + decimal_text(n as nat),
{
    push_digits(out, n, 10)
}

/// Appends `n`, written in binary, to `out`.
pub fn push_binary(out: &mut String, n: u64)
    ensures
        final(out)@ == old(out)@ + binary_text(n as nat),
{
    push_digits(out, n, 2)
}

/// Appends `n`, written in lower-case hexadecimal, to `out`.
pub fn push_hex(out: &mut String, n: u64)
    ensures
        final(out)@ == old(out)@ + hex_text(n as nat),
{
    push_digits(out, n, 16)
}

} // verus!
