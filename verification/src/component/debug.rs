//! How a table is shown to a person who debugs.

use crate::component::table_view::TableView;
use vstd::prelude::*;
use vstd::string::*;

verus! {

/// The character for a digit.
pub open spec fn digit(d: nat) -> char {
    (d + 48) as char
}

/// A number in decimal, without leading zeros.
pub open spec fn decimal(n: nat) -> Seq<char>
    decreases n,
{
    if n < 10 {
        seq![digit(n)]
    } else {
        decimal(n / 10).push(digit(n % 10))
    }
}

/// Numbers in decimal, with a comma and a space between them.
pub open spec fn listing(numbers: Seq<nat>) -> Seq<char>
    decreases numbers.len(),
{
    if numbers.len() == 0 {
        seq![]
    } else if numbers.len() == 1 {
        decimal(numbers[0])
    } else {
        listing(numbers.drop_last()) + seq![',', ' '] + decimal(numbers.last())
    }
}

/// The indices below `n` at which a table holds a value, in ascending order.
pub open spec fn shown<U>(table: TableView<U>, n: nat) -> Seq<nat>
    decreases n,
{
    if n == 0 {
        seq![]
    } else {
        let k = (n - 1) as nat;
        if table.slots[k as int] matches Some(e) && e.value is Value {
            shown(table, k).push(k)
        } else {
            shown(table, k)
        }
    }
}

/// The text for a table: the indices at which it holds a value, in brackets.
pub open spec fn debug_text<U>(table: TableView<U>) -> Seq<char> {
    seq!['['] + listing(shown(table, table.slots.len())) + seq![']']
}

/// Appends one digit.
fn append_digit(text: &mut String, d: usize)
    requires
        d < 10,
    ensures
        final(text)@ == old(text)@.push(digit(d as nat)),
{
    proof {
        reveal_strlit("0");
        reveal_strlit("1");
        reveal_strlit("2");
        reveal_strlit("3");
        reveal_strlit("4");
        reveal_strlit("5");
        reveal_strlit("6");
        reveal_strlit("7");
        reveal_strlit("8");
        reveal_strlit("9");
    }
    let s = match d {
        0 => "0",
        1 => "1",
        2 => "2",
        3 => "3",
        4 => "4",
        5 => "5",
        6 => "6",
        7 => "7",
        8 => "8",
        _ => "9",
    };
    assert(s@ =~= seq![digit(d as nat)]);
    text.append(s);
    assert(text@ =~= old(text)@.push(digit(d as nat)));
}

/// Appends a number in decimal.
pub(crate) fn append_decimal(text: &mut String, n: usize)
    ensures
        final(text)@ == old(text)@ + decimal(n as nat),
    decreases n,
{
    if n >= 10 {
        append_decimal(text, n / 10);
    }
    append_digit(text, n % 10);
    assert(text@ =~= old(text)@ + decimal(n as nat));
}

/// The number that a text stands for, digit by digit.
pub open spec fn value_of(text: Seq<char>) -> nat
    decreases text.len(),
{
    if text.len() == 0 {
        0
    } else {
        (10 * value_of(text.drop_last()) + (text.last() as int - '0' as int)) as nat
    }
}

/// A number in decimal reads back as the number. It has only digits, and the first is
/// zero only for zero.
pub proof fn law_decimal_reads_back(n: nat)
    ensures
        value_of(decimal(n)) == n,
        decimal(n).len() > 0,
        forall|i: int| 0 <= i < decimal(n).len() ==> '0' <= #[trigger] decimal(n)[i] <= '9',
        decimal(n)[0] == '0' ==> n == 0,
    decreases n,
{
    if n >= 10 {
        law_decimal_reads_back(n / 10);
        assert(decimal(n).drop_last() =~= decimal(n / 10));
        assert(decimal(n)[0] == decimal(n / 10)[0]);
    } else {
        assert(decimal(n).drop_last() =~= Seq::<char>::empty());
        assert(value_of(Seq::<char>::empty()) == 0);
    }
}

/// No numbers have no text, and one number has its own. What is listed of two lists is
/// listed of each, with a comma and a space between.
pub proof fn law_lists_are_joined(a: Seq<nat>, b: Seq<nat>, n: nat)
    ensures
        listing(Seq::empty()) == Seq::<char>::empty(),
        listing(seq![n]) == decimal(n),
        a.len() > 0 && b.len() > 0 ==> listing(a + b) == listing(a) + seq![',', ' '] + listing(b),
    decreases b.len(),
{
    if a.len() > 0 && b.len() > 0 {
        assert((a + b).drop_last() =~= a + b.drop_last());
        if b.len() == 1 {
            assert(a + b.drop_last() =~= a);
        } else {
            law_lists_are_joined(a, b.drop_last(), n);
            assert(listing(a + b) =~= listing(a) + seq![',', ' '] + listing(b));
        }
    }
}

/// The indices that are shown are those at which there is a value, in ascending order.
pub proof fn law_values_are_shown<U>(table: TableView<U>, n: nat)
    ensures
        forall|k: nat| #[trigger]
            shown(table, n).contains(k) <==> k < n && table.slots[k as int] is Some
                && table.slots[k as int]->0.value is Value,
        forall|i: int, j: int|
            0 <= i < j < shown(table, n).len() ==> shown(table, n)[i] < shown(table, n)[j],
    decreases n,
{
    if n > 0 {
        let m = (n - 1) as nat;
        law_values_are_shown(table, m);
        let before = shown(table, m);
        let all = shown(table, n);
        if all != before {
            assert forall|k: nat| #[trigger] all.contains(k) <==> before.contains(k) || k == m by {
                if before.contains(k) {
                    let i = choose|i: int| 0 <= i < before.len() && before[i] == k;
                    assert(all[i] == k);
                }
                assert(all[before.len() as int] == m);
            }
            assert forall|i: int, j: int| 0 <= i < j < all.len() implies all[i] < all[j] by {
                assert(before.contains(before[i]));
            }
        }
    }
}

/// The text for a table is in brackets. Without values there is nothing between them.
pub proof fn law_table_text<U>(table: TableView<U>)
    ensures
        debug_text(table).first() == '[',
        debug_text(table).last() == ']',
        debug_text(table).subrange(1, debug_text(table).len() - 1) == listing(
            shown(table, table.slots.len()),
        ),
        debug_text(table).len() >= 2,
{
    let t = debug_text(table);
    let inside = listing(shown(table, table.slots.len()));
    assert(t.subrange(1, t.len() - 1) =~= inside);
}

} // verus!
