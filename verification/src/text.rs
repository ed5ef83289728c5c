//! Text of numbers and messages.

use vstd::prelude::*;
use vstd::string::StringExecFns;

verus! {

/// The decimal digit `d`.
pub open spec fn digit(d: nat) -> char {
    ('0' as nat + d) as char
}

/// `n` in decimal, without leading zeros.
pub open spec fn decimal(n: nat) -> Seq<char>
    decreases n,
{
    if n < 10 {
        seq![digit(n)]
    } else {
        decimal(n / 10).push(digit(n % 10))
    }
}

/// A truth value in words.
pub open spec fn truth(b: bool) -> Seq<char> {
    if b {
        "true"@
    } else {
        "false"@
    }
}

fn digit_text(d: u64) -> (text: &'static str)
    requires
        d < 10,
    ensures
        text@ == seq![digit(d as nat)],
{
    proof {
        reveal_strlit("0");
        reveal_strlit("1");
        reveal_strlit("2");
        reveal_strlit("3");
        reveal_strlit("4");
        reveal_strlit("5");
        reveal_strlit("6");
        reveal_strlit("7");
        reveal_strlit("8");
        reveal_strlit("9");
    }
    match d {
        0 => "0",
        1 => "1",
        2 => "2",
        3 => "3",
        4 => "4",
        5 => "5",
        6 => "6",
        7 => "7",
        8 => "8",
        _ => "9",
    }
}

/// Appends `n` in decimal.
pub(crate) fn append_decimal(out: &mut String, n: u64)
    ensures
        final(out)@ == old(out)@ + decimal(n as nat),
    decreases n,
{
    let ghost start = out@;
    if n >= 10 {
        append_decimal(out, n / 10);
    }
    out.append(digit_text(n % 10));
    assert(out@ =~= start + decimal(n as nat));
}

/// Appends a label and the number that it names.
pub(crate) fn append_field(out: &mut String, label: &str, n: u64)
    ensures
        final(out)@ == old(out)@ + label@ + decimal(n as nat),
{
    out.append(label);
    append_decimal(out, n);
}

/// Appends a label and the truth value that it names.
pub(crate) fn append_truth(out: &mut String, label: &str, b: bool)
    ensures
        final(out)@ == old(out)@ + label@ + truth(b),
        final(out)@ == old(out)@ + label@ + if b {
            "true"@
        } else {
            "false"@
        },
{
    out.append(label);
    if b {
        out.append("true");
    } else {
        out.append("false");
    }
}

/// One text after the other.
pub(crate) fn joined(first: &str, second: &str) -> (text: String)
    ensures
        text@ == first@ + second@,
{
    let mut text = first.to_owned();
    text.append(second);
    text
}

/// A number below ten is written as its digit, and every other as the number of its tens
/// followed by the digit of its ones.
pub proof fn decimal_is_positional(tens: nat, ones: nat)
    requires
        ones < 10,
    ensures
        decimal(ones) == seq![('0' as nat + ones) as char],
        tens > 0 ==> decimal(10 * tens + ones) == decimal(tens).push(('0' as nat + ones) as char),
{
    assert((10 * tens + ones) / 10 == tens && (10 * tens + ones) % 10 == ones);
}

/// A number can be read off its text: the digits, each weighed by its place, add up to it.
pub proof fn decimal_reads_back(n: nat)
    ensures
        decimal(n).fold_left(0int, |value: int, c: char| 10 * value + (c as int - '0' as int)) == n,
        decimal(n).len() > 0,
        n > 0 ==> decimal(n)[0] != '0',
        forall|i: int| 0 <= i < decimal(n).len() ==> '0' <= #[trigger] decimal(n)[i] <= '9',
    decreases n,
{
    let read = |value: int, c: char| 10 * value + (c as int - '0' as int);
    let text = decimal(n);
    let last = ('0' as nat + n % 10) as char;
    if n < 10 {
        assert(text =~= seq![last]);
        assert(text.drop_last() =~= Seq::<char>::empty());
        assert(text.drop_last().fold_left(0int, read) == 0);
        assert(text.fold_left(0int, read) == read(0int, last));
    } else {
        decimal_reads_back(n / 10);
        assert(text == decimal(n / 10).push(last));
        assert(text.drop_last() =~= decimal(n / 10));
        assert(text.last() == last);
        assert(text.fold_left(0int, read) == read(decimal(n / 10).fold_left(0int, read), last));
        assert forall|i: int| 0 <= i < text.len() implies '0' <= #[trigger] text[i] <= '9' by {
            if i < text.len() - 1 {
                assert(text[i] == decimal(n / 10)[i]);
            }
        }
        assert(text[0] == decimal(n / 10)[0]);
    }
}

/// The two truth values in words.
pub proof fn truth_in_words()
    ensures
        truth(true) == "true"@,
        truth(false) == "false"@,
{
}

} // verus!
