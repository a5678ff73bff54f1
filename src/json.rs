//! JSON text building blocks: quoted strings and decimal numbers.
use vstd::prelude::*;
use vstd::string::*;

verus! {

#[verifier::external_type_specification]
#[verifier::external_body]
pub struct ExJsonError(serde_json::Error);

/// The JSON string literal that serde_json writes for a text: the
/// surrounding quotes and the escapes included.
pub uninterp spec fn json_quoted(s: Seq<char>) -> Seq<char>;

/// Relies on `serde_json::to_string` applied to a `str`: it returns the JSON
/// string literal of the text. It writes into an in-memory buffer, whose
/// writes do not fail, so the error arm is never taken.
#[verifier::external_body]
pub(crate) fn quote(s: &str) -> (r: String)
    ensures
        r@ == json_quoted(s@),
{
    serde_json::to_string(s).unwrap_or_default()
}

/// The text of one decimal digit.
pub open spec fn digit_text(d: nat) -> Seq<char> {
    if d == 0 {
        "0"@
    } else if d == 1 {
        "1"@
    } else if d == 2 {
        "2"@
    } else if d == 3 {
        "3"@
    } else if d == 4 {
        "4"@
    } else if d == 5 {
        "5"@
    } else if d == 6 {
        "6"@
    } else if d == 7 {
        "7"@
    } else if d == 8 {
        "8"@
    } else {
        "9"@
    }
}

/// The decimal text of a natural number, without leading zeros.
pub open spec fn decimal(n: nat) -> Seq<char>
    decreases n,
{
    if n < 10 {
        digit_text(n)
    } else {
        decimal(n / 10) + digit_text(n % 10)
    }
}

/// Appends the decimal text of `n` to `out`.
pub fn push_decimal(out: &mut String, n: u64)
    ensures
        final(out)@ == old(out)@ + decimal(n as nat),
    decreases n,
{
    if n >= 10 {
        push_decimal(out, n / 10);
    }
    let d = n % 10;
    match d {
            0 => out.append("0"),
            1 => out.append("1"),
            2 => out.append("2"),
            3 => out.append("3"),
            4 => out.append("4"),
            5 => out.append("5"),
            6 => out.append("6"),
            7 => out.append("7"),
            8 => out.append("8"),
            _ => out.append("9"),
    }
    assert(final(out)@ =~= old(out)@ + decimal(n as nat));
}

/// The JSON array of the string literals of `items`, in order.
pub open spec fn quoted_array(items: Seq<String>) -> Seq<char> {
    "["@ + quoted_list(items) + "]"@
}

/// The string literals of `items` separated by commas.
pub open spec fn quoted_list(items: Seq<String>) -> Seq<char>
    decreases items.len(),
{
    if items.len() == 0 {
        Seq::empty()
    } else if items.len() == 1 {
        json_quoted(items[0]@)
    } else {
        quoted_list(items.drop_last()) + ","@ + json_quoted(items.last()@)
    }
}

/// Appends the JSON array of the string literals of `items` to `out`.
pub fn push_quoted_array(out: &mut String, items: &Vec<String>)
    ensures
        final(out)@ == old(out)@ + quoted_array(items@),
{
    out.append("[");
    let ghost start = out@;
    let mut i: usize = 0;
    while i < items.len()
        invariant
            i <= items@.len(),
            out@ == start + quoted_list(items@.subrange(0, i as int)),
        decreases items@.len() - i,
    {
        let ghost before = out@;
        if i > 0 {
            out.append(",");
        }
        let q = quote(items[i].as_str());
        out.append(q.as_str());
        proof {
            let s = items@.subrange(0, i as int + 1);
            assert(s.drop_last() =~= items@.subrange(0, i as int));
            assert(s.last() == items@[i as int]);
            if i == 0 {
                assert(s.len() == 1);
            }
        }
        i = i + 1;
    }
    assert(items@.subrange(0, items@.len() as int) =~= items@);
    out.append("]");
}

} // verus!
