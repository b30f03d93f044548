//! Text helpers: comparison of string slices and decimal rendering.

use vstd::prelude::*;
use vstd::string::StringExecFns;
use vstd::string::StringSliceAdditionalSpecFns;
use vstd::utf8::encode_utf8_decode_utf8;

verus! {

/// Whether two string slices hold the same characters.
pub fn str_eq(a: &str, b: &str) -> (same: bool)
    ensures
        same == (a@ == b@),
{
    let x = a.as_bytes();
    let y = b.as_bytes();
    proof {
        encode_utf8_decode_utf8(a@);
        encode_utf8_decode_utf8(b@);
    }
    if x.len() != y.len() {
        return false;
    }
    let mut i: usize = 0;
    while i < x.len()
        invariant
            i <= x.len(),
            x@.len() == y@.len(),
            x@ == a.spec_bytes(),
            y@ == b.spec_bytes(),
            forall|k: int| 0 <= k < i ==> x@[k] == y@[k],
        decreases x.len() - i,
    {
        if x[i] != y[i] {
            return false;
        }
        i += 1;
    }
    assert(x@ =~= y@);
    true
}

/// The character of a decimal digit.
pub open spec fn digit(d: nat) -> char {
    if d == 0 {
        '0'
    } else if d == 1 {
        '1'
    } else if d == 2 {
        '2'
    } else if d == 3 {
        '3'
    } else if d == 4 {
        '4'
    } else if d == 5 {
        '5'
    } else if d == 6 {
        '6'
    } else if d == 7 {
        '7'
    } else if d == 8 {
        '8'
    } else {
        '9'
    }
}

/// The decimal digits of a number, without leading zeros.
pub open spec fn decimal(n: nat) -> Seq<char>
    decreases n,
{
    if n < 10 {
        seq![digit(n)]
    } else {
        decimal(n / 10).push(digit(n % 10))
    }
}

/// The decimal text of an integer: a minus sign before the digits of a
/// negative one.
pub open spec fn signed_decimal(n: int) -> Seq<char> {
    if n < 0 {
        seq!['-'] + decimal((-n) as nat)
    } else {
        decimal(n as nat)
    }
}

/// The text of one decimal digit.
fn digit_str(d: u64) -> (text: &'static str)
    requires
        d < 10,
    ensures
        text@ == seq![digit(d as nat)],
{
    proof {
        reveal_strlit("0");
        reveal_strlit("1");
        reveal_strlit("2");
        reveal_strlit("3");
        reveal_strlit("4");
        reveal_strlit("5");
        reveal_strlit("6");
        reveal_strlit("7");
        reveal_strlit("8");
        reveal_strlit("9");
    }
    let text = if d == 0 {
        "0"
    } else if d == 1 {
        "1"
    } else if d == 2 {
        "2"
    } else if d == 3 {
        "3"
    } else if d == 4 {
        "4"
    } else if d == 5 {
        "5"
    } else if d == 6 {
        "6"
    } else if d == 7 {
        "7"
    } else if d == 8 {
        "8"
    } else {
        "9"
    };
    assert(text@ =~= seq![digit(d as nat)]);
    text
}

/// Appends the decimal digits of `n` to `out`.
fn push_decimal(out: &mut String, n: u64)
    ensures
        final(out)@ == old(out)@ + decimal(n as nat),
    decreases n,
{
    if n >= 10 {
        push_decimal(out, n / 10);
    }
    out.append(digit_str(n % 10));
    assert(out@ =~= old(out)@ + decimal(n as nat));
}

/// The decimal text of an unsigned number.
pub fn u64_to_string(n: u64) -> (text: String)
    ensures
        text@ == decimal(n as nat),
{
    let mut text = String::new();
    push_decimal(&mut text, n);
    assert(text@ =~= decimal(n as nat));
    text
}

/// The decimal text of a signed number.
pub fn i64_to_string(n: i64) -> (text: String)
    ensures
        text@ == signed_decimal(n as int),
{
    let mut text = String::new();
    if n < 0 {
        let size: u64 = if n == i64::MIN {
            9223372036854775808u64
        } else {
            (-n) as u64
        };
        proof {
            reveal_strlit("-");
        }
        text.append("-");
        push_decimal(&mut text, size);
        assert(text@ =~= seq!['-'] + decimal((-n) as nat));
    } else {
        push_decimal(&mut text, n as u64);
        assert(text@ =~= decimal(n as nat));
    }
    text
}

/// The characters of each string of a list.
pub open spec fn lines(items: Seq<String>) -> Seq<Seq<char>> {
    Seq::new(items.len(), |i: int| items[i]@)
}

/// The items in one text, with `sep` between each two.
pub open spec fn joined(items: Seq<Seq<char>>, sep: Seq<char>) -> Seq<char>
    decreases items.len(),
{
    if items.len() == 0 {
        Seq::empty()
    } else if items.len() == 1 {
        items[0]
    } else {
        joined(items.drop_last(), sep) + sep + items.last()
    }
}

/// The items in batches of `size`, the last one perhaps smaller, each
/// batch joined into one text.
pub open spec fn batched(items: Seq<Seq<char>>, size: nat, sep: Seq<char>) -> Seq<Seq<char>>
    decreases items.len(),
{
    if items.len() == 0 || size == 0 {
        Seq::empty()
    } else if items.len() <= size {
        seq![joined(items, sep)]
    } else {
        seq![joined(items.take(size as int), sep)] + batched(items.skip(size as int), size, sep)
    }
}

/// Joins the items `from..to` of a list, with `sep` between each two.
pub fn join(items: &Vec<String>, from: usize, to: usize, sep: &str) -> (text: String)
    requires
        from <= to <= items.len(),
    ensures
        text@ == joined(lines(items@).subrange(from as int, to as int), sep@),
{
    let ghost part = lines(items@).subrange(from as int, to as int);
    let mut text = String::new();
    let mut i: usize = from;
    assert(part.take(0) =~= Seq::empty());
    while i < to
        invariant
            from <= i <= to <= items.len(),
            part == lines(items@).subrange(from as int, to as int),
            text@ == joined(part.take(i - from), sep@),
        decreases to - i,
    {
        let ghost so_far = text@;
        if i > from {
            text.append(sep);
        }
        text.append(items[i].as_str());
        proof {
            let next = part.take(i - from + 1);
            assert(next.drop_last() =~= part.take(i - from));
            assert(next.last() == items@[i as int]@);
            if i == from {
                assert(text@ =~= items@[i as int]@);
            }
        }
        i += 1;
    }
    assert(part.take(to - from) =~= part);
    text
}

/// Splits a list into batches of `size` items and joins each batch with
/// `sep`: what a server takes that limits how many ids one call may name.
pub fn batches(items: &Vec<String>, size: usize, sep: &str) -> (texts: Vec<String>)
    requires
        size > 0,
    ensures
        lines(texts@) == batched(lines(items@), size as nat, sep@),
{
    let ghost all = lines(items@);
    let mut texts: Vec<String> = Vec::new();
    let mut start: usize = 0;
    assert(all.skip(0) =~= all);
    assert(lines(texts@) =~= Seq::empty());
    while start < items.len()
        invariant
            start <= items.len(),
            size > 0,
            all == lines(items@),
            batched(all, size as nat, sep@) == lines(texts@) + batched(
                all.skip(start as int),
                size as nat,
                sep@,
            ),
        decreases items.len() - start,
    {
        let end = if items.len() - start <= size {
            items.len()
        } else {
            start + size
        };
        let ghost rest = all.skip(start as int);
        let ghost before = lines(texts@);
        let text = join(items, start, end, sep);
        texts.push(text);
        proof {
            assert(all.subrange(start as int, end as int) =~= rest.take(end - start));
            assert(lines(texts@) =~= before.push(text@));
            if end == items.len() {
                assert(rest.take(end - start) =~= rest);
                assert(all.skip(end as int) =~= Seq::empty());
                assert(batched(rest, size as nat, sep@) =~= seq![joined(rest, sep@)]);
                assert(batched(all.skip(end as int), size as nat, sep@) =~= Seq::empty());
            } else {
                assert(rest.skip(size as int) =~= all.skip(end as int));
            }
            assert(batched(all, size as nat, sep@) =~= lines(texts@) + batched(
                all.skip(end as int),
                size as nat,
                sep@,
            ));
        }
        start = end;
    }
    assert(all.skip(start as int) =~= Seq::empty());
    assert(lines(texts@) + Seq::<Seq<char>>::empty() =~= lines(texts@));
    texts
}

} // verus!
