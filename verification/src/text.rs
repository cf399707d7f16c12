//! Decimal rendering of integers and joining of string lists.
//!
//! The UI handlers display messages such as a card index or a comma-separated
//! feature list; these helpers build those strings and are specified against
//! mathematical sequences of characters.

use vstd::prelude::*;
use vstd::string::StringExecFns;

verus! {

/// The character for a single decimal digit value.
pub open spec fn digit_char(d: int) -> char {
    ((d + 48) as u8) as char
}

/// The decimal digit sequence of a nonnegative integer, most significant first.
pub open spec fn spec_u32_decimal(n: nat) -> Seq<char>
    decreases n,
{
    if n < 10 {
        seq![digit_char(n as int)]
    } else {
        spec_u32_decimal(n / 10) + seq![digit_char((n % 10) as int)]
    }
}

/// The decimal rendering of a signed integer: a minus sign before the
/// magnitude when negative.
pub open spec fn spec_i32_decimal(i: int) -> Seq<char> {
    if i >= 0 {
        spec_u32_decimal(i as nat)
    } else {
        seq!['-'] + spec_u32_decimal((-i) as nat)
    }
}

/// The one-character string for a single decimal digit.
fn digit_str(d: u32) -> (r: &'static str)
    requires
        d < 10,
    ensures
        r@ == seq![digit_char(d as int)],
{
    let r: &'static str = match d {
        0 => "0",
        1 => "1",
        2 => "2",
        3 => "3",
        4 => "4",
        5 => "5",
        6 => "6",
        7 => "7",
        8 => "8",
        _ => "9",
    };
    proof {
        reveal_strlit("0");
        reveal_strlit("1");
        reveal_strlit("2");
        reveal_strlit("3");
        reveal_strlit("4");
        reveal_strlit("5");
        reveal_strlit("6");
        reveal_strlit("7");
        reveal_strlit("8");
        reveal_strlit("9");
        assert(r@ =~= seq![digit_char(d as int)]);
    }
    r
}

/// Appends the decimal digits of `n` to `out`.
fn push_u32_decimal(n: u32, out: &mut String)
    ensures
        final(out)@ == old(out)@ + spec_u32_decimal(n as nat),
    decreases n,
{
    if n >= 10 {
        push_u32_decimal(n / 10, out);
    }
    let d: &'static str = digit_str(n % 10);
    out.append(d);
    proof {
        assert(out@ =~= old(out)@ + spec_u32_decimal(n as nat));
    }
}

/// The decimal string of an unsigned integer.
pub fn u32_to_string(n: u32) -> (r: String)
    ensures
        r@ == spec_u32_decimal(n as nat),
{
    let mut s = String::new();
    push_u32_decimal(n, &mut s);
    proof {
        assert(s@ =~= spec_u32_decimal(n as nat));
    }
    s
}

/// The decimal string of a signed integer, as the UI shows it.
pub fn i32_to_string(i: i32) -> (r: String)
    ensures
        r@ == spec_i32_decimal(i as int),
{
    if i >= 0 {
        u32_to_string(i as u32)
    } else {
        let m: u32 = (-(i as i64)) as u32;
        proof {
            assert(m as nat == (-(i as int)) as nat);
        }
        let mut s = String::from_str("-");
        proof {
            reveal_strlit("-");
        }
        push_u32_decimal(m, &mut s);
        proof {
            assert(s@ =~= spec_i32_decimal(i as int));
        }
        s
    }
}

/// The views of a sequence of string slices.
pub open spec fn seq_views(parts: Seq<&str>) -> Seq<Seq<char>> {
    parts.map_values(|p: &str| p@)
}

/// The parts laid end to end with the separator between consecutive parts.
pub open spec fn spec_join(parts: Seq<Seq<char>>, sep: Seq<char>) -> Seq<char>
    decreases parts.len(),
{
    if parts.len() == 0 {
        Seq::<char>::empty()
    } else if parts.len() == 1 {
        parts[0]
    } else {
        parts[0] + sep + spec_join(parts.skip(1), sep)
    }
}

fn join_from(parts: &Vec<&'static str>, i: usize, sep: &str) -> (r: String)
    requires
        i <= parts.len(),
    ensures
        r@ == spec_join(seq_views(parts@).skip(i as int), sep@),
    decreases parts@.len() - i,
{
    if i == parts.len() {
        proof {
            assert(seq_views(parts@).skip(i as int).len() == 0);
        }
        String::new()
    } else if i + 1 == parts.len() {
        let s = String::from_str(parts[i]);
        proof {
            assert(seq_views(parts@).skip(i as int).len() == 1);
            assert(seq_views(parts@).skip(i as int)[0] == parts@[i as int]@);
        }
        s
    } else {
        let mut s = String::from_str(parts[i]);
        s.append(sep);
        let rest = join_from(parts, i + 1, sep);
        s.append(rest.as_str());
        proof {
            assert(seq_views(parts@).skip(i as int).skip(1) =~= seq_views(parts@).skip(
                i as int + 1,
            ));
            assert(s@ =~= spec_join(seq_views(parts@).skip(i as int), sep@));
        }
        s
    }
}

/// The parts joined with the separator, e.g. `["a", "b"]` with `", "` gives
/// `"a, b"`.
pub fn join_with(parts: &Vec<&'static str>, sep: &str) -> (r: String)
    ensures
        r@ == spec_join(seq_views(parts@), sep@),
{
    let r = join_from(parts, 0, sep);
    proof {
        assert(seq_views(parts@).skip(0) =~= seq_views(parts@));
    }
    r
}

} // verus!
