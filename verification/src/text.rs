//! The emitter's text: decimal rendering of the mail count, the comma-joined
//! sender list, and the whole display line.

use vstd::prelude::*;
use vstd::string::StrSliceExecFns;
use vstd::string::StringExecFns;

verus! {

/// The character of one decimal digit.
pub open spec fn dec_digit(d: nat) -> char {
    if d == 0 {
        '0'
    } else if d == 1 {
        '1'
    } else if d == 2 {
        '2'
    } else if d == 3 {
        '3'
    } else if d == 4 {
        '4'
    } else if d == 5 {
        '5'
    } else if d == 6 {
        '6'
    } else if d == 7 {
        '7'
    } else if d == 8 {
        '8'
    } else {
        '9'
    }
}

/// The decimal numeral of `n`, most significant digit first, with no sign
/// and no leading zero (except for the numeral of zero itself).
pub open spec fn dec_str(n: nat) -> Seq<char>
    decreases n,
{
    if n < 10 {
        seq![dec_digit(n)]
    } else {
        dec_str(n / 10) + seq![dec_digit(n % 10)]
    }
}

/// The sender list joined by a comma and a space, in scan order.
pub open spec fn join_senders(items: Seq<Seq<char>>) -> Seq<char>
    decreases items.len(),
{
    if items.len() == 0 {
        Seq::empty()
    } else if items.len() == 1 {
        items[0]
    } else {
        join_senders(items.drop_last()) + seq![',', ' '] + items.last()
    }
}

/// The whole display line: empty when no sender was found, else the label,
/// a colon, the count, a space, and the joined senders.
pub open spec fn display_text_spec(label: Seq<char>, senders: Seq<Seq<char>>) -> Seq<char> {
    if senders.len() == 0 {
        Seq::empty()
    } else {
        label + seq![':'] + dec_str(senders.len()) + seq![' '] + join_senders(senders)
    }
}

fn digit_literal(d: usize) -> (r: &'static str)
    requires
        d < 10,
    ensures
        r@ == seq![dec_digit(d as nat)],
{
    let r: &'static str = match d {
        0 => "0",
        1 => "1",
        2 => "2",
        3 => "3",
        4 => "4",
        5 => "5",
        6 => "6",
        7 => "7",
        8 => "8",
        _ => "9",
    };
    proof {
        reveal_strlit("0");
        reveal_strlit("1");
        reveal_strlit("2");
        reveal_strlit("3");
        reveal_strlit("4");
        reveal_strlit("5");
        reveal_strlit("6");
        reveal_strlit("7");
        reveal_strlit("8");
        reveal_strlit("9");
        assert(r@ =~= seq![dec_digit(d as nat)]);
    }
    r
}

/// Renders `n` in decimal.
pub fn usize_to_string(n: usize) -> (r: String)
    ensures
        r@ == dec_str(n as nat),
    decreases n,
{
    if n < 10 {
        String::from_str(digit_literal(n))
    } else {
        let mut r = usize_to_string(n / 10);
        r.append(digit_literal(n % 10));
        proof {
            assert(r@ =~= dec_str(n as nat));
        }
        r
    }
}

/// Joins the senders with a comma and a space, in order.
pub fn join_with_commas(items: &Vec<String>) -> (r: String)
    ensures
        r@ == join_senders(items.deep_view()),
{
    let ghost dv = items.deep_view();
    let mut r = String::new();
    let mut i: usize = 0;
    while i < items.len()
        invariant
            dv == items.deep_view(),
            i <= items.len(),
            r@ == join_senders(dv.take(i as int)),
        decreases items.len() - i,
    {
        if i > 0 {
            r.append(", ");
        }
        r.append(items[i].as_str());
        proof {
            reveal_strlit(", ");
            assert(dv.take(i as int + 1).drop_last() =~= dv.take(i as int));
            assert(dv.take(i as int + 1).last() == dv[i as int]);
            assert(dv[i as int] == items@[i as int]@);
            if i == 0 {
                assert(r@ =~= join_senders(dv.take(i as int + 1)));
            } else {
                assert(", "@ =~= seq![',', ' ']);
                assert(r@ =~= join_senders(dv.take(i as int + 1)));
            }
        }
        i += 1;
    }
    proof {
        assert(dv.take(items@.len() as int) =~= dv);
    }
    r
}

/// Builds the display line for a finished scan: the empty string when the
/// list is empty, else `<label>:<count> <senders joined by ", ">`.
pub fn format_display_text(label: &str, senders: &Vec<String>) -> (r: String)
    ensures
        r@ == display_text_spec(label@, senders.deep_view()),
{
    if senders.len() == 0 {
        let r = String::new();
        proof {
            assert(senders.deep_view().len() == 0);
        }
        r
    } else {
        let count_str = usize_to_string(senders.len());
        let joined = join_with_commas(senders);
        let mut r = String::from_str(label);
        r.append(":");
        r.append(count_str.as_str());
        r.append(" ");
        r.append(joined.as_str());
        proof {
            reveal_strlit(":");
            reveal_strlit(" ");
            assert(":"@ =~= seq![':']);
            assert(" "@ =~= seq![' ']);
            assert(senders.deep_view().len() == senders@.len());
            assert(r@ =~= display_text_spec(label@, senders.deep_view()));
        }
        r
    }
}

} // verus!
