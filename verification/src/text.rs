//! Text pieces shared by the query builders: decimal numbers, `$n`
//! placeholders and separator joins, each with its mathematical model.
use vstd::prelude::*;

verus! {

/// The character of a decimal digit.
pub open spec fn digit_char(d: nat) -> char {
    if d == 0 {
        '0'
    } else if d == 1 {
        '1'
    } else if d == 2 {
        '2'
    } else if d == 3 {
        '3'
    } else if d == 4 {
        '4'
    } else if d == 5 {
        '5'
    } else if d == 6 {
        '6'
    } else if d == 7 {
        '7'
    } else if d == 8 {
        '8'
    } else {
        '9'
    }
}

/// The decimal representation of `n`, without leading zeros.
pub open spec fn decimal(n: nat) -> Seq<char>
    decreases n,
{
    if n < 10 {
        seq![digit_char(n)]
    } else {
        decimal(n / 10).push(digit_char(n % 10))
    }
}

/// The placeholder `$n` of a parameter of a prepared statement.
pub open spec fn placeholder(n: nat) -> Seq<char> {
    seq!['$'] + decimal(n)
}

/// The placeholders `$start`, `$start+1`, ..., `count` of them.
pub open spec fn placeholders(start: nat, count: nat) -> Seq<Seq<char>> {
    Seq::new(count, |k: int| placeholder((start + k) as nat))
}

/// The parts joined by `sep`: nothing for no part, the part itself for one.
pub open spec fn join(parts: Seq<Seq<char>>, sep: Seq<char>) -> Seq<char>
    decreases parts.len(),
{
    if parts.len() == 0 {
        seq![]
    } else if parts.len() == 1 {
        parts[0]
    } else {
        join(parts.drop_last(), sep) + sep + parts.last()
    }
}

/// The views of a list of strings.
pub open spec fn views(v: Seq<String>) -> Seq<Seq<char>> {
    v.map_values(|s: String| s@)
}

/// Appending one more part extends a join by the separator and the part.
pub proof fn lemma_join_push(parts: Seq<Seq<char>>, sep: Seq<char>, last: Seq<char>)
    ensures
        join(parts.push(last), sep) == if parts.len() == 0 {
            last
        } else {
            join(parts, sep) + sep + last
        },
{
    assert(parts.push(last).drop_last() =~= parts);
}

fn digit_str(d: u64) -> (s: &'static str)
    requires
        d < 10,
    ensures
        s@ == seq![digit_char(d as nat)],
{
    if d == 0 {
        proof {
            reveal_strlit("0");
        }
        "0"
    } else if d == 1 {
        proof {
            reveal_strlit("1");
        }
        "1"
    } else if d == 2 {
        proof {
            reveal_strlit("2");
        }
        "2"
    } else if d == 3 {
        proof {
            reveal_strlit("3");
        }
        "3"
    } else if d == 4 {
        proof {
            reveal_strlit("4");
        }
        "4"
    } else if d == 5 {
        proof {
            reveal_strlit("5");
        }
        "5"
    } else if d == 6 {
        proof {
            reveal_strlit("6");
        }
        "6"
    } else if d == 7 {
        proof {
            reveal_strlit("7");
        }
        "7"
    } else if d == 8 {
        proof {
            reveal_strlit("8");
        }
        "8"
    } else {
        proof {
            reveal_strlit("9");
        }
        "9"
    }
}

/// Writes `n` in decimal.
pub fn decimal_string(n: u64) -> (s: String)
    ensures
        s@ == decimal(n as nat),
    decreases n,
{
    if n < 10 {
        digit_str(n).to_owned()
    } else {
        let mut s = decimal_string(n / 10);
        s.append(digit_str(n % 10));
        s
    }
}

/// Appends the placeholder `$n` to `out`.
pub fn push_placeholder(out: &mut String, n: u64)
    ensures
        final(out)@ == old(out)@ + placeholder(n as nat),
{
    proof {
        reveal_strlit("$");
    }
    out.append("$");
    let digits = decimal_string(n);
    out.append(digits.as_str());
    assert(final(out)@ =~= old(out)@ + placeholder(n as nat));
}

/// Joins the strings of `parts` with `sep`.
pub fn join_strings(parts: &Vec<String>, sep: &str) -> (s: String)
    ensures
        s@ == join(views(parts@), sep@),
{
    let mut s = String::new();
    let ghost all = views(parts@);
    let mut i: usize = 0;
    while i < parts.len()
        invariant
            i <= parts.len(),
            all == views(parts@),
            s@ == join(all.take(i as int), sep@),
        decreases parts.len() - i,
    {
        proof {
            assert(all.take(i + 1) =~= all.take(i as int).push(all[i as int]));
            lemma_join_push(all.take(i as int), sep@, all[i as int]);
        }
        if i > 0 {
            s.append(sep);
        }
        s.append(parts[i].as_str());
        i = i + 1;
    }
    assert(all.take(i as int) =~= all);
    s
}

/// Appends the placeholders `$start`, ..., `$(start + count - 1)`, joined by
/// commas, to `out`.
pub fn push_placeholder_list(out: &mut String, start: u64, count: u64)
    requires
        start + count <= u64::MAX + 1,
    ensures
        final(out)@ == old(out)@ + join(placeholders(start as nat, count as nat), ","@),
{
    let ghost base = out@;
    let mut k: u64 = 0;
    while k < count
        invariant
            k <= count,
            start + count <= u64::MAX + 1,
            out@ == base + join(placeholders(start as nat, k as nat), ","@),
        decreases count - k,
    {
        proof {
            assert(placeholders(start as nat, (k + 1) as nat) =~= placeholders(
                start as nat,
                k as nat,
            ).push(placeholder((start + k) as nat)));
            lemma_join_push(
                placeholders(start as nat, k as nat),
                ","@,
                placeholder((start + k) as nat),
            );
        }
        if k > 0 {
            out.append(",");
        }
        push_placeholder(out, start + k);
        k = k + 1;
    }
}

} // verus!
