use vstd::prelude::*;

verus! {

/// What every ticket's name starts with; the ticket's number follows.
pub const NAME: &'static str = "Token Lottery Ticket #";

/// Where the description of the tokens is found.
pub const URI: &'static str = "Token Lottery";

/// The symbol of the collection and of every ticket.
pub const SYMBOL: &'static str = "TICKET";

/// The character that stands for the digit `d`.
pub open spec fn digit_char(d: int) -> char {
    if d == 0 {
        '0'
    } else if d == 1 {
        '1'
    } else if d == 2 {
        '2'
    } else if d == 3 {
        '3'
    } else if d == 4 {
        '4'
    } else if d == 5 {
        '5'
    } else if d == 6 {
        '6'
    } else if d == 7 {
        '7'
    } else if d == 8 {
        '8'
    } else {
        '9'
    }
}

/// The digit that a character stands for.
pub open spec fn digit_value(c: char) -> int {
    if c == '0' {
        0
    } else if c == '1' {
        1
    } else if c == '2' {
        2
    } else if c == '3' {
        3
    } else if c == '4' {
        4
    } else if c == '5' {
        5
    } else if c == '6' {
        6
    } else if c == '7' {
        7
    } else if c == '8' {
        8
    } else {
        9
    }
}

/// The decimal numeral of `n`, without leading zeros.
pub open spec fn decimal(n: nat) -> Seq<char>
    decreases n,
{
    if n < 10 {
        seq![digit_char(n as int)]
    } else {
        decimal(n / 10).push(digit_char((n % 10) as int))
    }
}

/// The number that a decimal numeral spells.
pub open spec fn decimal_value(s: Seq<char>) -> int
    decreases s.len(),
{
    if s.len() == 0 {
        0
    } else {
        decimal_value(s.drop_last()) * 10 + digit_value(s.last())
    }
}

/// The name of the ticket with number `id`.
pub open spec fn ticket_name_text(id: u64) -> Seq<char> {
    NAME@ + decimal(id as nat)
}

/// `s` without its NUL characters, which pad a stored name to its full
/// width.
pub open spec fn without_nul(s: Seq<char>) -> Seq<char>
    decreases s.len(),
{
    if s.len() == 0 {
        s
    } else if s.last() == '\0' {
        without_nul(s.drop_last())
    } else {
        without_nul(s.drop_last()).push(s.last())
    }
}

/// Reading a numeral gives back the number it was written for.
pub proof fn lemma_decimal_value(n: nat)
    ensures
        decimal_value(decimal(n)) == n,
    decreases n,
{
    if n < 10 {
        let s = seq![digit_char(n as int)];
        assert(s.drop_last() =~= Seq::<char>::empty());
        assert(decimal_value(s.drop_last()) == 0);
    } else {
        lemma_decimal_value(n / 10);
        let s = decimal(n / 10).push(digit_char((n % 10) as int));
        assert(s.drop_last() =~= decimal(n / 10));
    }
}

/// Different tickets have different names.
pub proof fn lemma_ticket_names_distinct(a: u64, b: u64)
    ensures
        ticket_name_text(a) == ticket_name_text(b) <==> a == b,
{
    if ticket_name_text(a) == ticket_name_text(b) {
        let k = NAME@.len() as int;
        let na = ticket_name_text(a);
        let nb = ticket_name_text(b);
        assert(na.subrange(k, na.len() as int) =~= decimal(a as nat));
        assert(nb.subrange(k, nb.len() as int) =~= decimal(b as nat));
        lemma_decimal_value(a as nat);
        lemma_decimal_value(b as nat);
    }
}

/// What is left of a prefix of `s` once the padding is gone opens what is
/// left of `s`.
proof fn lemma_without_nul_prefix(s: Seq<char>, k: int)
    requires
        0 <= k <= s.len(),
    ensures
        without_nul(s.take(k)).len() <= without_nul(s).len(),
        without_nul(s.take(k)) == without_nul(s).take(without_nul(s.take(k)).len() as int),
    decreases s.len(),
{
    if k == s.len() {
        assert(s.take(k) =~= s);
        assert(without_nul(s).take(without_nul(s).len() as int) =~= without_nul(s));
    } else {
        let t = s.drop_last();
        assert(s.take(k) =~= t.take(k));
        lemma_without_nul_prefix(t, k);
        let p = without_nul(t.take(k));
        if s.last() != '\0' {
            assert(without_nul(t).push(s.last()).take(p.len() as int) =~= without_nul(t).take(
                p.len() as int,
            ));
        }
    }
}

fn digit_str(d: u64) -> (r: &'static str)
    requires
        d < 10,
    ensures
        r@ == seq![digit_char(d as int)],
{
    proof {
        reveal_strlit("0");
        reveal_strlit("1");
        reveal_strlit("2");
        reveal_strlit("3");
        reveal_strlit("4");
        reveal_strlit("5");
        reveal_strlit("6");
        reveal_strlit("7");
        reveal_strlit("8");
        reveal_strlit("9");
    }
    let r = if d == 0 {
        "0"
    } else if d == 1 {
        "1"
    } else if d == 2 {
        "2"
    } else if d == 3 {
        "3"
    } else if d == 4 {
        "4"
    } else if d == 5 {
        "5"
    } else if d == 6 {
        "6"
    } else if d == 7 {
        "7"
    } else if d == 8 {
        "8"
    } else {
        "9"
    };
    assert(r@ =~= seq![digit_char(d as int)]);
    r
}

/// Writes the decimal numeral of `n` at the end of `s`.
pub fn append_decimal(s: &mut String, n: u64)
    ensures
        final(s)@ == old(s)@ + decimal(n as nat),
    decreases n,
{
    if n >= 10 {
        append_decimal(s, n / 10);
    }
    s.append(digit_str(n % 10));
    proof {
        if n >= 10 {
            assert((old(s)@ + decimal((n / 10) as nat)) + seq![digit_char((n % 10) as int)]
                =~= old(s)@ + decimal((n / 10) as nat).push(digit_char((n % 10) as int)));
        }
    }
}

/// The name of the ticket with number `id`: `NAME` and the number in
/// decimal.
pub fn ticket_name(id: u64) -> (name: String)
    ensures
        name@ == ticket_name_text(id),
{
    let mut name = String::from_str(NAME);
    append_decimal(&mut name, id);
    name
}

/// Whether `name`, once its padding is taken off, is the name of ticket
/// `id`.
pub fn names_ticket(name: &str, id: u64) -> (r: bool)
    ensures
        r == (without_nul(name@) == ticket_name_text(id)),
{
    let expected = ticket_name(id);
    let want = expected.as_str();
    let n = name.unicode_len();
    let m = want.unicode_len();
    let mut i: usize = 0;
    let mut j: usize = 0;
    while i < n
        invariant
            i <= n,
            j <= m,
            n == name@.len(),
            m == want@.len(),
            want@ == ticket_name_text(id),
            without_nul(name@.take(i as int)) == want@.take(j as int),
        decreases n - i,
    {
        let c = name.get_char(i);
        proof {
            assert(name@.take(i + 1).drop_last() =~= name@.take(i as int));
            lemma_without_nul_prefix(name@, i + 1);
        }
        if c != '\0' {
            if j >= m {
                return false;
            }
            if want.get_char(j) != c {
                proof {
                    let seen = without_nul(name@.take(i + 1));
                    assert(seen == want@.take(j as int).push(c));
                    assert(seen[j as int] == c);
                    assert(without_nul(name@).take(seen.len() as int)[j as int] == c);
                }
                return false;
            }
            assert(want@.take(j as int).push(c) =~= want@.take(j + 1));
            j += 1;
        }
        i += 1;
    }
    proof {
        assert(name@.take(i as int) =~= name@);
        if j == m {
            assert(want@.take(j as int) =~= want@);
        }
    }
    j == m
}

} // verus!
