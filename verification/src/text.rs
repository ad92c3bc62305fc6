//! Text the engine assembles: parameters made of words, and numbers in
//! decimal for the report lines.

use vstd::prelude::*;

verus! {

/// The words of `words` in order, with one space between neighbours.
pub open spec fn joined(words: Seq<Seq<char>>) -> Seq<char>
    decreases words.len(),
{
    if words.len() == 0 {
        Seq::empty()
    } else if words.len() == 1 {
        words[0]
    } else {
        joined(words.drop_last()) + seq![' '] + words.last()
    }
}

/// Joins `words` with single spaces.
pub fn join_words(words: &Vec<String>) -> (text: String)
    ensures
        text@ == joined(words.deep_view()),
{
    let mut text = String::new();
    let mut i: usize = 0;
    while i < words.len()
        invariant
            i <= words.len(),
            text@ == joined(words.deep_view().take(i as int)),
        decreases words.len() - i,
    {
        if i > 0 {
            text.append(" ");
        }
        text.append(words[i].as_str());
        proof {
            reveal_strlit(" ");
            let all = words.deep_view();
            assert(all.take(i + 1).drop_last() == all.take(i as int));
            assert(all.take(i + 1).last() == words[i as int]@);
            assert(" "@ == seq![' ']);
        }
        i += 1;
    }
    proof {
        assert(words.deep_view().take(i as int) == words.deep_view());
    }
    text
}

/// The character of the decimal digit `d`.
pub open spec fn digit(d: nat) -> char {
    if d == 0 {
        '0'
    } else if d == 1 {
        '1'
    } else if d == 2 {
        '2'
    } else if d == 3 {
        '3'
    } else if d == 4 {
        '4'
    } else if d == 5 {
        '5'
    } else if d == 6 {
        '6'
    } else if d == 7 {
        '7'
    } else if d == 8 {
        '8'
    } else {
        '9'
    }
}

/// `n` written in decimal, without sign or leading zeros.
pub open spec fn decimal(n: nat) -> Seq<char>
    decreases n,
{
    if n < 10 {
        seq![digit(n)]
    } else {
        decimal(n / 10).push(digit(n % 10))
    }
}

fn digit_text(d: u64) -> (text: &'static str)
    requires
        d < 10,
    ensures
        text@ == seq![digit(d as nat)],
{
    proof {
        reveal_strlit("0");
        reveal_strlit("1");
        reveal_strlit("2");
        reveal_strlit("3");
        reveal_strlit("4");
        reveal_strlit("5");
        reveal_strlit("6");
        reveal_strlit("7");
        reveal_strlit("8");
        reveal_strlit("9");
    }
    let text = if d == 0 {
        "0"
    } else if d == 1 {
        "1"
    } else if d == 2 {
        "2"
    } else if d == 3 {
        "3"
    } else if d == 4 {
        "4"
    } else if d == 5 {
        "5"
    } else if d == 6 {
        "6"
    } else if d == 7 {
        "7"
    } else if d == 8 {
        "8"
    } else {
        "9"
    };
    assert(text@ =~= seq![digit(d as nat)]);
    text
}

/// Writes `n` in decimal.
pub fn decimal_string(n: u64) -> (text: String)
    ensures
        text@ == decimal(n as nat),
{
    let mut digits: Vec<u64> = Vec::new();
    let mut rest: u64 = n;
    while rest >= 10
        invariant
            forall|k: int| 0 <= k < digits.len() ==> digits[k] < 10,
            decimal(n as nat) == decimal(rest as nat) + digits@.map_values(
                |d: u64| digit(d as nat),
            ).reverse(),
        decreases rest,
    {
        let ghost before = digits@.map_values(|d: u64| digit(d as nat));
        let low: u64 = rest % 10;
        digits.push(low);
        proof {
            let now = digits@.map_values(|d: u64| digit(d as nat));
            assert(now =~= before.push(digit(low as nat)));
            assert(now.reverse() =~= seq![digit(low as nat)] + before.reverse());
            assert(decimal(rest as nat) == decimal((rest / 10) as nat).push(digit(low as nat)));
            assert(decimal((rest / 10) as nat).push(digit(low as nat)) + before.reverse()
                =~= decimal((rest / 10) as nat) + now.reverse());
        }
        rest = rest / 10;
    }
    let ghost before = digits@.map_values(|d: u64| digit(d as nat));
    digits.push(rest);
    let ghost shown = digits@.map_values(|d: u64| digit(d as nat));
    proof {
        assert(shown =~= before.push(digit(rest as nat)));
        assert(shown.reverse() =~= seq![digit(rest as nat)] + before.reverse());
        assert(decimal(n as nat) =~= shown.reverse());
    }
    let mut text = String::new();
    let mut i: usize = digits.len();
    while i > 0
        invariant
            i <= digits.len(),
            forall|k: int| 0 <= k < digits.len() ==> digits[k] < 10,
            shown == digits@.map_values(|d: u64| digit(d as nat)),
            text@ == shown.subrange(i as int, shown.len() as int).reverse(),
        decreases i,
    {
        let ghost done = shown.subrange(i as int, shown.len() as int);
        i -= 1;
        text.append(digit_text(digits[i]));
        proof {
            let more = shown.subrange(i as int, shown.len() as int);
            assert(more =~= seq![shown[i as int]] + done);
            assert(more.reverse() =~= done.reverse().push(shown[i as int]));
            assert(done.reverse() + seq![shown[i as int]] =~= done.reverse().push(shown[i as int]));
        }
    }
    proof {
        assert(shown.subrange(0, shown.len() as int) =~= shown);
    }
    text
}

} // verus!
