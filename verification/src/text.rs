//! Small texts: numbers in decimal, blank lines, words joined by spaces.
use vstd::arithmetic::div_mod::lemma_div_denominator;
use vstd::arithmetic::power::{lemma_pow1, lemma_pow_positive, pow};
use vstd::prelude::*;

verus! {

/// The decimal digit with the value `d`.
pub open spec fn digit(d: nat) -> char {
    (48 + d) as char
}

/// A number in decimal, without leading zeros.
pub open spec fn decimal(n: nat) -> Seq<char>
    decreases n,
{
    if n < 10 {
        seq![digit(n)]
    } else {
        decimal(n / 10).push(digit(n % 10))
    }
}

/// The number that a sequence of decimal digits stands for.
pub open spec fn decimal_value(digits: Seq<char>) -> int
    decreases digits.len(),
{
    if digits.len() == 0 {
        0
    } else {
        decimal_value(digits.drop_last()) * 10 + (digits.last() as int - 48)
    }
}

/// The characters of Unicode's `White_Space` property.
pub open spec fn is_white_space(c: char) -> bool {
    ||| 0x09 <= c as int <= 0x0d
    ||| c as int == 0x20
    ||| c as int == 0x85
    ||| c as int == 0xa0
    ||| c as int == 0x1680
    ||| 0x2000 <= c as int <= 0x200a
    ||| c as int == 0x2028
    ||| c as int == 0x2029
    ||| c as int == 0x202f
    ||| c as int == 0x205f
    ||| c as int == 0x3000
}

/// A text of which nothing is left once white space is trimmed off.
pub open spec fn is_blank(text: Seq<char>) -> bool {
    forall|i: int| 0 <= i < text.len() ==> is_white_space(#[trigger] text[i])
}

/// The texts of some strings.
pub open spec fn texts(words: Seq<String>) -> Seq<Seq<char>> {
    words.map_values(|word: String| word@)
}

/// Texts with a space between each two of them.
pub open spec fn joined(words: Seq<Seq<char>>) -> Seq<char>
    decreases words.len(),
{
    if words.len() == 0 {
        Seq::empty()
    } else if words.len() == 1 {
        words[0]
    } else {
        joined(words.drop_last()) + seq![' '] + words.last()
    }
}

/// The digit with the value `d`, as text.
fn digit_text(d: u64) -> (text: &'static str)
    requires
        d < 10,
    ensures
        text@ == seq![digit(d as nat)],
{
    proof {
        reveal_strlit("0");
        reveal_strlit("1");
        reveal_strlit("2");
        reveal_strlit("3");
        reveal_strlit("4");
        reveal_strlit("5");
        reveal_strlit("6");
        reveal_strlit("7");
        reveal_strlit("8");
        reveal_strlit("9");
    }
    let text = match d {
        0 => "0",
        1 => "1",
        2 => "2",
        3 => "3",
        4 => "4",
        5 => "5",
        6 => "6",
        7 => "7",
        8 => "8",
        _ => "9",
    };
    assert(text@ =~= seq![digit(d as nat)]);
    text
}

/// Writes a number in decimal.
pub fn decimal_text(n: u64) -> (text: String)
    ensures
        text@ == decimal(n as nat),
    decreases n,
{
    if n < 10 {
        digit_text(n).to_owned()
    } else {
        let mut text = decimal_text(n / 10);
        text.append(digit_text(n % 10));
        assert(text@ =~= decimal(n as nat));
        text
    }
}

/// Whether a character is white space.
pub fn white_space(c: char) -> (yes: bool)
    ensures
        yes == is_white_space(c),
{
    let code: u32 = c as u32;
    (0x09 <= code && code <= 0x0d) || code == 0x20 || code == 0x85 || code == 0xa0 || code
        == 0x1680 || (0x2000 <= code && code <= 0x200a) || code == 0x2028 || code == 0x2029
        || code == 0x202f || code == 0x205f || code == 0x3000
}

/// Whether nothing is left of a text once white space is trimmed off.
pub fn blank(text: &str) -> (yes: bool)
    ensures
        yes == is_blank(text@),
{
    for c in chars: text.chars()
        invariant
            chars.seq() == text@,
            forall|i: int| 0 <= i < chars.index() ==> is_white_space(#[trigger] text@[i]),
    {
        if !white_space(c) {
            assert(text@[chars.index()] == c);
            return false;
        }
    }
    true
}

/// Joins the words from number `from` on, with a space between each two of them.
pub fn join_from(words: &Vec<String>, from: usize) -> (text: String)
    requires
        from <= words@.len(),
    ensures
        text@ == joined(texts(words@).skip(from as int)),
{
    let mut text = String::new();
    let mut i: usize = from;
    let ghost all = texts(words@);
    proof {
        reveal_strlit(" ");
    }
    assert(" "@ =~= seq![' ']);
    while i < words.len()
        invariant
            from <= i <= words@.len(),
            all == texts(words@),
            " "@ == seq![' '],
            text@ == joined(all.subrange(from as int, i as int)),
        decreases words@.len() - i,
    {
        let ghost before = all.subrange(from as int, i as int);
        let ghost after = all.subrange(from as int, i + 1);
        assert(after.drop_last() =~= before);
        if i > from {
            text.append(" ");
        }
        text.append(words[i].as_str());
        assert(text@ =~= joined(after));
        i = i + 1;
    }
    assert(all.subrange(from as int, i as int) =~= all.skip(from as int));
    text
}

/// A number can be read back from its digits: two numbers that are written alike are the
/// same.
pub proof fn law_decimal_reads_back(n: nat)
    ensures
        decimal_value(decimal(n)) == n,
    decreases n,
{
    if n < 10 {
        let digits = seq![digit(n)];
        assert(digits.drop_last() =~= Seq::empty());
        assert(digits.last() as int == 48 + n);
        assert(decimal_value(digits.drop_last()) == 0);
    } else {
        law_decimal_reads_back(n / 10);
        let digits = decimal(n);
        assert(digits.drop_last() =~= decimal(n / 10));
        assert(digits.last() as int == 48 + n % 10);
    }
}

/// A number is written with decimal digits only, and with at least one.
pub proof fn law_decimal_is_digits(n: nat)
    ensures
        decimal(n).len() > 0,
        forall|i: int| 0 <= i < decimal(n).len() ==> 48 <= #[trigger] decimal(n)[i] as int <= 57,
    decreases n,
{
    if n >= 10 {
        law_decimal_is_digits(n / 10);
    }
}

/// Digit number `i` of a number, counted from its end, is what is left of the number over
/// ten after it was divided by ten `i` times; and a number has no more digits than it
/// needs.
pub proof fn law_decimal_digits_have_their_places(n: nat)
    ensures
        n < pow(10, decimal(n).len()),
        decimal(n).len() > 1 ==> pow(10, (decimal(n).len() - 1) as nat) <= n,
        forall|i: int|
            0 <= i < decimal(n).len() ==> #[trigger] decimal(n)[decimal(n).len() - 1 - i] as int
                == 48 + (n as int / pow(10, i as nat)) % 10,
    decreases n,
{
    reveal(pow);
    let digits = decimal(n);
    if n < 10 {
        assert(pow(10, 1) == 10) by {
            lemma_pow1(10);
        }
        assert(pow(10, 0) == 1);
        assert forall|i: int| 0 <= i < digits.len() implies #[trigger] digits[digits.len() - 1 - i]
            as int == 48 + (n as int / pow(10, i as nat)) % 10 by {
            assert(i == 0);
        }
    } else {
        let high = decimal(n / 10);
        law_decimal_digits_have_their_places(n / 10);
        law_decimal_is_digits(n / 10);
        assert(digits =~= high.push(digit(n % 10)));
        assert(pow(10, digits.len()) == 10 * pow(10, high.len()));
        assert(high.len() > 1 ==> pow(10, high.len()) == 10 * pow(10, (high.len() - 1) as nat));
        assert(high.len() == 1 ==> pow(10, high.len()) == 10) by {
            lemma_pow1(10);
        }
        assert forall|i: int| 0 <= i < digits.len() implies #[trigger] digits[digits.len() - 1 - i]
            as int == 48 + (n as int / pow(10, i as nat)) % 10 by {
            if i == 0 {
                assert(pow(10, 0) == 1);
                assert(digits.last() as int == 48 + n % 10);
            } else {
                let j = i - 1;
                assert(digits[digits.len() - 1 - i] == high[high.len() - 1 - j]);
                assert(pow(10, i as nat) == 10 * pow(10, j as nat));
                lemma_pow_positive(10, j as nat);
                lemma_div_denominator(n as int, 10, pow(10, j as nat));
            }
        }
    }
}

/// White space is these characters and no others.
pub proof fn law_white_space_is_these_characters(c: char)
    ensures
        is_white_space(c) <==> seq![
            0x09int,
            0x0a,
            0x0b,
            0x0c,
            0x0d,
            0x20,
            0x85,
            0xa0,
            0x1680,
            0x2000,
            0x2001,
            0x2002,
            0x2003,
            0x2004,
            0x2005,
            0x2006,
            0x2007,
            0x2008,
            0x2009,
            0x200a,
            0x2028,
            0x2029,
            0x202f,
            0x205f,
            0x3000,
        ].contains(c as int),
{
    let all = seq![
        0x09int,
        0x0a,
        0x0b,
        0x0c,
        0x0d,
        0x20,
        0x85,
        0xa0,
        0x1680,
        0x2000,
        0x2001,
        0x2002,
        0x2003,
        0x2004,
        0x2005,
        0x2006,
        0x2007,
        0x2008,
        0x2009,
        0x200a,
        0x2028,
        0x2029,
        0x202f,
        0x205f,
        0x3000,
    ];
    let x = c as int;
    if is_white_space(c) {
        if 0x09 <= x <= 0x0d {
            assert(all[x - 0x09] == x);
        } else if x == 0x20 {
            assert(all[5] == x);
        } else if x == 0x85 {
            assert(all[6] == x);
        } else if x == 0xa0 {
            assert(all[7] == x);
        } else if x == 0x1680 {
            assert(all[8] == x);
        } else if 0x2000 <= x <= 0x200a {
            assert(all[9 + (x - 0x2000)] == x);
        } else if x == 0x2028 {
            assert(all[20] == x);
        } else if x == 0x2029 {
            assert(all[21] == x);
        } else if x == 0x202f {
            assert(all[22] == x);
        } else if x == 0x205f {
            assert(all[23] == x);
        } else {
            assert(all[24] == x);
        }
    }
}

/// A text is blank exactly if its parts are: nothing at all is blank, a character is blank
/// if it is white space, and so is a text of two parts if both are. So one character that
/// is not white space, wherever it stands, makes a text not blank.
pub proof fn law_blank_goes_by_the_characters(a: Seq<char>, b: Seq<char>, c: char)
    ensures
        is_blank(Seq::empty()),
        is_blank(seq![c]) <==> is_white_space(c),
        is_blank(a + b) <==> is_blank(a) && is_blank(b),
        !is_white_space(c) ==> !is_blank(a + seq![c] + b),
{
    if is_blank(a + b) {
        assert forall|i: int| 0 <= i < a.len() implies is_white_space(#[trigger] a[i]) by {
            assert((a + b)[i] == a[i]);
        }
        assert forall|i: int| 0 <= i < b.len() implies is_white_space(#[trigger] b[i]) by {
            assert((a + b)[a.len() + i] == b[i]);
        }
    }
    assert(seq![c][0] == c);
    let whole = a + seq![c] + b;
    assert(whole[a.len() as int] == c);
}

/// The texts of some strings are those strings' texts, one for one.
pub proof fn law_texts_are_those_of_the_strings(words: Seq<String>)
    ensures
        texts(words).len() == words.len(),
        forall|i: int| 0 <= i < words.len() ==> #[trigger] texts(words)[i] == words[i]@,
{
}

/// Joined words hold every word, whole and in its place, with one space between each two
/// and nothing else: the length is that of all words and the gaps between them, and word
/// number `i` stands behind the words before it and `i` spaces.
pub proof fn law_joined_holds_every_word(words: Seq<Seq<char>>)
    ensures
        joined(words).len() == words.flatten().len() + if words.len() > 0 {
            words.len() - 1
        } else {
            0
        },
        forall|i: int|
            #![trigger words[i]]
            0 <= i < words.len() ==> {
                let at = words.take(i).flatten().len() + i;
                &&& at + words[i].len() <= joined(words).len()
                &&& joined(words).subrange(at, at + words[i].len()) == words[i]
                &&& i > 0 ==> joined(words)[at - 1] == ' '
            },
    decreases words.len(),
{
    if words.len() == 0 {
        assert(words.flatten() =~= Seq::<char>::empty());
    } else {
        let before = words.drop_last();
        let last = words.last();
        let n = before.len() as int;
        law_joined_holds_every_word(before);
        before.lemma_flatten_push(last);
        assert(before.push(last) =~= words);
        assert(words.take(n) =~= before);
        let text = joined(words);
        if n == 0 {
            assert(before.flatten() =~= Seq::<char>::empty());
            assert(words.flatten() =~= last);
            assert(text == last);
        } else {
            assert(text =~= joined(before) + seq![' '] + last);
        }
        assert forall|i: int| #![trigger words[i]] 0 <= i < words.len() implies {
            let at = words.take(i).flatten().len() + i;
            &&& at + words[i].len() <= text.len()
            &&& text.subrange(at, at + words[i].len()) == words[i]
            &&& i > 0 ==> text[at - 1] == ' '
        } by {
            let at = words.take(i).flatten().len() + i;
            if i < n {
                assert(before[i] == words[i]);
                assert(words.take(i) =~= before.take(i));
                assert(text.subrange(at, at + words[i].len()) =~= joined(before).subrange(
                    at,
                    at + words[i].len(),
                ));
            } else {
                assert(text.subrange(at, at + words[i].len()) =~= last);
            }
        }
    }
}

} // verus!
