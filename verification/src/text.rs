//! Text helpers of the wire protocol: white space and tokens.

use vstd::prelude::*;
use vstd::string::StrSliceExecFns;
use vstd::string::StringExecFns;

verus! {

/// The characters that separate tokens: those with the Unicode property
/// `White_Space`.
pub open spec fn is_whitespace(c: char) -> bool {
    let u = c as u32;
    ||| 0x09 <= u <= 0x0D
    ||| u == 0x20
    ||| u == 0x85
    ||| u == 0xA0
    ||| u == 0x1680
    ||| 0x2000 <= u <= 0x200A
    ||| u == 0x2028
    ||| u == 0x2029
    ||| u == 0x202F
    ||| u == 0x205F
    ||| u == 0x3000
}

/// The tokens of a line: its maximal runs of characters that are not white
/// space, from left to right.
///
/// Read from the right end: a white space character adds nothing; another
/// character lengthens the last token where the character before it belongs
/// to a token, and opens a new token otherwise.
pub open spec fn tokens(s: Seq<char>) -> Seq<Seq<char>>
    decreases s.len(),
{
    if s.len() == 0 {
        Seq::empty()
    } else if is_whitespace(s.last()) {
        tokens(s.drop_last())
    } else if s.len() >= 2 && !is_whitespace(s[s.len() - 2]) {
        let before = tokens(s.drop_last());
        before.drop_last().push(before.last().push(s.last()))
    } else {
        tokens(s.drop_last()).push(seq![s.last()])
    }
}

/// A text of one or more characters, none of them white space.
pub open spec fn is_word(s: Seq<char>) -> bool {
    &&& s.len() > 0
    &&& forall|i: int| 0 <= i < s.len() ==> !is_whitespace(#[trigger] s[i])
}

/// Every token is a word, and a line has a token exactly where its last
/// character belongs to one.
pub proof fn lemma_tokens_are_words(s: Seq<char>)
    ensures
        forall|k: int| 0 <= k < tokens(s).len() ==> is_word(#[trigger] tokens(s)[k]),
        s.len() > 0 && !is_whitespace(s.last()) ==> tokens(s).len() > 0,
    decreases s.len(),
{
    if s.len() > 0 {
        let front = s.drop_last();
        let before = tokens(front);
        lemma_tokens_are_words(front);
        if is_whitespace(s.last()) {
        } else if s.len() >= 2 && !is_whitespace(s[s.len() - 2]) {
            assert(front.last() == s[s.len() - 2]);
            let grown = before.last().push(s.last());
            assert(is_word(before[before.len() - 1]));
            assert forall|i: int| 0 <= i < grown.len() implies !is_whitespace(
                #[trigger] grown[i],
            ) by {
                if i < before.last().len() {
                    assert(grown[i] == before.last()[i]);
                }
            }
            assert forall|k: int| 0 <= k < tokens(s).len() implies is_word(
                #[trigger] tokens(s)[k],
            ) by {
                if k < before.len() - 1 {
                    assert(tokens(s)[k] == before[k]);
                }
            }
        } else {
            let opened = seq![s.last()];
            assert(is_word(opened));
            assert forall|k: int| 0 <= k < tokens(s).len() implies is_word(
                #[trigger] tokens(s)[k],
            ) by {
                if k < before.len() {
                    assert(tokens(s)[k] == before[k]);
                }
            }
        }
    }
}

/// A word is its own and only token.
pub proof fn lemma_word_is_one_token(s: Seq<char>)
    requires
        is_word(s),
    ensures
        tokens(s) == seq![s],
    decreases s.len(),
{
    if s.len() == 1 {
        assert(!is_whitespace(s[0]));
        assert(s.drop_last() =~= Seq::<char>::empty());
        assert(tokens(s.drop_last()) =~= Seq::<Seq<char>>::empty());
        assert(tokens(s) =~= seq![seq![s.last()]]);
        assert(seq![s.last()] =~= s);
    } else {
        let front = s.drop_last();
        assert(!is_whitespace(s[s.len() - 1]));
        assert(!is_whitespace(s[s.len() - 2]));
        assert forall|i: int| 0 <= i < front.len() implies !is_whitespace(#[trigger] front[i]) by {
            assert(front[i] == s[i]);
        }
        lemma_word_is_one_token(front);
        assert(tokens(s) =~= seq![front.push(s.last())]);
        assert(front.push(s.last()) =~= s);
    }
}

/// White space separates: the tokens of a line are those of what stands
/// before one of its white space characters, then those of what follows it.
pub proof fn lemma_tokens_split_at_whitespace(before: Seq<char>, c: char, after: Seq<char>)
    requires
        is_whitespace(c),
    ensures
        tokens(before.push(c) + after) == tokens(before) + tokens(after),
    decreases after.len(),
{
    let s = before.push(c) + after;
    if after.len() == 0 {
        assert(s =~= before.push(c));
        assert(s.drop_last() =~= before);
        assert(tokens(before) + tokens(after) =~= tokens(before));
    } else {
        let front = after.drop_last();
        let x = after.last();
        assert(s.drop_last() =~= before.push(c) + front);
        assert(s.last() == x);
        lemma_tokens_split_at_whitespace(before, c, front);
        if is_whitespace(x) {
        } else if after.len() >= 2 && !is_whitespace(after[after.len() - 2]) {
            assert(s[s.len() - 2] == after[after.len() - 2]);
            assert(front.last() == after[after.len() - 2]);
            lemma_tokens_are_words(front);
            let held = tokens(before) + tokens(front);
            assert(held.last() == tokens(front).last());
            assert(held.drop_last() =~= tokens(before) + tokens(front).drop_last());
            assert(tokens(s) =~= tokens(before) + tokens(after));
        } else {
            if after.len() >= 2 {
                assert(s[s.len() - 2] == after[after.len() - 2]);
            } else {
                assert(s[s.len() - 2] == c);
            }
            assert(tokens(s) =~= tokens(before) + tokens(after));
        }
    }
}

/// Tells whether `c` separates tokens.
pub fn char_is_whitespace(c: char) -> (ws: bool)
    ensures
        ws == is_whitespace(c),
{
    let u: u32 = c as u32;
    (0x09 <= u && u <= 0x0D) || u == 0x20 || u == 0x85 || u == 0xA0 || u == 0x1680 || (0x2000 <= u
        && u <= 0x200A) || u == 0x2028 || u == 0x2029 || u == 0x202F || u == 0x205F || u == 0x3000
}

/// Splits a line into its tokens.
pub fn split_whitespace(line: &str) -> (words: Vec<String>)
    ensures
        words.deep_view() == tokens(line@),
{
    let ghost s = line@;
    let n = line.unicode_len();
    let mut words: Vec<String> = Vec::new();
    let mut start: usize = 0;
    let mut in_word = false;
    let mut i: usize = 0;
    assert(s.take(0) =~= Seq::<char>::empty());
    assert(words.deep_view() =~= Seq::<Seq<char>>::empty());
    while i < n
        invariant
            s == line@,
            n == s.len(),
            i <= n,
            in_word ==> start < i && !is_whitespace(s[i - 1]),
            !in_word ==> i == 0 || is_whitespace(s[i - 1]),
            tokens(s.take(i as int)) == if in_word {
                words.deep_view().push(s.subrange(start as int, i as int))
            } else {
                words.deep_view()
            },
        decreases n - i,
    {
        let c = line.get_char(i);
        let ghost before = s.take(i as int);
        let ghost now = s.take(i + 1);
        assert(now.drop_last() =~= before);
        assert(now.last() == c);
        if char_is_whitespace(c) {
            if in_word {
                let word = line.substring_char(start, i).to_owned();
                let ghost done = words.deep_view();
                words.push(word);
                assert(words.deep_view() =~= done.push(s.subrange(start as int, i as int)));
                in_word = false;
            }
        } else {
            if in_word {
                assert(now[now.len() - 2] == s[i - 1]);
                let ghost held = words.deep_view().push(s.subrange(start as int, i as int));
                assert(held.drop_last() =~= words.deep_view());
                assert(held.last().push(c) =~= s.subrange(start as int, i + 1));
            } else {
                assert(i > 0 ==> now[now.len() - 2] == s[i - 1]);
                assert(seq![c] =~= s.subrange(i as int, i + 1));
                start = i;
                in_word = true;
            }
        }
        i = i + 1;
    }
    assert(s.take(n as int) =~= s);
    if in_word {
        let word = line.substring_char(start, n).to_owned();
        let ghost done = words.deep_view();
        words.push(word);
        assert(words.deep_view() =~= done.push(s.subrange(start as int, n as int)));
    }
    words
}

/// Tells whether two texts hold the same characters.
pub fn text_equals(a: &str, b: &str) -> (same: bool)
    ensures
        same == (a@ == b@),
{
    a.to_owned() == b.to_owned()
}

/// The character of a decimal digit.
pub open spec fn digit_char(d: int) -> char {
    if d == 0 {
        '0'
    } else if d == 1 {
        '1'
    } else if d == 2 {
        '2'
    } else if d == 3 {
        '3'
    } else if d == 4 {
        '4'
    } else if d == 5 {
        '5'
    } else if d == 6 {
        '6'
    } else if d == 7 {
        '7'
    } else if d == 8 {
        '8'
    } else {
        '9'
    }
}

/// A number in decimal, without sign and without leading zeros.
pub open spec fn decimal(n: nat) -> Seq<char>
    decreases n,
{
    if n < 10 {
        seq![digit_char(n as int)]
    } else {
        decimal(n / 10).push(digit_char((n % 10) as int))
    }
}

fn digit_text(d: u16) -> (text: &'static str)
    requires
        d < 10,
    ensures
        text@ == seq![digit_char(d as int)],
{
    proof {
        reveal_strlit("0");
        reveal_strlit("1");
        reveal_strlit("2");
        reveal_strlit("3");
        reveal_strlit("4");
        reveal_strlit("5");
        reveal_strlit("6");
        reveal_strlit("7");
        reveal_strlit("8");
        reveal_strlit("9");
    }
    let text = if d == 0 {
        "0"
    } else if d == 1 {
        "1"
    } else if d == 2 {
        "2"
    } else if d == 3 {
        "3"
    } else if d == 4 {
        "4"
    } else if d == 5 {
        "5"
    } else if d == 6 {
        "6"
    } else if d == 7 {
        "7"
    } else if d == 8 {
        "8"
    } else {
        "9"
    };
    assert(text@ =~= seq![digit_char(d as int)]);
    text
}

/// Writes a port number in decimal.
pub fn port_text(port: u16) -> (text: String)
    ensures
        text@ == decimal(port as nat),
    decreases port,
{
    if port < 10 {
        digit_text(port).to_owned()
    } else {
        let mut text = port_text(port / 10);
        text.append(digit_text(port % 10));
        text
    }
}

/// Different numbers are written differently.
pub proof fn lemma_decimal_is_injective(a: nat, b: nat)
    requires
        decimal(a) == decimal(b),
    ensures
        a == b,
    decreases a,
{
    lemma_decimal_length(a);
    lemma_decimal_length(b);
    if a < 10 {
        assert(decimal(a).len() == 1);
        assert(b < 10);
        assert(decimal(a)[0] == digit_char(a as int));
        assert(decimal(b)[0] == digit_char(b as int));
        lemma_digit_char_is_injective(a as int, b as int);
    } else {
        lemma_decimal_length(a / 10);
        assert(decimal(a).len() >= 2);
        assert(b >= 10);
        assert(decimal(a).drop_last() =~= decimal(a / 10));
        assert(decimal(b).drop_last() =~= decimal(b / 10));
        lemma_decimal_is_injective(a / 10, b / 10);
        assert(decimal(a).last() == digit_char((a % 10) as int));
        assert(decimal(b).last() == digit_char((b % 10) as int));
        lemma_digit_char_is_injective((a % 10) as int, (b % 10) as int);
    }
}

/// Different digits have different characters.
pub proof fn lemma_digit_char_is_injective(a: int, b: int)
    requires
        0 <= a < 10,
        0 <= b < 10,
        digit_char(a) == digit_char(b),
    ensures
        a == b,
{
    assert(digit_char(a) as u32 == '0' as u32 + a);
    assert(digit_char(b) as u32 == '0' as u32 + b);
}

/// A number is written with at least one character.
pub proof fn lemma_decimal_length(n: nat)
    ensures
        decimal(n).len() >= 1,
        n >= 10 ==> decimal(n).len() >= 2,
    decreases n,
{
    if n >= 10 {
        lemma_decimal_length(n / 10);
    }
}

} // verus!
