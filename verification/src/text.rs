//! The words and whole numbers of a scene description.

use vstd::prelude::*;

verus! {

/// Whether a character separates words: whether Unicode gives it the
/// property White_Space. These are tab to carriage return, the space, the
/// next-line control, the no-break space, the ogham space mark, the spaces
/// from en quad to hair space, the line and paragraph separators, and the
/// narrow no-break, medium mathematical and ideographic spaces.
pub open spec fn is_space(c: char) -> bool {
    ||| '\u{9}' <= c <= '\u{d}'
    ||| c == ' '
    ||| c == '\u{85}'
    ||| c == '\u{a0}'
    ||| c == '\u{1680}'
    ||| '\u{2000}' <= c <= '\u{200a}'
    ||| c == '\u{2028}'
    ||| c == '\u{2029}'
    ||| c == '\u{202f}'
    ||| c == '\u{205f}'
    ||| c == '\u{3000}'
}

/// The words that are complete after `n` characters of a line, and the
/// characters of the word that is open then.
pub open spec fn scanned(line: Seq<char>, n: nat) -> (Seq<Seq<char>>, Seq<char>)
    decreases n,
{
    if n == 0 {
        (Seq::empty(), Seq::empty())
    } else {
        let (done, open) = scanned(line, (n - 1) as nat);
        if !is_space(line[n - 1]) {
            (done, open.push(line[n - 1]))
        } else if open.len() > 0 {
            (done.push(open), Seq::empty())
        } else {
            (done, open)
        }
    }
}

/// The words of a line: its longest runs of characters that are no spaces.
pub open spec fn words(line: Seq<char>) -> Seq<Seq<char>> {
    let (done, open) = scanned(line, line.len());
    if open.len() > 0 {
        done.push(open)
    } else {
        done
    }
}

/// The words of a line, each as its characters.
pub open spec fn views(tokens: Seq<Vec<char>>) -> Seq<Seq<char>> {
    Seq::new(tokens.len(), |i: int| tokens[i]@)
}

fn space(c: char) -> (r: bool)
    ensures
        r == is_space(c),
{
    ('\u{9}' <= c && c <= '\u{d}') || c == ' ' || c == '\u{85}' || c == '\u{a0}' || c == '\u{1680}' || ('\u{2000}'
        <= c && c <= '\u{200a}') || c == '\u{2028}' || c == '\u{2029}' || c == '\u{202f}' || c == '\u{205f}' || c
        == '\u{3000}'
}

/// Splits a line into its words.
pub fn split_whitespace(line: &Vec<char>) -> (r: Vec<Vec<char>>)
    ensures
        views(r@) == words(line@),
{
    let mut done: Vec<Vec<char>> = Vec::new();
    let mut open: Vec<char> = Vec::new();
    let mut i: usize = 0;
    while i < line.len()
        invariant
            i <= line@.len(),
            (views(done@), open@) == scanned(line@, i as nat),
        decreases line@.len() - i,
    {
        let c = line[i];
        let ghost before = views(done@);
        if !space(c) {
            open.push(c);
        } else if open.len() > 0 {
            let ghost word = open@;
            done.push(open);
            open = Vec::new();
            assert(views(done@) =~= before.push(word));
        }
        i = i + 1;
    }
    if open.len() > 0 {
        let ghost before = views(done@);
        let ghost word = open@;
        done.push(open);
        assert(views(done@) =~= before.push(word));
    }
    done
}

/// Whether no character is a space.
pub open spec fn spaceless(word: Seq<char>) -> bool {
    forall|j: int| 0 <= j < word.len() ==> !is_space(#[trigger] word[j])
}

proof fn lemma_scanned_words(line: Seq<char>, n: nat)
    requires
        n <= line.len(),
    ensures
        forall|k: int|
            0 <= k < scanned(line, n).0.len() ==> (#[trigger] scanned(line, n).0[k]).len() > 0 && spaceless(
                scanned(line, n).0[k],
            ),
        spaceless(scanned(line, n).1),
    decreases n,
{
    if n > 0 {
        lemma_scanned_words(line, (n - 1) as nat);
        let (done, open) = scanned(line, (n - 1) as nat);
        let (done2, open2) = scanned(line, n);
        if !is_space(line[n - 1]) {
            assert forall|j: int| 0 <= j < open2.len() implies !is_space(#[trigger] open2[j]) by {
                if j < open.len() {
                    assert(open2[j] == open[j]);
                }
            }
        } else if open.len() > 0 {
            assert forall|k: int| 0 <= k < done2.len() implies (#[trigger] done2[k]).len() > 0 && spaceless(
                done2[k],
            ) by {
                if k < done.len() {
                    assert(done2[k] == done[k]);
                }
            }
        }
    }
}

/// No word of a line is empty and no word holds a space.
pub proof fn lemma_words_are_words(line: Seq<char>)
    ensures
        forall|k: int|
            0 <= k < words(line).len() ==> (#[trigger] words(line)[k]).len() > 0 && spaceless(words(line)[k]),
{
    lemma_scanned_words(line, line.len());
    let (done, open) = scanned(line, line.len());
    assert forall|k: int| 0 <= k < words(line).len() implies (#[trigger] words(line)[k]).len() > 0
        && spaceless(words(line)[k]) by {
        if k < done.len() {
            assert(words(line)[k] == done[k]);
        }
    }
}

/// Whether a token spells a word.
pub fn spells(token: &Vec<char>, word: &str) -> (r: bool)
    ensures
        r == (token@ == word@),
{
    let n = word.unicode_len();
    if token.len() != n {
        return false;
    }
    let mut i: usize = 0;
    while i < n
        invariant
            i <= n,
            n == word@.len(),
            n == token@.len(),
            forall|k: int| 0 <= k < i ==> token@[k] == word@[k],
        decreases n - i,
    {
        if token[i] != word.get_char(i) {
            return false;
        }
        i = i + 1;
    }
    assert(token@ =~= word@);
    true
}

/// Whether a character is a decimal digit.
pub open spec fn is_digit(c: char) -> bool {
    '0' <= c <= '9'
}

/// The number that decimal digits write.
pub open spec fn decimal(digits: Seq<char>) -> nat
    decreases digits.len(),
{
    if digits.len() == 0 {
        0
    } else {
        10 * decimal(digits.drop_last()) + (digits.last() as u32 - '0' as u32) as nat
    }
}

/// Whether the characters are one decimal digit or more.
pub open spec fn all_digits(digits: Seq<char>) -> bool {
    digits.len() > 0 && forall|i: int| 0 <= i < digits.len() ==> is_digit(#[trigger] digits[i])
}

/// The whole number that a token writes: digits, after a sign where it has one.
pub open spec fn integer(token: Seq<char>) -> Option<int> {
    if token.len() > 0 && token[0] == '-' {
        if all_digits(token.skip(1)) {
            Some(-(decimal(token.skip(1)) as int))
        } else {
            None
        }
    } else if token.len() > 0 && token[0] == '+' {
        if all_digits(token.skip(1)) {
            Some(decimal(token.skip(1)) as int)
        } else {
            None
        }
    } else if all_digits(token) {
        Some(decimal(token) as int)
    } else {
        None
    }
}

/// The number that a token writes where it is written without a minus
/// sign and a `u32` holds it.
pub open spec fn unsigned(token: Seq<char>) -> Option<u32> {
    if token.len() > 0 && token[0] == '-' {
        None
    } else {
        match integer(token) {
            Some(v) => if 0 <= v <= u32::MAX {
                Some(v as u32)
            } else {
                None
            },
            None => None,
        }
    }
}

/// The number that a token writes where an `i32` holds it.
pub open spec fn signed(token: Seq<char>) -> Option<i32> {
    match integer(token) {
        Some(v) => if i32::MIN <= v <= i32::MAX {
            Some(v as i32)
        } else {
            None
        },
        None => None,
    }
}

/// Digits that write a longer number write a larger one.
proof fn lemma_decimal_grows(digits: Seq<char>, n: int)
    requires
        0 <= n <= digits.len(),
    ensures
        decimal(digits.take(n)) <= decimal(digits),
    decreases digits.len() - n,
{
    if n < digits.len() {
        lemma_decimal_grows(digits, n + 1);
        assert(digits.take(n + 1).drop_last() =~= digits.take(n));
    } else {
        assert(digits.take(n) =~= digits);
    }
}

/// The number that the digits from `from` on write, where it is no more than `limit`.
fn magnitude(token: &Vec<char>, from: usize, limit: u64) -> (r: Option<u64>)
    requires
        from <= token@.len(),
        limit <= 0x1_0000_0000,
    ensures
        r.is_some() == (all_digits(token@.skip(from as int)) && decimal(token@.skip(from as int)) <= limit),
        r matches Some(v) ==> v == decimal(token@.skip(from as int)),
{
    let ghost digits = token@.skip(from as int);
    if from == token.len() {
        return None;
    }
    let mut value: u64 = 0;
    let mut i: usize = from;
    while i < token.len()
        invariant
            from <= i <= token@.len(),
            digits == token@.skip(from as int),
            limit <= 0x1_0000_0000,
            value <= limit,
            value == decimal(digits.take(i - from)),
            forall|k: int| 0 <= k < i - from ==> is_digit(#[trigger] digits[k]),
        decreases token@.len() - i,
    {
        let c = token[i];
        if c < '0' || c > '9' {
            assert(!is_digit(digits[i - from]));
            return None;
        }
        let digit: u64 = (c as u32 - '0' as u32) as u64;
        proof {
            assert(digits.take(i - from + 1).drop_last() =~= digits.take(i - from));
            assert(digits.take(i - from + 1).last() == c);
        }
        let next: u64 = value * 10 + digit;
        if next > limit {
            proof {
                lemma_decimal_grows(digits, i - from + 1);
            }
            return None;
        }
        value = next;
        i = i + 1;
    }
    assert(digits.take(i - from) =~= digits);
    Some(value)
}

/// The number that a token writes, as `u32`: digits after an optional
/// plus sign, no more than the type holds.
pub fn parse_u32(token: &Vec<char>) -> (r: Option<u32>)
    ensures
        r == unsigned(token@),
{
    if token.len() > 0 && token[0] == '-' {
        return None;
    }
    let from: usize = if token.len() > 0 && token[0] == '+' {
        1
    } else {
        0
    };
    assert(token@.skip(0) =~= token@);
    match magnitude(token, from, 0xffff_ffff) {
        Some(v) => Some(v as u32),
        None => None,
    }
}

/// The number that a token writes, as `i32`: digits after an optional
/// sign, within what the type holds.
pub fn parse_i32(token: &Vec<char>) -> (r: Option<i32>)
    ensures
        r == signed(token@),
{
    assert(token@.skip(0) =~= token@);
    if token.len() > 0 && token[0] == '-' {
        match magnitude(token, 1, 0x8000_0000) {
            Some(v) => Some((0 - (v as i64)) as i32),
            None => None,
        }
    } else {
        let from: usize = if token.len() > 0 && token[0] == '+' {
            1
        } else {
            0
        };
        match magnitude(token, from, 0x7fff_ffff) {
            Some(v) => Some(v as i32),
            None => None,
        }
    }
}

} // verus!
