//! Text as sequences of characters: classes of characters, trimming,
//! searching, and decimal numbers.

use vstd::prelude::*;

verus! {

/// A set of characters that a scan runs over.
#[derive(Clone, Copy)]
pub enum CharClass {
    /// The characters with the Unicode property `White_Space`.
    Whitespace,
    /// One character.
    Only(char),
    /// Every character but one.
    AllBut(char),
}

/// Whether `c` has the Unicode property `White_Space`.
pub open spec fn is_whitespace(c: char) -> bool {
    let n = c as u32;
    (0x09 <= n <= 0x0D) || n == 0x20 || n == 0x85 || n == 0xA0 || n == 0x1680 || (0x2000 <= n
        <= 0x200A) || n == 0x2028 || n == 0x2029 || n == 0x202F || n == 0x205F || n == 0x3000
}

impl CharClass {
    /// Whether `c` belongs to the class.
    pub open spec fn contains(self, c: char) -> bool {
        match self {
            CharClass::Whitespace => is_whitespace(c),
            CharClass::Only(d) => c == d,
            CharClass::AllBut(d) => c != d,
        }
    }

    /// Tests one character.
    pub fn has(&self, c: char) -> (inside: bool)
        ensures
            inside == self.contains(c),
    {
        match *self {
            CharClass::Whitespace => {
                let n: u32 = c as u32;
                (0x09 <= n && n <= 0x0D) || n == 0x20 || n == 0x85 || n == 0xA0 || n == 0x1680 || (
                0x2000 <= n && n <= 0x200A) || n == 0x2028 || n == 0x2029 || n == 0x202F || n
                    == 0x205F || n == 0x3000
            },
            CharClass::Only(d) => c == d,
            CharClass::AllBut(d) => c != d,
        }
    }
}

/// How many characters at the front of `s` belong to `class`.
pub open spec fn leading(s: Seq<char>, class: CharClass) -> nat
    decreases s.len(),
{
    if s.len() > 0 && class.contains(s[0]) {
        1 + leading(s.drop_first(), class)
    } else {
        0
    }
}

/// How many characters at the end of `s` belong to `class`.
pub open spec fn trailing(s: Seq<char>, class: CharClass) -> nat
    decreases s.len(),
{
    if s.len() > 0 && class.contains(s.last()) {
        1 + trailing(s.drop_last(), class)
    } else {
        0
    }
}

/// `s` without the characters of `class` at its front.
pub open spec fn without_leading(s: Seq<char>, class: CharClass) -> Seq<char> {
    s.skip(leading(s, class) as int)
}

/// `s` without the characters of `class` at its end.
pub open spec fn without_trailing(s: Seq<char>, class: CharClass) -> Seq<char> {
    s.take(s.len() - trailing(s, class))
}

/// `s` without whitespace at either end.
pub open spec fn trimmed(s: Seq<char>) -> Seq<char> {
    without_trailing(without_leading(s, CharClass::Whitespace), CharClass::Whitespace)
}

/// What follows the last occurrence of `c` in `s`; all of `s` if there is
/// none.
pub open spec fn after_last(s: Seq<char>, c: char) -> Seq<char> {
    s.skip(s.len() - trailing(s, CharClass::AllBut(c)))
}

/// Whether `pattern` stands in `s` at the position `i`.
pub open spec fn occurs_at(s: Seq<char>, pattern: Seq<char>, i: int) -> bool {
    0 <= i && i + pattern.len() <= s.len() && s.subrange(i, i + pattern.len()) == pattern
}

/// Whether `i` is the first position at which `pattern` stands in `s`.
pub open spec fn first_at(s: Seq<char>, pattern: Seq<char>, i: int) -> bool {
    occurs_at(s, pattern, i) && forall|j: int| 0 <= j < i ==> !occurs_at(s, pattern, j)
}

/// The first position at which `pattern` stands in `s`.
pub open spec fn first_occurrence(s: Seq<char>, pattern: Seq<char>) -> Option<int> {
    if exists|i: int| first_at(s, pattern, i) {
        Some(choose|i: int| first_at(s, pattern, i))
    } else {
        None
    }
}

/// The count of leading characters of a class is the one position up to
/// which all characters belong to it and at which the next does not.
pub proof fn lemma_leading_is(s: Seq<char>, class: CharClass, k: int)
    requires
        0 <= k <= s.len(),
        forall|j: int| 0 <= j < k ==> class.contains(#[trigger] s[j]),
        k < s.len() ==> !class.contains(s[k]),
    ensures
        leading(s, class) == k,
    decreases s.len(),
{
    if k > 0 {
        let rest = s.drop_first();
        assert forall|j: int| 0 <= j < k - 1 implies class.contains(#[trigger] rest[j]) by {
            assert(rest[j] == s[j + 1]);
        }
        lemma_leading_is(rest, class, k - 1);
    }
}

/// The count of trailing characters of a class, seen from the position at
/// which they begin.
pub proof fn lemma_trailing_is(s: Seq<char>, class: CharClass, k: int)
    requires
        0 <= k <= s.len(),
        forall|j: int| k <= j < s.len() ==> class.contains(#[trigger] s[j]),
        k > 0 ==> !class.contains(s[k - 1]),
    ensures
        trailing(s, class) == s.len() - k,
    decreases s.len(),
{
    if k < s.len() {
        let rest = s.drop_last();
        assert forall|j: int| k <= j < rest.len() implies class.contains(#[trigger] rest[j]) by {
            assert(rest[j] == s[j]);
        }
        lemma_trailing_is(rest, class, k);
    }
}

/// The first occurrence of a pattern is the one position that has it and
/// has none before it.
pub proof fn lemma_first_occurrence_is(s: Seq<char>, pattern: Seq<char>, k: int)
    requires
        first_at(s, pattern, k),
    ensures
        first_occurrence(s, pattern) == Some(k),
{
    let i = choose|i: int| first_at(s, pattern, i);
    assert(first_at(s, pattern, i));
    if i < k {
        assert(!occurs_at(s, pattern, i));
    }
    if k < i {
        assert(!occurs_at(s, pattern, k));
    }
}

/// The characters `start..end` of `text`.
pub open spec fn part(text: Seq<char>, start: int, end: int) -> Seq<char> {
    text.subrange(start, end)
}

/// Finds where the characters of `class` at the front of `text[start..end]`
/// stop.
pub fn skip_leading(text: &Vec<char>, start: usize, end: usize, class: CharClass) -> (at: usize)
    requires
        start <= end <= text@.len(),
    ensures
        start <= at <= end,
        at - start == leading(part(text@, start as int, end as int), class),
        part(text@, at as int, end as int) == without_leading(
            part(text@, start as int, end as int),
            class,
        ),
{
    let mut at = start;
    while at < end && class.has(text[at])
        invariant
            start <= at <= end <= text@.len(),
            forall|j: int| start <= j < at ==> class.contains(#[trigger] text@[j]),
        decreases end - at,
    {
        at += 1;
    }
    proof {
        let s = part(text@, start as int, end as int);
        assert forall|j: int| 0 <= j < at - start implies class.contains(#[trigger] s[j]) by {
            assert(s[j] == text@[start + j]);
        }
        lemma_leading_is(s, class, at - start);
        assert(part(text@, at as int, end as int) =~= s.skip(at - start));
    }
    at
}

/// Finds where the characters of `class` at the end of `text[start..end]`
/// begin.
pub fn skip_trailing(text: &Vec<char>, start: usize, end: usize, class: CharClass) -> (at: usize)
    requires
        start <= end <= text@.len(),
    ensures
        start <= at <= end,
        end - at == trailing(part(text@, start as int, end as int), class),
        part(text@, start as int, at as int) == without_trailing(
            part(text@, start as int, end as int),
            class,
        ),
{
    let mut at = end;
    while at > start && class.has(text[at - 1])
        invariant
            start <= at <= end <= text@.len(),
            forall|j: int| at <= j < end ==> class.contains(#[trigger] text@[j]),
        decreases at - start,
    {
        at -= 1;
    }
    proof {
        let s = part(text@, start as int, end as int);
        assert forall|j: int| at - start <= j < s.len() implies class.contains(#[trigger] s[j]) by {
            assert(s[j] == text@[start + j]);
        }
        lemma_trailing_is(s, class, at - start);
        assert(part(text@, start as int, at as int) =~= s.take(at - start));
    }
    at
}

/// Finds the first place in `text[start..end]` where `first` is followed by
/// `second`.
pub fn find_pair(text: &Vec<char>, start: usize, end: usize, first: char, second: char) -> (found:
    Option<usize>)
    requires
        start <= end <= text@.len(),
    ensures
        match found {
            Some(at) => start <= at && at + 2 <= end && first_occurrence(
                part(text@, start as int, end as int),
                seq![first, second],
            ) == Some(at - start),
            None => {
                &&& first_occurrence(part(text@, start as int, end as int), seq![first, second])
                    is None
                &&& forall|i: int|
                    !occurs_at(part(text@, start as int, end as int), seq![first, second], i)
            },
        },
{
    let ghost s = part(text@, start as int, end as int);
    let ghost pattern = seq![first, second];
    let mut at = start;
    while end - at >= 2
        invariant
            start <= at <= end <= text@.len(),
            s == part(text@, start as int, end as int),
            pattern == seq![first, second],
            forall|j: int| 0 <= j < at - start ==> !occurs_at(s, pattern, j),
        decreases end - at,
    {
        if text[at] == first && text[at + 1] == second {
            proof {
                assert(s.subrange(at - start, at - start + 2) =~= pattern);
                lemma_first_occurrence_is(s, pattern, at - start);
            }
            return Some(at);
        }
        proof {
            let k = at - start;
            if occurs_at(s, pattern, k) {
                assert(s.subrange(k, k + 2)[0] == first);
                assert(s.subrange(k, k + 2)[1] == second);
            }
        }
        at += 1;
    }
    proof {
        assert forall|j: int| !occurs_at(s, pattern, j) by {
            if occurs_at(s, pattern, j) {
                assert(j + 2 <= s.len());
            }
        }
    }
    None
}

/// Whether `text[start..end]` reads `word`.
pub fn range_equals(text: &Vec<char>, start: usize, end: usize, word: &Vec<char>) -> (same: bool)
    requires
        start <= end <= text@.len(),
    ensures
        same == (part(text@, start as int, end as int) == word@),
{
    if end - start != word.len() {
        return false;
    }
    let mut i: usize = 0;
    while i < word.len()
        invariant
            start <= end <= text@.len(),
            end - start == word@.len(),
            i <= word@.len(),
            forall|j: int| 0 <= j < i ==> text@[start + j] == word@[j],
        decreases word@.len() - i,
    {
        if text[start + i] != word[i] {
            proof {
                assert(part(text@, start as int, end as int)[i as int] != word@[i as int]);
            }
            return false;
        }
        i += 1;
    }
    assert(part(text@, start as int, end as int) =~= word@);
    true
}

/// The characters of a string.
pub fn chars_of(s: &str) -> (chars: Vec<char>)
    ensures
        chars@ == s@,
{
    let mut chars: Vec<char> = Vec::new();
    for c in it: s.chars()
        invariant
            chars@ == it.seq().take(it.index() as int),
            it.seq() == s@,
    {
        chars.push(c);
    }
    chars
}

/// `text` without the whitespace at either end.
pub fn trim(text: &str) -> (inner: String)
    ensures
        inner@ == trimmed(text@),
{
    let chars = chars_of(text);
    let start = skip_leading(&chars, 0, chars.len(), CharClass::Whitespace);
    let end = skip_trailing(&chars, start, chars.len(), CharClass::Whitespace);
    proof {
        assert(part(chars@, 0, chars@.len() as int) =~= text@);
    }
    String::from_str(text.substring_char(start, end))
}

/// The character that writes the decimal digit `d`.
pub open spec fn digit(d: int) -> char {
    if d == 0 {
        '0'
    } else if d == 1 {
        '1'
    } else if d == 2 {
        '2'
    } else if d == 3 {
        '3'
    } else if d == 4 {
        '4'
    } else if d == 5 {
        '5'
    } else if d == 6 {
        '6'
    } else if d == 7 {
        '7'
    } else if d == 8 {
        '8'
    } else {
        '9'
    }
}

/// `n` written in decimal, without leading zeros.
pub open spec fn decimal(n: nat) -> Seq<char>
    decreases n,
{
    if n < 10 {
        seq![digit(n as int)]
    } else {
        decimal(n / 10).push(digit((n % 10) as int))
    }
}

fn digit_text(d: u64) -> (text: &'static str)
    requires
        d < 10,
    ensures
        text@ == seq![digit(d as int)],
{
    proof {
        reveal_strlit("0");
        reveal_strlit("1");
        reveal_strlit("2");
        reveal_strlit("3");
        reveal_strlit("4");
        reveal_strlit("5");
        reveal_strlit("6");
        reveal_strlit("7");
        reveal_strlit("8");
        reveal_strlit("9");
    }
    let text = if d == 0 {
        "0"
    } else if d == 1 {
        "1"
    } else if d == 2 {
        "2"
    } else if d == 3 {
        "3"
    } else if d == 4 {
        "4"
    } else if d == 5 {
        "5"
    } else if d == 6 {
        "6"
    } else if d == 7 {
        "7"
    } else if d == 8 {
        "8"
    } else {
        "9"
    };
    assert(text@ =~= seq![digit(d as int)]);
    text
}

/// Appends `n` in decimal to `out`.
pub fn push_decimal(out: &mut String, n: u64)
    ensures
        final(out)@ == old(out)@ + decimal(n as nat),
    decreases n,
{
    if n >= 10 {
        push_decimal(out, n / 10);
    }
    out.append(digit_text(n % 10));
    proof {
        if n >= 10 {
            assert(old(out)@ + decimal((n / 10) as nat) + seq![digit((n % 10) as int)] =~= old(
                out,
            )@ + decimal(n as nat));
        } else {
            assert(old(out)@ + seq![digit((n % 10) as int)] =~= old(out)@ + decimal(n as nat));
        }
    }
}

} // verus!
