//! Text: words between spaces, bytes spelled in hexadecimal.

use vstd::prelude::*;
use vstd::string::StrSliceExecFns;

verus! {

/// Whether `c` separates words: the characters of Unicode's `White_Space`.
pub open spec fn is_space(c: char) -> bool {
    let n = c as u32;
    ||| 0x09 <= n <= 0x0D
    ||| n == 0x20
    ||| n == 0x85
    ||| n == 0xA0
    ||| n == 0x1680
    ||| 0x2000 <= n <= 0x200A
    ||| n == 0x2028
    ||| n == 0x2029
    ||| n == 0x202F
    ||| n == 0x205F
    ||| n == 0x3000
}

/// How many characters at the start of `s` are not spaces.
pub open spec fn word_len(s: Seq<char>) -> nat
    decreases s.len(),
{
    if s.len() == 0 || is_space(s[0]) {
        0
    } else {
        1 + word_len(s.skip(1))
    }
}

/// The maximal runs of characters without a space in `s`, in order.
pub open spec fn words(s: Seq<char>) -> Seq<Seq<char>>
    decreases s.len(),
{
    if s.len() == 0 {
        Seq::empty()
    } else if is_space(s[0]) {
        words(s.skip(1))
    } else {
        proof {
            lemma_word_len_bound(s);
        }
        seq![s.take(word_len(s) as int)] + words(s.skip(word_len(s) as int))
    }
}

pub proof fn lemma_word_len_bound(s: Seq<char>)
    ensures
        word_len(s) <= s.len(),
        s.len() > 0 && !is_space(s[0]) ==> word_len(s) >= 1,
    decreases s.len(),
{
    if s.len() > 0 && !is_space(s[0]) {
        lemma_word_len_bound(s.skip(1));
    }
}

/// No character of `s` is a space.
pub open spec fn spaceless(s: Seq<char>) -> bool {
    forall|i: int| 0 <= i < s.len() ==> !is_space(#[trigger] s[i])
}

/// Every character of `s` is a space.
pub open spec fn blank(s: Seq<char>) -> bool {
    forall|i: int| 0 <= i < s.len() ==> is_space(#[trigger] s[i])
}

/// A word that runs up to a space, or to the end, is not made longer by
/// what follows.
pub proof fn lemma_word_len_before_space(a: Seq<char>, b: Seq<char>)
    requires
        b.len() == 0 || is_space(b[0]),
    ensures
        word_len(a + b) == word_len(a),
    decreases a.len(),
{
    if a.len() == 0 {
        assert(a + b =~= b);
    } else if !is_space(a[0]) {
        assert((a + b).skip(1) =~= a.skip(1) + b);
        lemma_word_len_before_space(a.skip(1), b);
    }
}

/// A text that is cut before a space, or at its end, has the words of
/// its two parts.
pub proof fn lemma_words_split(a: Seq<char>, b: Seq<char>)
    requires
        b.len() == 0 || is_space(b[0]),
    ensures
        words(a + b) == words(a) + words(b),
    decreases a.len(),
{
    if a.len() == 0 {
        assert(a + b =~= b);
        assert(words(a) + words(b) =~= words(b));
    } else if is_space(a[0]) {
        assert((a + b).skip(1) =~= a.skip(1) + b);
        lemma_words_split(a.skip(1), b);
    } else {
        lemma_word_len_before_space(a, b);
        lemma_word_len_bound(a);
        let n = word_len(a) as int;
        assert((a + b).take(n) =~= a.take(n));
        assert((a + b).skip(n) =~= a.skip(n) + b);
        lemma_words_split(a.skip(n), b);
        assert(seq![a.take(n)] + (words(a.skip(n)) + words(b)) =~= (seq![a.take(n)] + words(
            a.skip(n),
        )) + words(b));
    }
}

/// A text without a space is as long as its first word.
pub proof fn lemma_word_len_spaceless(a: Seq<char>)
    requires
        spaceless(a),
    ensures
        word_len(a) == a.len(),
    decreases a.len(),
{
    if a.len() > 0 {
        assert(!is_space(a[0]));
        assert forall|i: int| 0 <= i < a.skip(1).len() implies !is_space(
            #[trigger] a.skip(1)[i],
        ) by {
            assert(a.skip(1)[i] == a[i + 1]);
        }
        lemma_word_len_spaceless(a.skip(1));
    }
}

/// A text without a space, and not empty, is one word.
pub proof fn lemma_words_of_word(a: Seq<char>)
    requires
        a.len() > 0,
        spaceless(a),
    ensures
        words(a) == seq![a],
{
    lemma_word_len_spaceless(a);
    assert(!is_space(a[0]));
    assert(a.take(a.len() as int) =~= a);
    assert(a.skip(a.len() as int) =~= Seq::<char>::empty());
    assert(words(Seq::<char>::empty()) == Seq::<Seq<char>>::empty());
    assert(words(a) == seq![a.take(a.len() as int)] + words(a.skip(a.len() as int)));
    assert(seq![a] + Seq::<Seq<char>>::empty() =~= seq![a]);
}

/// Spaces before a text do not change its words.
pub proof fn lemma_words_after_blank(a: Seq<char>, b: Seq<char>)
    requires
        blank(a),
    ensures
        words(a + b) == words(b),
    decreases a.len(),
{
    if a.len() == 0 {
        assert(a + b =~= b);
    } else {
        assert(is_space(a[0]));
        assert((a + b).skip(1) =~= a.skip(1) + b);
        assert forall|i: int| 0 <= i < a.skip(1).len() implies is_space(
            #[trigger] a.skip(1)[i],
        ) by {
            assert(a.skip(1)[i] == a[i + 1]);
        }
        lemma_words_after_blank(a.skip(1), b);
    }
}

/// A word, then spaces, then more text: the word comes first among the
/// words, and the words of the rest follow.
pub proof fn lemma_words_word_blank_rest(w: Seq<char>, gap: Seq<char>, rest: Seq<char>)
    requires
        w.len() > 0,
        spaceless(w),
        gap.len() > 0,
        blank(gap),
    ensures
        words(w + (gap + rest)) == seq![w] + words(rest),
{
    assert(is_space(gap[0]));
    assert((gap + rest)[0] == gap[0]);
    lemma_words_split(w, gap + rest);
    lemma_words_of_word(w);
    lemma_words_after_blank(gap, rest);
}

/// Whether `c` separates words.
pub fn is_whitespace(c: char) -> (space: bool)
    ensures
        space == is_space(c),
{
    let n = c as u32;
    (0x09 <= n && n <= 0x0D) || n == 0x20 || n == 0x85 || n == 0xA0 || n == 0x1680 || (0x2000 <= n
        && n <= 0x200A) || n == 0x2028 || n == 0x2029 || n == 0x202F || n == 0x205F || n == 0x3000
}

/// The characters of `s`.
pub fn chars_of(s: &str) -> (chars: Vec<char>)
    ensures
        chars@ == s@,
{
    let n = s.unicode_len();
    let mut chars: Vec<char> = Vec::new();
    let mut i: usize = 0;
    while i < n
        invariant
            n == s@.len(),
            i <= n,
            chars@ == s@.take(i as int),
        decreases n - i,
    {
        chars.push(s.get_char(i));
        assert(s@.take(i as int).push(s@[i as int]) =~= s@.take(i + 1));
        i += 1;
    }
    assert(s@.take(n as int) =~= s@);
    chars
}

/// Where the words of `chars` lie: for each word the index of its first
/// character and the index after its last.
pub fn word_ranges(chars: &Vec<char>) -> (ranges: Vec<(usize, usize)>)
    ensures
        ranges@.len() == words(chars@).len(),
        forall|k: int|
            0 <= k < ranges@.len() ==> {
                &&& (#[trigger] ranges@[k]).0 < ranges@[k].1 <= chars@.len()
                &&& words(chars@)[k] == chars@.subrange(ranges@[k].0 as int, ranges@[k].1 as int)
            },
{
    let n = chars.len();
    let mut ranges: Vec<(usize, usize)> = Vec::new();
    let ghost mut found: Seq<Seq<char>> = Seq::empty();
    let mut i: usize = 0;
    assert(chars@.skip(0) =~= chars@);
    while i < n
        invariant
            n == chars@.len(),
            i <= n,
            ranges@.len() == found.len(),
            words(chars@) == found + words(chars@.skip(i as int)),
            forall|k: int|
                0 <= k < ranges@.len() ==> {
                    &&& (#[trigger] ranges@[k]).0 < ranges@[k].1 <= chars@.len()
                    &&& found[k] == chars@.subrange(ranges@[k].0 as int, ranges@[k].1 as int)
                },
        decreases n - i,
    {
        let ghost rest = chars@.skip(i as int);
        assert(rest.len() > 0 && rest[0] == chars@[i as int]);
        if is_whitespace(chars[i]) {
            assert(rest.skip(1) =~= chars@.skip(i + 1));
            assert(words(rest) == words(rest.skip(1)));
            i += 1;
        } else {
            let start = i;
            let mut j: usize = i;
            assert(rest.skip(0) =~= rest);
            while j < n && !is_whitespace(chars[j])
                invariant
                    n == chars@.len(),
                    start <= j <= n,
                    rest == chars@.skip(start as int),
                    word_len(rest) == (j - start) + word_len(rest.skip(j - start)),
                    j == start ==> !is_space(chars@[start as int]),
                decreases n - j,
            {
                assert(rest.skip(j - start).len() > 0);
                assert(rest.skip(j - start)[0] == chars@[j as int]);
                assert(rest.skip(j - start).skip(1) =~= rest.skip(j + 1 - start));
                j += 1;
            }
            assert(word_len(rest.skip(j - start)) == 0) by {
                if j < n {
                    assert(rest.skip(j - start)[0] == chars@[j as int]);
                }
            }
            assert(word_len(rest) == j - start);
            assert(start < j);
            assert(rest.take(j - start) =~= chars@.subrange(start as int, j as int));
            assert(rest.skip(j - start) =~= chars@.skip(j as int));
            ranges.push((start, j));
            proof {
                let word = chars@.subrange(start as int, j as int);
                assert(words(rest) == seq![word] + words(chars@.skip(j as int)));
                assert(found + (seq![word] + words(chars@.skip(j as int))) =~= found.push(word)
                    + words(chars@.skip(j as int)));
                found = found.push(word);
            }
            i = j;
        }
    }
    assert(chars@.skip(n as int) =~= Seq::<char>::empty());
    assert(found + Seq::<Seq<char>>::empty() =~= found);
    assert(words(chars@) == found);
    ranges
}

/// The value of a hexadecimal digit, of either case.
pub open spec fn hex_digit_value(c: char) -> Option<u8> {
    let n = c as u32;
    if 0x30 <= n <= 0x39 {
        Some((n - 0x30) as u8)
    } else if 0x41 <= n <= 0x46 {
        Some((n - 0x41 + 10) as u8)
    } else if 0x61 <= n <= 0x66 {
        Some((n - 0x61 + 10) as u8)
    } else {
        None
    }
}

/// The number that the hexadecimal digits `s` spell, most significant
/// first; `None` where a character is no digit. The empty string spells 0.
pub open spec fn hex_value(s: Seq<char>) -> Option<nat>
    decreases s.len(),
{
    if s.len() == 0 {
        Some(0)
    } else {
        match (hex_value(s.drop_last()), hex_digit_value(s.last())) {
            (Some(v), Some(d)) => Some(v * 16 + d as nat),
            _ => None,
        }
    }
}

/// The byte that `word` spells: an optional `+`, then at least one
/// hexadecimal digit, with a value of at most 255.
pub open spec fn hex_byte(word: Seq<char>) -> Option<u8> {
    let digits = if word.len() > 0 && word[0] == '+' {
        word.skip(1)
    } else {
        word
    };
    if digits.len() == 0 {
        None
    } else {
        match hex_value(digits) {
            Some(v) => if v <= 255 {
                Some(v as u8)
            } else {
                None
            },
            None => None,
        }
    }
}

/// The bytes that the words of `text` spell, or `None` where one of them
/// spells no byte.
pub open spec fn hex_bytes(text: Seq<char>) -> Option<Seq<u8>> {
    let w = words(text);
    if forall|k: int| 0 <= k < w.len() ==> (#[trigger] hex_byte(w[k])) is Some {
        Some(Seq::new(w.len(), |k: int| hex_byte(w[k])->0))
    } else {
        None
    }
}

/// The value of a hexadecimal digit, of either case.
pub fn digit_value(c: char) -> (value: Option<u8>)
    ensures
        value == hex_digit_value(c),
{
    let n = c as u32;
    if 0x30 <= n && n <= 0x39 {
        Some((n - 0x30) as u8)
    } else if 0x41 <= n && n <= 0x46 {
        Some((n - 0x41 + 10) as u8)
    } else if 0x61 <= n && n <= 0x66 {
        Some((n - 0x61 + 10) as u8)
    } else {
        None
    }
}

/// A longer string of digits spells no smaller number, and a string with a
/// character that is no digit spells none, whatever follows.
pub proof fn lemma_hex_value_prefix(s: Seq<char>, k: int)
    requires
        0 <= k <= s.len(),
    ensures
        hex_value(s.take(k)) is None ==> hex_value(s) is None,
        hex_value(s) matches Some(v) ==> hex_value(s.take(k))->0 <= v,
    decreases s.len() - k,
{
    if k < s.len() {
        lemma_hex_value_prefix(s, k + 1);
        assert(s.take(k + 1).drop_last() =~= s.take(k));
    } else {
        assert(s.take(k) =~= s);
    }
}

/// Parses the byte that `chars[from..to]` spells.
pub fn parse_hex_byte(chars: &Vec<char>, from: usize, to: usize) -> (byte: Option<u8>)
    requires
        from <= to <= chars@.len(),
    ensures
        byte == hex_byte(chars@.subrange(from as int, to as int)),
{
    let ghost word = chars@.subrange(from as int, to as int);
    let first: usize = if from < to && chars[from] == '+' {
        from + 1
    } else {
        from
    };
    let ghost digits = chars@.subrange(first as int, to as int);
    assert(digits =~= if word.len() > 0 && word[0] == '+' {
        word.skip(1)
    } else {
        word
    });
    if first == to {
        return None;
    }
    let mut value: u32 = 0;
    let mut i: usize = first;
    assert(digits.take(0) =~= Seq::<char>::empty());
    while i < to
        invariant
            from <= first <= i <= to <= chars@.len(),
            first < to,
            digits == chars@.subrange(first as int, to as int),
            hex_byte(chars@.subrange(from as int, to as int)) == match hex_value(digits) {
                Some(v) => if v <= 255 {
                    Some(v as u8)
                } else {
                    None
                },
                None => None,
            },
            hex_value(digits.take(i - first)) == Some(value as nat),
            value <= 255,
        decreases to - i,
    {
        proof {
            lemma_hex_value_prefix(digits, i + 1 - first);
            assert(digits.take(i + 1 - first).drop_last() =~= digits.take(i - first));
            assert(digits.take(i + 1 - first).last() == chars@[i as int]);
            assert(hex_value(digits.take(i + 1 - first)) == match hex_digit_value(chars@[i as int]) {
                Some(d) => Some(value as nat * 16 + d as nat),
                None => None::<nat>,
            });
        }
        match digit_value(chars[i]) {
            Some(d) => {
                value = value * 16 + d as u32;
                if value > 255 {
                    return None;
                }
            },
            None => {
                return None;
            },
        }
        i += 1;
    }
    assert(digits.take(to - first) =~= digits);
    Some(value as u8)
}

/// Parses a text of whitespace-separated hexadecimal bytes.
pub fn parse_hex_bytes(text: &str) -> (bytes: Option<Vec<u8>>)
    ensures
        match bytes {
            Some(v) => hex_bytes(text@) == Some(v@),
            None => hex_bytes(text@) is None,
        },
{
    let chars = chars_of(text);
    let ranges = word_ranges(&chars);
    let ghost w = words(chars@);
    let mut bytes: Vec<u8> = Vec::new();
    let mut k: usize = 0;
    while k < ranges.len()
        invariant
            chars@ == text@,
            w == words(chars@),
            ranges@.len() == w.len(),
            forall|q: int|
                0 <= q < ranges@.len() ==> {
                    &&& (#[trigger] ranges@[q]).0 < ranges@[q].1 <= chars@.len()
                    &&& w[q] == chars@.subrange(ranges@[q].0 as int, ranges@[q].1 as int)
                },
            k <= ranges@.len(),
            bytes@.len() == k,
            forall|q: int| 0 <= q < k ==> (#[trigger] hex_byte(w[q])) == Some(bytes@[q]),
        decreases ranges@.len() - k,
    {
        let (from, to) = ranges[k];
        assert(w[k as int] == chars@.subrange(from as int, to as int));
        match parse_hex_byte(&chars, from, to) {
            Some(b) => {
                bytes.push(b);
            },
            None => {
                assert(hex_byte(w[k as int]) is None);
                return None;
            },
        }
        k += 1;
    }
    assert(bytes@ =~= Seq::new(w.len(), |q: int| hex_byte(w[q])->0));
    Some(bytes)
}


/// The upper-case hexadecimal digit for `d`, which is below 16.
pub open spec fn hex_digit_upper(d: int) -> char {
    if d < 10 {
        (0x30 + d) as char
    } else {
        (0x41 + d - 10) as char
    }
}

/// The text that spells `bytes` in upper-case hexadecimal, two digits a
/// byte, the high digit first.
pub open spec fn hex_upper(bytes: Seq<u8>) -> Seq<char> {
    Seq::new(
        2 * bytes.len(),
        |i: int|
            hex_digit_upper(
                if i % 2 == 0 {
                    bytes[i / 2] as int / 16
                } else {
                    bytes[i / 2] as int % 16
                },
            ),
    )
}

/// Hexadecimal text has two characters for each byte and holds no space.
pub proof fn lemma_hex_upper_is_a_word(bytes: Seq<u8>)
    ensures
        hex_upper(bytes).len() == 2 * bytes.len(),
        spaceless(hex_upper(bytes)),
{
    assert forall|i: int| 0 <= i < hex_upper(bytes).len() implies !is_space(
        #[trigger] hex_upper(bytes)[i],
    ) by {
        let b = bytes[i / 2] as int;
        let d = if i % 2 == 0 {
            b / 16
        } else {
            b % 16
        };
        assert(0 <= d < 16);
        assert(hex_upper(bytes)[i] == hex_digit_upper(d));
    }
}

/// `hex::encode_upper`: every byte becomes two characters of
/// `0123456789ABCDEF`, the high four bits first, in the order of the bytes.
#[verifier::external_body]
pub(crate) fn encode_upper(data: &Vec<u8>) -> (text: String)
    ensures
        text@ == hex_upper(data@),
{
    hex::encode_upper(data)
}

} // verus!
