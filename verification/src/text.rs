//! Decimal numbers in text: reading digits and writing them.

use vstd::prelude::*;

verus! {

/// Whether `c` is one of the ten decimal digits.
pub open spec fn is_digit(c: char) -> bool {
    '0' as int <= c as int && c as int <= '9' as int
}

/// The number that the digit `c` stands for.
pub open spec fn digit_value(c: char) -> nat {
    (c as int - '0' as int) as nat
}

/// The digit that stands for `d`, for `d` below ten.
pub open spec fn digit_char(d: nat) -> char {
    ('0' as int + d as int) as char
}

/// Whether every character of `s` is a decimal digit.
pub open spec fn all_digits(s: Seq<char>) -> bool {
    forall|i: int| 0 <= i < s.len() ==> is_digit(#[trigger] s[i])
}

/// The number that the digits `s` spell in base ten; 0 for no digits.
pub open spec fn digits_value(s: Seq<char>) -> nat
    decreases s.len(),
{
    if s.len() == 0 {
        0
    } else {
        digits_value(s.drop_last()) * 10 + digit_value(s.last())
    }
}

/// `n` in base ten, without leading zeros.
pub open spec fn decimal(n: nat) -> Seq<char>
    decreases n,
{
    if n < 10 {
        seq![digit_char(n)]
    } else {
        decimal(n / 10).push(digit_char(n % 10))
    }
}

/// `count` zeros.
pub open spec fn zeros(count: nat) -> Seq<char> {
    Seq::new(count, |i: int| '0')
}

/// `n` in base ten, with zeros in front up to `width` characters; longer
/// numbers are left as they are.
pub open spec fn zero_padded(n: nat, width: nat) -> Seq<char> {
    if decimal(n).len() >= width {
        decimal(n)
    } else {
        zeros((width - decimal(n).len()) as nat) + decimal(n)
    }
}

/// The digits of a number are digits, and spell that number.
pub proof fn lemma_decimal_reads_back(n: nat)
    ensures
        decimal(n).len() >= 1,
        all_digits(decimal(n)),
        digits_value(decimal(n)) == n,
    decreases n,
{
    if n < 10 {
        assert(digits_value(decimal(n).drop_last()) == 0);
    } else {
        lemma_decimal_reads_back(n / 10);
        assert(decimal(n).drop_last() =~= decimal(n / 10));
    }
}

/// Zeros in front of digits do not change the number they spell.
pub proof fn lemma_leading_zeros(count: nat, s: Seq<char>)
    requires
        all_digits(s),
    ensures
        all_digits(zeros(count) + s),
        digits_value(zeros(count) + s) == digits_value(s),
    decreases s.len(),
{
    let whole = zeros(count) + s;
    if s.len() == 0 {
        lemma_zeros_spell_zero(count);
    } else {
        lemma_leading_zeros(count, s.drop_last());
        assert(whole.drop_last() =~= zeros(count) + s.drop_last());
    }
}

/// Zeros alone spell zero.
pub proof fn lemma_zeros_spell_zero(count: nat)
    ensures
        all_digits(zeros(count)),
        digits_value(zeros(count)) == 0,
    decreases count,
{
    if count > 0 {
        lemma_zeros_spell_zero((count - 1) as nat);
        assert(zeros(count).drop_last() =~= zeros((count - 1) as nat));
    }
}

/// The number that a padded number spells is the number itself.
pub proof fn lemma_zero_padded_reads_back(n: nat, width: nat)
    ensures
        zero_padded(n, width).len() >= 1,
        zero_padded(n, width).len() >= width,
        all_digits(zero_padded(n, width)),
        digits_value(zero_padded(n, width)) == n,
{
    lemma_decimal_reads_back(n);
    if decimal(n).len() < width {
        lemma_leading_zeros((width - decimal(n).len()) as nat, decimal(n));
    }
}

/// A longer run of digits spells no smaller a number than its beginning.
pub proof fn lemma_digits_value_grows(s: Seq<char>, k: int)
    requires
        0 <= k <= s.len(),
    ensures
        digits_value(s.take(k)) <= digits_value(s),
    decreases s.len(),
{
    if k < s.len() {
        lemma_digits_value_grows(s.drop_last(), k);
        assert(s.drop_last().take(k) =~= s.take(k));
    } else {
        assert(s.take(k) =~= s);
    }
}

/// Whether `c` is white space.
pub open spec fn is_space(c: char) -> bool {
    let n = c as int;
    ||| 0x09 <= n <= 0x0d
    ||| n == 0x20
    ||| n == 0x85
    ||| n == 0xa0
    ||| n == 0x1680
    ||| 0x2000 <= n <= 0x200a
    ||| n == 0x2028
    ||| n == 0x2029
    ||| n == 0x202f
    ||| n == 0x205f
    ||| n == 0x3000
}

/// Whether `s` holds a character that is not white space.
pub open spec fn has_word(s: Seq<char>) -> bool {
    exists|j: int| 0 <= j < s.len() && !is_space(#[trigger] s[j])
}

/// Whether the first word of `s` reaches from `start` to `end`: white space
/// alone before it, none in it, and white space or the end of `s` after it.
pub open spec fn first_word_at(s: Seq<char>, start: int, end: int) -> bool {
    &&& 0 <= start < end <= s.len()
    &&& forall|j: int| 0 <= j < start ==> is_space(#[trigger] s[j])
    &&& forall|j: int| start <= j < end ==> !is_space(#[trigger] s[j])
    &&& (end == s.len() || is_space(s[end]))
}

/// The first word of `s`: its first run of characters that are not white
/// space. `None` where `s` is white space altogether.
pub open spec fn first_word(s: Seq<char>) -> Option<Seq<char>> {
    if has_word(s) {
        let bounds = choose|bounds: (int, int)| first_word_at(s, bounds.0, bounds.1);
        Some(s.subrange(bounds.0, bounds.1))
    } else {
        None
    }
}

/// Whether what is left of `s` without the white space at its two ends
/// reaches from `start` to `end`.
pub open spec fn trimmed_at(s: Seq<char>, start: int, end: int) -> bool {
    &&& 0 <= start < end <= s.len()
    &&& forall|j: int| 0 <= j < start ==> is_space(#[trigger] s[j])
    &&& forall|j: int| end <= j < s.len() ==> is_space(#[trigger] s[j])
    &&& !is_space(s[start])
    &&& !is_space(s[end - 1])
}

/// `s` without the white space at its two ends.
pub open spec fn trimmed(s: Seq<char>) -> Seq<char> {
    if has_word(s) {
        let bounds = choose|bounds: (int, int)| trimmed_at(s, bounds.0, bounds.1);
        s.subrange(bounds.0, bounds.1)
    } else {
        Seq::empty()
    }
}

/// The first word is fixed by the text.
pub proof fn lemma_first_word_unique(s: Seq<char>, start: int, end: int)
    requires
        first_word_at(s, start, end),
    ensures
        first_word(s) == Some(s.subrange(start, end)),
{
    assert(!is_space(s[start]));
    let bounds = choose|bounds: (int, int)| first_word_at(s, bounds.0, bounds.1);
    assert(first_word_at(s, (start, end).0, (start, end).1));
    if bounds.0 < start {
        assert(is_space(s[bounds.0]));
    }
}

/// What is left after trimming is fixed by the text.
pub proof fn lemma_trimmed_unique(s: Seq<char>, start: int, end: int)
    requires
        trimmed_at(s, start, end),
    ensures
        trimmed(s) == s.subrange(start, end),
{
    assert(trimmed_at(s, (start, end).0, (start, end).1));
}

/// Whether `c` is white space.
pub fn space(c: char) -> (res: bool)
    ensures
        res == is_space(c),
{
    let n: u32 = c as u32;
    (0x09 <= n && n <= 0x0d) || n == 0x20 || n == 0x85 || n == 0xa0 || n == 0x1680 || (0x2000 <= n
        && n <= 0x200a) || n == 0x2028 || n == 0x2029 || n == 0x202f || n == 0x205f || n == 0x3000
}

/// The place of the first character of `chars`, from `from` on, that is
/// white space if `want` and is not if not; the length where there is none.
fn scan(chars: &Vec<char>, from: usize, want: bool) -> (at: usize)
    requires
        from <= chars.len(),
    ensures
        from <= at <= chars.len(),
        forall|j: int| from <= j < at ==> is_space(#[trigger] chars@[j]) != want,
        at == chars.len() || is_space(chars@[at as int]) == want,
{
    let mut at: usize = from;
    while at < chars.len() && space(chars[at]) != want
        invariant
            from <= at <= chars.len(),
            forall|j: int| from <= j < at ==> is_space(#[trigger] chars@[j]) != want,
        decreases chars.len() - at,
    {
        at += 1;
    }
    at
}

/// The first word of `text`: its first run of characters that are not white
/// space. `None` where `text` is white space altogether.
pub fn first_word_of(text: &str) -> (res: Option<String>)
    ensures
        match res {
            Some(word) => first_word(text@) == Some(word@),
            None => first_word(text@) is None,
        },
{
    let chars = chars_of(text);
    let start = scan(&chars, 0, false);
    if start == chars.len() {
        return None;
    }
    let end = scan(&chars, start, true);
    proof {
        lemma_first_word_unique(text@, start as int, end as int);
    }
    Some(text.substring_char(start, end).to_owned())
}

/// `text` without the white space at its two ends.
pub fn trim(text: &str) -> (out: String)
    ensures
        out@ == trimmed(text@),
{
    let chars = chars_of(text);
    let start = scan(&chars, 0, false);
    if start == chars.len() {
        return String::new();
    }
    let mut end: usize = chars.len();
    while space(chars[end - 1])
        invariant
            start < end <= chars.len(),
            !is_space(chars@[start as int]),
            forall|j: int| end <= j < chars.len() ==> is_space(#[trigger] chars@[j]),
        decreases end,
    {
        end -= 1;
    }
    proof {
        lemma_trimmed_unique(text@, start as int, end as int);
    }
    text.substring_char(start, end).to_owned()
}

/// The characters of `text`, one by one.
pub fn chars_of(text: &str) -> (out: Vec<char>)
    ensures
        out@ == text@,
{
    let mut out: Vec<char> = Vec::new();
    for c in it: text.chars()
        invariant
            it.seq() == text@,
            out@ == text@.take(it.index() as int),
    {
        out.push(c);
    }
    out
}

/// The one-character text of the digit for `d`.
fn digit_text(d: u64) -> (out: &'static str)
    requires
        d < 10,
    ensures
        out@ == seq![digit_char(d as nat)],
{
    proof {
        reveal_strlit("0");
        reveal_strlit("1");
        reveal_strlit("2");
        reveal_strlit("3");
        reveal_strlit("4");
        reveal_strlit("5");
        reveal_strlit("6");
        reveal_strlit("7");
        reveal_strlit("8");
        reveal_strlit("9");
    }
    if d == 0 {
        "0"
    } else if d == 1 {
        "1"
    } else if d == 2 {
        "2"
    } else if d == 3 {
        "3"
    } else if d == 4 {
        "4"
    } else if d == 5 {
        "5"
    } else if d == 6 {
        "6"
    } else if d == 7 {
        "7"
    } else if d == 8 {
        "8"
    } else {
        "9"
    }
}

/// `n` written in base ten.
pub fn decimal_string(n: u64) -> (out: String)
    ensures
        out@ == decimal(n as nat),
    decreases n,
{
    if n < 10 {
        digit_text(n).to_owned()
    } else {
        let mut out = decimal_string(n / 10);
        out.append(digit_text(n % 10));
        out
    }
}

/// `n` written in base ten with zeros in front up to `width` characters.
pub fn zero_padded_string(n: u64, width: usize) -> (out: String)
    ensures
        out@ == zero_padded(n as nat, width as nat),
{
    let digits = decimal_string(n);
    let len: usize = digits.as_str().unicode_len();
    if len >= width {
        return digits;
    }
    let mut out = String::new();
    let mut i: usize = len;
    while i < width
        invariant
            len <= i <= width,
            out@ == zeros((i - len) as nat),
        decreases width - i,
    {
        proof {
            reveal_strlit("0");
        }
        out.append("0");
        i += 1;
    }
    out.append(digits.as_str());
    out
}

} // verus!
