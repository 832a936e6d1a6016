//! Text helpers that the rest of the library builds its messages, names and paths with.
use vstd::prelude::*;

verus! {

/// `String::push` appends one character.
#[verifier::external_body]
pub(crate) fn push_char(text: &mut String, c: char)
    ensures
        final(text)@ == old(text)@.push(c),
{
    text.push(c)
}

/// `String::push_str` appends the whole of another text.
pub assume_specification[ String::push_str ](dst: &mut String, src: &str)
    ensures
        final(dst)@ == old(dst)@ + src@,
;

/// `==` on `str` compares the characters.
pub assume_specification[ <str as PartialEq>::eq ](a: &str, b: &str) -> (same: bool)
    ensures
        same == (a@ == b@),
;

/// The text that `bytes` encode in UTF-8, if they encode one.
pub open spec fn utf8_text(bytes: Seq<u8>) -> Option<Seq<char>> {
    if vstd::utf8::valid_utf8(bytes) {
        Some(vstd::utf8::decode_utf8(bytes))
    } else {
        None
    }
}

/// `std::str::from_utf8`: the text that the bytes encode, or nothing where they are not UTF-8.
#[verifier::external_body]
pub(crate) fn decode_text(bytes: &[u8]) -> (text: Option<&str>)
    ensures
        text is Some <==> utf8_text(bytes@) is Some,
        text is Some ==> Some(text->0@) == utf8_text(bytes@),
{
    std::str::from_utf8(bytes).ok()
}

/// The characters of `text`, one by one.
pub fn chars_of(text: &str) -> (chars: Vec<char>)
    ensures
        chars@ == text@,
{
    let mut chars: Vec<char> = Vec::new();
    for c in it: text.chars()
        invariant
            it.seq() == text@,
            chars@ == text@.subrange(0, it.index()),
    {
        proof {
            assert(text@.subrange(0, it.index()).push(c) =~= text@.subrange(0, it.index() + 1));
        }
        chars.push(c);
    }
    assert(text@.subrange(0, text@.len() as int) =~= text@);
    chars
}


/// The text made of the given characters.
pub fn text_of(chars: &Vec<char>) -> (text: String)
    ensures
        text@ == chars@,
{
    let mut text = String::new();
    let mut i: usize = 0;
    while i < chars.len()
        invariant
            i <= chars@.len(),
            text@ == chars@.subrange(0, i as int),
        decreases chars@.len() - i,
    {
        proof {
            assert(chars@.subrange(0, i as int).push(chars@[i as int]) =~= chars@.subrange(
                0,
                i + 1,
            ));
        }
        push_char(&mut text, chars[i]);
        i = i + 1;
    }
    assert(chars@.subrange(0, chars@.len() as int) =~= chars@);
    text
}

/// Whether two texts are the same.
pub fn same_text(a: &str, b: &str) -> (same: bool)
    ensures
        same == (a@ == b@),
{
    *a == *b
}

/// A copy of `text` as an owned string.
pub fn owned(text: &str) -> (copy: String)
    ensures
        copy@ == text@,
{
    text.to_owned()
}

/// The characters of the decimal digits 0 to 9.
pub open spec fn digit_char(d: nat) -> char {
    (48 + d) as char
}

/// `n` in decimal, without leading zeros.
pub open spec fn decimal(n: nat) -> Seq<char>
    decreases n,
{
    if n < 10 {
        seq![digit_char(n)]
    } else {
        decimal(n / 10).push(digit_char(n % 10))
    }
}

fn digit_of(d: u64) -> (c: char)
    requires
        d < 10,
    ensures
        c == digit_char(d as nat),
{
    match d {
        0 => '0',
        1 => '1',
        2 => '2',
        3 => '3',
        4 => '4',
        5 => '5',
        6 => '6',
        7 => '7',
        8 => '8',
        _ => '9',
    }
}

/// `n` written in decimal.
pub fn decimal_text(n: u64) -> (text: String)
    ensures
        text@ == decimal(n as nat),
    decreases n,
{
    let mut text = if n < 10 {
        String::new()
    } else {
        decimal_text(n / 10)
    };
    push_char(&mut text, digit_of(n % 10));
    proof {
        if n < 10 {
            assert(Seq::<char>::empty().push(digit_char(n as nat)) =~= seq![digit_char(n as nat)]);
        }
    }
    text
}

/// Whether `text` ends with `suffix`.
pub open spec fn has_suffix(text: Seq<char>, suffix: Seq<char>) -> bool {
    text.len() >= suffix.len() && text.subrange(text.len() - suffix.len(), text.len() as int)
        == suffix
}

/// `text` without `suffix` at its end, where it ends so.
pub fn strip_suffix(text: &str, suffix: &str) -> (stem: Option<String>)
    ensures
        stem is Some <==> has_suffix(text@, suffix@),
        stem is Some ==> stem->0@ == text@.subrange(0, text@.len() - suffix@.len()),
{
    let whole = chars_of(text);
    let tail = chars_of(suffix);
    if whole.len() < tail.len() {
        return None;
    }
    let cut: usize = whole.len() - tail.len();
    let mut i: usize = 0;
    while i < tail.len()
        invariant
            i <= tail@.len(),
            whole@ == text@,
            tail@ == suffix@,
            cut == whole@.len() - tail@.len(),
            whole@.len() <= usize::MAX,
            forall|j: int| 0 <= j < i ==> whole@[cut + j] == tail@[j],
        decreases tail@.len() - i,
    {
        if whole[cut + i] != tail[i] {
            assert(text@.subrange(cut as int, text@.len() as int)[i as int] != suffix@[i as int]);
            return None;
        }
        i = i + 1;
    }
    assert(text@.subrange(cut as int, text@.len() as int) =~= suffix@);
    let mut stem: Vec<char> = whole;
    stem.truncate(cut);
    Some(text_of(&stem))
}

/// Whether `part` occurs in `text` with its first character at position `at`.
pub open spec fn occurs_at(text: Seq<char>, part: Seq<char>, at: int) -> bool {
    0 <= at && at + part.len() <= text.len() && text.subrange(at, at + part.len()) == part
}

/// Whether `part` occurs in `text`.
pub open spec fn contains_text(text: Seq<char>, part: Seq<char>) -> bool {
    exists|at: int| occurs_at(text, part, at)
}

/// Whether `part` occurs in `text`.
pub fn has_part(text: &str, part: &str) -> (found: bool)
    ensures
        found == contains_text(text@, part@),
{
    let whole = chars_of(text);
    let piece = chars_of(part);
    if whole.len() < piece.len() {
        return false;
    }
    let last: usize = whole.len() - piece.len();
    let mut at: usize = 0;
    loop
        invariant
            whole@ == text@,
            piece@ == part@,
            last == whole@.len() - piece@.len(),
            whole@.len() <= usize::MAX,
            at <= last,
            forall|k: int| 0 <= k < at ==> !occurs_at(text@, part@, k),
        decreases last - at,
    {
        let mut i: usize = 0;
        while i < piece.len() && whole[at + i] == piece[i]
            invariant
                whole@ == text@,
                piece@ == part@,
                last == whole@.len() - piece@.len(),
                whole@.len() <= usize::MAX,
                at <= last,
                i <= piece@.len(),
                forall|j: int| 0 <= j < i ==> whole@[at + j] == piece@[j],
            decreases piece@.len() - i,
        {
            i = i + 1;
        }
        if i == piece.len() {
            assert(text@.subrange(at as int, at + part@.len()) =~= part@);
            assert(occurs_at(text@, part@, at as int));
            return true;
        }
        assert(!occurs_at(text@, part@, at as int)) by {
            assert(text@.subrange(at as int, at + part@.len())[i as int] != part@[i as int]);
        }
        if at == last {
            return false;
        }
        at = at + 1;
    }
}

/// `text` with every `from` replaced by `to`.
pub open spec fn replaced(text: Seq<char>, from: char, to: char) -> Seq<char> {
    text.map_values(
        |c: char|
            if c == from {
                to
            } else {
                c
            },
    )
}

/// `text` with every `from` replaced by `to`.
pub fn replace_char(text: &str, from: char, to: char) -> (out: String)
    ensures
        out@ == replaced(text@, from, to),
{
    let chars = chars_of(text);
    let mut out = String::new();
    let mut i: usize = 0;
    while i < chars.len()
        invariant
            i <= chars@.len(),
            chars@ == text@,
            out@ == replaced(text@, from, to).subrange(0, i as int),
        decreases chars@.len() - i,
    {
        let c = chars[i];
        proof {
            let whole = replaced(text@, from, to);
            assert(whole.subrange(0, i as int).push(whole[i as int]) =~= whole.subrange(0, i + 1));
        }
        push_char(
            &mut out,
            if c == from {
                to
            } else {
                c
            },
        );
        i = i + 1;
    }
    assert(replaced(text@, from, to).subrange(0, text@.len() as int) =~= replaced(text@, from, to));
    out
}

/// The ASCII upper case letters taken to lower case; every other character kept.
pub open spec fn ascii_lower(c: char) -> char {
    if 'A' <= c && c <= 'Z' {
        (c as u32 + 32) as char
    } else {
        c
    }
}

fn ascii_lower_of(c: char) -> (low: char)
    ensures
        low == ascii_lower(c),
{
    if 'A' <= c && c <= 'Z' {
        (c as u8 + 32u8) as char
    } else {
        c
    }
}

/// Whether two texts are the same up to the case of ASCII letters.
pub open spec fn same_ignoring_ascii_case(a: Seq<char>, b: Seq<char>) -> bool {
    a.map_values(|c: char| ascii_lower(c)) == b.map_values(|c: char| ascii_lower(c))
}

/// Whether two texts are the same up to the case of ASCII letters.
pub fn eq_ignore_ascii_case(a: &str, b: &str) -> (same: bool)
    ensures
        same == same_ignoring_ascii_case(a@, b@),
{
    let left = chars_of(a);
    let right = chars_of(b);
    let ghost low_a = a@.map_values(|c: char| ascii_lower(c));
    let ghost low_b = b@.map_values(|c: char| ascii_lower(c));
    if left.len() != right.len() {
        assert(low_a.len() != low_b.len());
        return false;
    }
    let mut i: usize = 0;
    while i < left.len()
        invariant
            i <= left@.len(),
            left@ == a@,
            right@ == b@,
            left@.len() == right@.len(),
            low_a == a@.map_values(|c: char| ascii_lower(c)),
            low_b == b@.map_values(|c: char| ascii_lower(c)),
            forall|j: int| 0 <= j < i ==> low_a[j] == low_b[j],
        decreases left@.len() - i,
    {
        if ascii_lower_of(left[i]) != ascii_lower_of(right[i]) {
            assert(low_a[i as int] != low_b[i as int]);
            return false;
        }
        i = i + 1;
    }
    assert(low_a =~= low_b);
    true
}

/// What `str::to_lowercase` returns for a text.
pub uninterp spec fn lowercase(text: Seq<char>) -> Seq<char>;

/// `str::to_lowercase`: the Unicode lower case of a text. What that is for a given character is
/// left to Unicode's tables.
#[verifier::external_body]
pub(crate) fn lowercase_text(text: &str) -> (low: String)
    ensures
        low@ == lowercase(text@),
{
    text.to_lowercase()
}

/// Three texts one after the other.
pub fn concat3(a: &str, b: &str, c: &str) -> (text: String)
    ensures
        text@ == a@ + b@ + c@,
{
    let mut text = owned(a);
    text.push_str(b);
    text.push_str(c);
    text
}

/// The number that a text of digits writes, the most significant digit first.
pub open spec fn number_in(digits: Seq<char>) -> int
    decreases digits.len(),
{
    if digits.len() == 0 {
        0
    } else {
        10 * number_in(digits.drop_last()) + (digits.last() as int - '0' as int)
    }
}

/// The digits of a number read as the number.
pub proof fn lemma_decimal(n: nat)
    ensures
        number_in(decimal(n)) == n,
        decimal(n).len() > 0,
        n > 0 ==> decimal(n)[0] != '0',
        n == 0 ==> decimal(n) == seq!['0'],
        forall|i: int|
            0 <= i < decimal(n).len() ==> '0' <= (#[trigger] decimal(n)[i]) && decimal(n)[i] <= '9',
    decreases n,
{
    if n >= 10 {
        lemma_decimal(n / 10);
        assert(decimal(n).drop_last() =~= decimal(n / 10));
        assert(n == 10 * (n / 10) + n % 10);
    } else {
        assert(decimal(n).drop_last() =~= Seq::<char>::empty());
        assert(number_in(Seq::<char>::empty()) == 0);
    }
}

/// A number is written in digits that read as the number again, without a leading zero unless it is
/// zero.
pub proof fn written_numbers_are_read_back(n: u64, text: String)
    requires
        call_ensures(decimal_text, (n,), text),
    ensures
        number_in(text@) == n,
        text@.len() > 0,
        text@[0] == '0' ==> n == 0 && text@.len() == 1,
        forall|i: int| 0 <= i < text@.len() ==> '0' <= (#[trigger] text@[i]) && text@[i] <= '9',
{
    lemma_decimal(n as nat);
}

/// Replacing one character keeps the length and every other character in its place, and has the other
/// one stand wherever the first stood.
pub proof fn replacing_keeps_the_rest(text: &str, from: char, to: char, out: String)
    requires
        call_ensures(replace_char, (text, from, to), out),
    ensures
        out@.len() == text@.len(),
        forall|i: int| 0 <= i < text@.len() && text@[i] != from ==> #[trigger] out@[i] == text@[i],
        forall|i: int| 0 <= i < text@.len() && text@[i] == from ==> #[trigger] out@[i] == to,
{
}

/// Two characters are the same up to case: equal, or the small and the capital form of one ASCII
/// letter.
pub open spec fn same_letter(a: char, b: char) -> bool {
    ||| a == b
    ||| 'a' <= a && a <= 'z' && b as int == a as int - 32
    ||| 'a' <= b && b <= 'z' && a as int == b as int - 32
}

/// Texts are equal without regard to case exactly where they are of one length and the same up to case
/// at every place.
pub proof fn case_is_ignored_letter_by_letter(a: &str, b: &str, same: bool)
    requires
        call_ensures(eq_ignore_ascii_case, (a, b), same),
    ensures
        same <==> a@.len() == b@.len() && forall|i: int|
            0 <= i < a@.len() ==> same_letter(#[trigger] a@[i], b@[i]),
{
    let left = a@.map_values(|c: char| ascii_lower(c));
    let right = b@.map_values(|c: char| ascii_lower(c));
    if same {
        assert(left.len() == a@.len() && right.len() == b@.len());
        assert forall|i: int| 0 <= i < a@.len() implies same_letter(#[trigger] a@[i], b@[i]) by {
            assert(left[i] == right[i]);
        }
    }
    if a@.len() == b@.len() && forall|i: int|
        0 <= i < a@.len() ==> same_letter(#[trigger] a@[i], b@[i]) {
        assert forall|i: int| 0 <= i < left.len() implies left[i] == right[i] by {
            assert(same_letter(a@[i], b@[i]));
        }
        assert(left =~= right);
    }
}

/// A text without its suffix, followed by the suffix, is the text; and where none is given, no text
/// followed by the suffix is.
pub proof fn stems_and_suffixes_make_the_text(
    text: &str,
    suffix: &str,
    stem: Option<String>,
    other: Seq<char>,
)
    requires
        call_ensures(strip_suffix, (text, suffix), stem),
    ensures
        stem is Some ==> stem->0@ + suffix@ == text@,
        stem is None ==> other + suffix@ != text@,
{
    if stem is Some {
        assert(stem->0@ + suffix@ =~= text@);
    }
    if other + suffix@ == text@ {
        assert(text@.subrange(text@.len() - suffix@.len(), text@.len() as int) =~= suffix@);
    }
}

/// A part is found in a text exactly where the text is made of something, the part and something more.
pub proof fn parts_stand_in_the_text(
    text: &str,
    part: &str,
    found: bool,
    before: Seq<char>,
    after: Seq<char>,
)
    requires
        call_ensures(has_part, (text, part), found),
    ensures
        text@ == before + part@ + after ==> found,
        found ==> exists|at: int|
            0 <= at && at + part@.len() <= text@.len() && #[trigger] text@.subrange(
                at,
                at + part@.len(),
            ) == part@,
{
    if text@ == before + part@ + after {
        let at = before.len() as int;
        assert(text@.subrange(at, at + part@.len()) =~= part@);
        assert(occurs_at(text@, part@, at));
    }
    if found {
        let at = choose|at: int| occurs_at(text@, part@, at);
        assert(text@.subrange(at, at + part@.len()) == part@);
    }
}

} // verus!
