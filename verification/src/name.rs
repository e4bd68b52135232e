//! Layer names and their text.
//!
//! A layer is named by five words. Its text, the layer id that callers see, is
//! forty hexadecimal digits: eight for each word, most significant first.
use crate::error::{ErrorKind, IoError};
use crate::text::chars_of;
use terminus_store::storage::{name_to_string as outside_name_to_string, string_to_name as outside_string_to_name};
use vstd::prelude::*;

verus! {

/// The name of a layer.
pub type LayerName = [u32; 5];

// ---- the text of a name ----

/// The character that stands for the digit `d`, in lower case.
pub open spec fn hex_digit(d: int) -> char {
    if d < 10 {
        (48 + d) as char
    } else {
        (87 + d) as char
    }
}

/// `word` written with `width` hexadecimal digits, most significant first.
pub open spec fn hex_text(word: int, width: nat) -> Seq<char>
    decreases width,
{
    if width == 0 {
        Seq::empty()
    } else {
        hex_text(word / 16, (width - 1) as nat).push(hex_digit(word % 16))
    }
}

/// The first `n` words of a name, eight digits each.
pub open spec fn words_text(words: Seq<u32>, n: nat) -> Seq<char>
    decreases n,
{
    if n == 0 {
        Seq::empty()
    } else {
        words_text(words, (n - 1) as nat) + hex_text(words[n - 1] as int, 8)
    }
}

/// The text of a layer name.
pub open spec fn name_text(name: Seq<u32>) -> Seq<char> {
    words_text(name, 5)
}

// ---- the name that a text stands for ----

/// The value of a hexadecimal digit of either case.
pub open spec fn digit_value(c: char) -> Option<int> {
    if '0' <= c <= '9' {
        Some(c as int - 48)
    } else if 'a' <= c <= 'f' {
        Some(c as int - 87)
    } else if 'A' <= c <= 'F' {
        Some(c as int - 55)
    } else {
        None
    }
}

/// The value of a text of hexadecimal digits; none if it holds anything else.
pub open spec fn hex_value(text: Seq<char>) -> Option<int>
    decreases text.len(),
{
    if text.len() == 0 {
        Some(0)
    } else {
        match (hex_value(text.drop_last()), digit_value(text.last())) {
            (Some(high), Some(low)) => Some(16 * high + low),
            _ => None,
        }
    }
}

/// The word that a group of eight characters stands for. A sign may take the
/// place of the first digit.
pub open spec fn word_value(group: Seq<char>) -> Option<int> {
    if group.len() > 0 && group[0] == '+' {
        hex_value(group.skip(1))
    } else {
        hex_value(group)
    }
}

/// The characters of word `k` of a text.
pub open spec fn word_group(text: Seq<char>, k: int) -> Seq<char> {
    text.subrange(8 * k, 8 * k + 8)
}

/// The first `n` words of the text are words.
pub open spec fn leading_words(text: Seq<char>, n: int) -> bool {
    &&& text.len() >= 8 * n
    &&& forall|k: int| 0 <= k < n ==> (#[trigger] word_value(word_group(text, k))) is Some
}

/// The text is the text of some layer name, up to the case of its digits and
/// the signs that may lead a word.
pub open spec fn is_name_text(text: Seq<char>) -> bool {
    text.len() == 40 && leading_words(text, 5)
}

/// `name` is the name that the text stands for.
pub open spec fn names(text: Seq<char>, name: Seq<u32>) -> bool {
    &&& is_name_text(text)
    &&& name.len() == 5
    &&& forall|k: int| 0 <= k < 5 ==> (#[trigger] word_value(word_group(text, k))) == Some(name[k] as int)
}

/// The length of a text in bytes.
pub open spec fn byte_len(text: Seq<char>) -> nat {
    vstd::utf8::encode_utf8(text).len()
}

/// The bytes of the text can be cut into words one after the other: where all
/// the words before a cut are words, no character lies across the cut.
///
/// Every ASCII text can be cut, and so can every text that is not forty bytes
/// long, since it never is.
pub open spec fn can_be_cut(text: Seq<char>) -> bool {
    byte_len(text) == 40 ==> forall|k: int|
        1 <= k <= 4 && leading_words(text, k - 1) ==> #[trigger] vstd::utf8::is_char_boundary(
            vstd::utf8::encode_utf8(text),
            8 * k,
        )
}

/// The error is the one for a text that is not the text of a layer name: by its
/// length, or else by its digits.
pub open spec fn refused(text: Seq<char>, error: IoError) -> bool {
    &&& error.kind == if byte_len(text) != 40 {
        ErrorKind::Other
    } else {
        ErrorKind::InvalidData
    }
    &&& error.message@ == refusal_text(text)
}

/// What is said of a text that is not the text of a layer name.
pub open spec fn refusal_text(text: Seq<char>) -> Seq<char> {
    if byte_len(text) != 40 {
        "string not len 40: "@ + text
    } else {
        bad_digits_text(text)
    }
}

// ---- outside calls ----

/// Calls `terminus_store::storage::name_to_string`, which formats each of the
/// five words with eight lower-case hexadecimal digits, padded with zeros, and
/// puts them one after the other.
#[verifier::external_body]
fn format_name(name: LayerName) -> (text: String)
    ensures
        text@ == name_text(name@),
{
    outside_name_to_string(name)
}

/// What is said of a text of forty bytes that is not five words. It is the text
/// that the number parser of std has for the first of them that is none.
pub uninterp spec fn bad_digits_text(text: Seq<char>) -> Seq<char>;

/// Calls `terminus_store::storage::string_to_name`. It refuses a text that is
/// not forty bytes long, and says so. It then cuts off eight bytes at a time
/// and has `u32::from_str_radix` read them: digits of either case, and a sign
/// in front of them. It succeeds if all five succeed, and otherwise hands on
/// the error of the number parser. It panics where it cuts a character in two,
/// which `can_be_cut` leaves out. Of its error the text is taken.
#[verifier::external_body]
fn parse_name(text: &str) -> (name: Result<LayerName, String>)
    requires
        can_be_cut(text@),
    ensures
        name is Ok <==> is_name_text(text@),
        match name {
            Ok(words) => names(text@, words@),
            Err(message) => message@ == if byte_len(text@) != 40 {
                "string not len 40: "@ + text@
            } else {
                bad_digits_text(text@)
            },
        },
{
    outside_string_to_name(text).map_err(|e| e.to_string())
}

// ---- the library's functions ----

/// The text of a layer name.
pub fn name_to_string(name: LayerName) -> (text: String)
    ensures
        text@ == name_text(name@),
{
    format_name(name)
}

/// The layer name that a text stands for.
///
/// A text that is not forty bytes long is an error of kind `Other`; one that
/// is, but does not consist of five words, is an error of kind `InvalidData`.
/// The message of the second is that of the number parser.
pub fn string_to_name(text: &str) -> (name: Result<LayerName, IoError>)
    requires
        can_be_cut(text@),
    ensures
        name is Ok <==> is_name_text(text@),
        match name {
            Ok(words) => names(text@, words@),
            Err(e) => refused(text@, e),
        },
{
    match parse_name(text) {
        Ok(words) => Ok(words),
        Err(message) => {
            let kind = if text.as_bytes().len() != 40 {
                ErrorKind::Other
            } else {
                ErrorKind::InvalidData
            };
            Err(IoError::new(kind, message))
        },
    }
}

proof fn digits_make_a_value(text: Seq<char>)
    ensures
        hex_value(text) is Some <==> forall|i: int| 0 <= i < text.len() ==> (#[trigger] digit_value(text[i])) is Some,
    decreases text.len(),
{
    if text.len() > 0 {
        let shorter = text.drop_last();
        digits_make_a_value(shorter);
        assert forall|i: int| 0 <= i < shorter.len() implies shorter[i] == text[i] by {}
        if hex_value(text) is Some {
            assert forall|i: int| 0 <= i < text.len() implies (#[trigger] digit_value(text[i])) is Some by {
                if i < shorter.len() {
                    assert(digit_value(shorter[i]) is Some);
                }
            }
        }
        if forall|i: int| 0 <= i < text.len() ==> (#[trigger] digit_value(text[i])) is Some {
            assert forall|i: int| 0 <= i < shorter.len() implies (#[trigger] digit_value(shorter[i])) is Some by {
                assert(digit_value(text[i]) is Some);
            }
            assert(digit_value(text[text.len() - 1]) is Some);
        }
    }
}

/// Whether word `k` of a text is a word.
fn is_word(text: &Vec<char>, k: usize) -> (is: bool)
    requires
        k < 5,
        text@.len() >= 8 * k + 8,
    ensures
        is == (word_value(word_group(text@, k as int)) is Some),
{
    let start: usize = 8 * k;
    let ghost group = word_group(text@, k as int);
    let first: usize = if text[start] == '+' {
        1
    } else {
        0
    };
    let ghost digits = if first == 1 {
        group.skip(1)
    } else {
        group
    };
    proof {
        assert(group[0] == text@[start as int]);
        digits_make_a_value(digits);
    }
    let mut i: usize = first;
    while i < 8
        invariant
            first <= i <= 8,
            first <= 1,
            k < 5,
            start == 8 * k,
            text@.len() >= 8 * k + 8,
            group == word_group(text@, k as int),
            digits == (if first == 1 {
                group.skip(1)
            } else {
                group
            }),
            forall|j: int| 0 <= j < i - first ==> (#[trigger] digit_value(digits[j])) is Some,
            word_value(group) == hex_value(digits),
            hex_value(digits) is Some <==> forall|j: int|
                0 <= j < digits.len() ==> (#[trigger] digit_value(digits[j])) is Some,
        decreases 8 - i,
    {
        let c: char = text[start + i];
        assert(digits[i - first] == c);
        if !(('0' <= c && c <= '9') || ('a' <= c && c <= 'f') || ('A' <= c && c <= 'F')) {
            assert(digit_value(digits[i - first]) is None);
            return false;
        }
        i = i + 1;
    }
    true
}

/// Whether a text can be cut into words, and so be read as a name.
pub fn can_cut(text: &str) -> (can: bool)
    ensures
        can == can_be_cut(text@),
{
    if text.as_bytes().len() != 40 {
        return true;
    }
    let chars = chars_of(text);
    let mut k: usize = 1;
    while k <= 4
        invariant
            1 <= k <= 5,
            chars@ == text@,
            byte_len(text@) == 40,
            leading_words(text@, k - 1),
            forall|j: int|
                1 <= j < k ==> #[trigger] vstd::utf8::is_char_boundary(vstd::utf8::encode_utf8(text@), 8 * j),
        decreases 5 - k,
    {
        if !text.is_char_boundary(8 * k) {
            assert(!vstd::utf8::is_char_boundary(vstd::utf8::encode_utf8(text@), 8 * (k as int)));
            return false;
        }
        assert(vstd::utf8::is_char_boundary(vstd::utf8::encode_utf8(text@), 8 * (k as int)));
        if chars.len() < 8 * k || !is_word(&chars, k - 1) {
            assert forall|j: int|
                1 <= j <= 4 && leading_words(text@, j - 1) implies #[trigger] vstd::utf8::is_char_boundary(
                vstd::utf8::encode_utf8(text@),
                8 * j,
            ) by {
                if j > k {
                    assert(word_value(word_group(text@, k - 1)) is Some);
                }
            }
            return true;
        }
        k = k + 1;
    }
    true
}

/// Whether two names are the same.
pub fn same_name(a: &LayerName, b: &LayerName) -> (same: bool)
    ensures
        same == (a@ == b@),
{
    let mut i: usize = 0;
    while i < 5
        invariant
            i <= 5,
            forall|k: int| 0 <= k < i ==> a@[k] == b@[k],
        decreases 5 - i,
    {
        if a[i] != b[i] {
            assert(a@[i as int] != b@[i as int]);
            return false;
        }
        i = i + 1;
    }
    assert(a@ =~= b@);
    true
}

// ---- laws ----

/// `16` to the power of `width`.
spec fn hex_bound(width: nat) -> int
    decreases width,
{
    if width == 0 {
        1
    } else {
        16 * hex_bound((width - 1) as nat)
    }
}

proof fn hex_text_reads_back(word: int, width: nat)
    requires
        0 <= word < hex_bound(width),
    ensures
        hex_text(word, width).len() == width,
        hex_value(hex_text(word, width)) == Some(word),
        forall|i: int| 0 <= i < width ==> digit_value(#[trigger] hex_text(word, width)[i]) is Some,
    decreases width,
{
    if width > 0 {
        hex_text_reads_back(word / 16, (width - 1) as nat);
        let high = hex_text(word / 16, (width - 1) as nat);
        let d = word % 16;
        assert(hex_text(word, width).drop_last() =~= high);
        assert(digit_value(hex_digit(d)) == Some(d));
    }
}

proof fn word_reads_back(word: u32)
    ensures
        hex_text(word as int, 8).len() == 8,
        word_value(hex_text(word as int, 8)) == Some(word as int),
        forall|i: int| 0 <= i < 8 ==> digit_value(#[trigger] hex_text(word as int, 8)[i]) is Some,
{
    reveal_with_fuel(hex_bound, 9);
    assert(hex_bound(8) == 0x1_0000_0000);
    hex_text_reads_back(word as int, 8);
    assert(digit_value(hex_text(word as int, 8)[0]) is Some);
}

proof fn words_text_groups(words: Seq<u32>, n: nat)
    requires
        n <= words.len(),
    ensures
        words_text(words, n).len() == 8 * n,
        forall|k: int|
            0 <= k < n ==> #[trigger] word_group(words_text(words, n), k) == hex_text(words[k] as int, 8),
    decreases n,
{
    if n > 0 {
        words_text_groups(words, (n - 1) as nat);
        word_reads_back(words[n - 1]);
        let before = words_text(words, (n - 1) as nat);
        let text = words_text(words, n);
        assert forall|k: int| 0 <= k < n implies #[trigger] word_group(text, k) == hex_text(words[k] as int, 8) by {
            if k < n - 1 {
                assert(word_group(text, k) =~= word_group(before, k));
            } else {
                assert(word_group(text, k) =~= hex_text(words[k] as int, 8));
            }
        }
    }
}

/// ASCII text can always be cut into words.
pub proof fn ascii_text_can_be_cut(text: Seq<char>)
    requires
        vstd::utf8::is_ascii_chars(text),
    ensures
        can_be_cut(text),
{
    vstd::utf8::is_ascii_chars_encode_utf8(text);
    let bytes = vstd::utf8::encode_utf8(text);
    assert forall|k: int| byte_len(text) == 40 && 1 <= k <= 4 implies #[trigger] vstd::utf8::is_char_boundary(
        bytes,
        8 * k,
    ) by {
        assert('\0' <= text[8 * k] <= '\u{7f}');
        assert(text[8 * k] as u8 == bytes[8 * k]);
        vstd::utf8::encode_utf8_valid_utf8(text);
        vstd::utf8::is_char_boundary_iff_not_is_continuation_byte(bytes, 8 * k);
    }
}

/// Reading back the text of a layer name gives the name: the text of every
/// name can be read, and stands for that name and no other.
pub proof fn name_text_reads_back(name: Seq<u32>)
    requires
        name.len() == 5,
    ensures
        can_be_cut(name_text(name)),
        names(name_text(name), name),
        forall|other: Seq<u32>| names(name_text(name), other) ==> other == name,
{
    let text = name_text(name);
    words_text_groups(name, 5);
    assert forall|k: int| 0 <= k < 5 implies (#[trigger] word_value(word_group(text, k))) == Some(name[k] as int) by {
        word_reads_back(name[k]);
        assert(word_group(text, k) == hex_text(name[k] as int, 8));
    }
    assert(vstd::utf8::is_ascii_chars(text)) by {
        assert forall|i: int| 0 <= i < text.len() implies '\0' <= #[trigger] text[i] <= '\u{7f}' by {
            let k = i / 8;
            word_reads_back(name[k]);
            assert(word_group(text, k) == hex_text(name[k] as int, 8));
            assert(text[i] == word_group(text, k)[i - 8 * k]);
            assert(digit_value(hex_text(name[k] as int, 8)[i - 8 * k]) is Some);
        }
    }
    ascii_text_can_be_cut(text);
    assert forall|other: Seq<u32>| names(text, other) implies other == name by {
        assert forall|k: int| 0 <= k < 5 implies other[k] == name[k] by {
            assert(word_value(word_group(text, k)) == Some(name[k] as int));
        }
        assert(other =~= name);
    }
}

/// Two layer names with the same text are the same name.
pub proof fn name_text_is_injective(a: Seq<u32>, b: Seq<u32>)
    requires
        a.len() == 5,
        b.len() == 5,
        name_text(a) == name_text(b),
    ensures
        a == b,
{
    name_text_reads_back(a);
    name_text_reads_back(b);
}

/// The text of a name is read as that name, and so is the same text in capital
/// letters or with other signs, as far as it is read at all: what is read has
/// the words that the digits say.
pub proof fn a_name_is_read_from_its_text(text: &str, name: LayerName, read: Result<LayerName, IoError>)
    requires
        call_ensures(string_to_name, (text,), read),
    ensures
        text@ == name_text(name@) ==> (read matches Ok(n) && n@ == name@),
        read is Ok ==> text@.len() == 40 && byte_len(text@) == 40,
        read matches Ok(n) ==> forall|k: int, i: int|
            0 <= k < 5 && 0 <= i < 8 ==> #[trigger] is_digit_or_sign(text@[8 * k + i], i),
{
    if text@ == name_text(name@) {
        name_text_reads_back(name@);
    }
    if let Ok(n) = read {
        assert forall|k: int, i: int| 0 <= k < 5 && 0 <= i < 8 implies #[trigger] is_digit_or_sign(
            text@[8 * k + i],
            i,
        ) by {
            let group = word_group(text@, k);
            assert(word_value(group) is Some);
            if group[0] == '+' {
                digits_make_a_value(group.skip(1));
                if i > 0 {
                    assert(digit_value(group.skip(1)[i - 1]) is Some);
                }
            } else {
                digits_make_a_value(group);
                assert(digit_value(group[i]) is Some);
            }
            assert(group[i] == text@[8 * k + i]);
        }
        the_bytes_of_a_name_are_its_characters(text@);
    }
}

/// A hexadecimal digit, or a sign in the first place.
pub open spec fn is_digit_or_sign(c: char, place: int) -> bool {
    '0' <= c <= '9' || 'a' <= c <= 'f' || 'A' <= c <= 'F' || (place == 0 && c == '+')
}

proof fn the_bytes_of_a_name_are_its_characters(text: Seq<char>)
    requires
        is_name_text(text),
    ensures
        byte_len(text) == 40,
{
    assert(vstd::utf8::is_ascii_chars(text)) by {
        assert forall|j: int| 0 <= j < text.len() implies '\0' <= #[trigger] text[j] <= '\u{7f}' by {
            let k = j / 8;
            let group = word_group(text, k);
            assert(word_value(group) is Some);
            assert(text[j] == group[j - 8 * k]);
            if group[0] == '+' {
                digits_make_a_value(group.skip(1));
                if j > 8 * k {
                    assert(digit_value(group.skip(1)[j - 8 * k - 1]) is Some);
                }
            } else {
                digits_make_a_value(group);
                assert(digit_value(group[j - 8 * k]) is Some);
            }
        }
    }
    vstd::utf8::is_ascii_chars_encode_utf8(text);
}

/// A text of any other length than forty bytes is refused by its length, and
/// the refusal says so and repeats the text. Any other that is refused is
/// refused by its digits.
pub proof fn a_refusal_says_why(text: &str, read: Result<LayerName, IoError>)
    requires
        call_ensures(string_to_name, (text,), read),
    ensures
        byte_len(text@) != 40 ==> {
            &&& read matches Err(e)
            &&& e.kind == ErrorKind::Other
            &&& e.message@ == "string not len 40: "@ + text@
        },
        byte_len(text@) == 40 ==> (read matches Err(e) ==> e.kind == ErrorKind::InvalidData && e.message@
            == bad_digits_text(text@)),
{
    if is_name_text(text@) {
        the_bytes_of_a_name_are_its_characters(text@);
    }
}

/// Names are compared word by word.
pub proof fn names_are_compared_word_by_word(a: LayerName, b: LayerName, same: bool)
    requires
        call_ensures(same_name, (&a, &b), same),
    ensures
        same <==> a@[0] == b@[0] && a@[1] == b@[1] && a@[2] == b@[2] && a@[3] == b@[3] && a@[4] == b@[4],
{
    if a@[0] == b@[0] && a@[1] == b@[1] && a@[2] == b@[2] && a@[3] == b@[3] && a@[4] == b@[4] {
        assert(a@ =~= b@);
    }
}

/// A name that is written out and read in is the same name.
pub proof fn a_name_survives_its_text(name: LayerName, written: String, text: &str, read: Result<LayerName, IoError>)
    requires
        call_ensures(name_to_string, (name,), written),
        text@ == written@,
        call_ensures(string_to_name, (text,), read),
    ensures
        read matches Ok(n) && n@ == name@,
{
    name_text_reads_back(name@);
}

} // verus!
