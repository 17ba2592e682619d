//! The installation id: reused from the id file under the Codex home when
//! that file holds a UUID, otherwise made from random bytes as a version-4
//! UUID (and to be written back). Reading and writing the file, and drawing
//! the random bytes, are the caller's part.

use vstd::prelude::*;
use vstd::string::*;
use vstd::utf8::*;

use crate::text::opt_str_view;

verus! {

broadcast use vstd::string::group_string_axioms;

/// Unicode `White_Space`, the characters `char::is_whitespace` accepts.
pub open spec fn is_unicode_whitespace(c: char) -> bool {
    let u = c as u32;
    ||| 0x09 <= u && u <= 0x0D
    ||| u == 0x20 || u == 0x85 || u == 0xA0 || u == 0x1680
    ||| 0x2000 <= u && u <= 0x200A
    ||| u == 0x2028 || u == 0x2029 || u == 0x202F || u == 0x205F || u == 0x3000
}

/// `s` without trailing whitespace.
pub open spec fn trim_whitespace_end(s: Seq<char>) -> Seq<char>
    decreases s.len(),
{
    if s.len() > 0 && is_unicode_whitespace(s.last()) {
        trim_whitespace_end(s.drop_last())
    } else {
        s
    }
}

/// `s` without leading whitespace.
pub open spec fn trim_whitespace_start(s: Seq<char>) -> Seq<char>
    decreases s.len(),
{
    if s.len() > 0 && is_unicode_whitespace(s[0]) {
        trim_whitespace_start(s.drop_first())
    } else {
        s
    }
}

/// `s` without leading or trailing whitespace, as `str::trim` gives it.
pub open spec fn trim_whitespace(s: Seq<char>) -> Seq<char> {
    trim_whitespace_start(trim_whitespace_end(s))
}

/// An ASCII hexadecimal digit, either case.
pub open spec fn is_hex_byte(b: u8) -> bool {
    (48 <= b && b <= 57) || (97 <= b && b <= 102) || (65 <= b && b <= 70)
}

/// Thirty-two hexadecimal digits.
pub open spec fn is_simple_uuid(b: Seq<u8>) -> bool {
    b.len() == 32 && forall|i: int| 0 <= i < 32 ==> is_hex_byte(#[trigger] b[i])
}

/// The positions of the hyphens in a hyphenated UUID.
pub open spec fn is_uuid_hyphen_position(i: int) -> bool {
    i == 8 || i == 13 || i == 18 || i == 23
}

/// `xxxxxxxx-xxxx-xxxx-xxxx-xxxxxxxxxxxx` in hexadecimal digits.
pub open spec fn is_hyphenated_uuid(b: Seq<u8>) -> bool {
    &&& b.len() == 36
    &&& forall|i: int|
        0 <= i < 36 ==> if is_uuid_hyphen_position(i) {
            #[trigger] b[i] == 45
        } else {
            is_hex_byte(b[i])
        }
}

/// ASCII lower-casing of one byte.
pub open spec fn ascii_lowercase_byte(b: u8) -> u8 {
    if 65 <= b && b <= 90 {
        (b + 32) as u8
    } else {
        b
    }
}

/// The bytes of `urn:uuid:`.
pub open spec fn urn_prefix() -> Seq<u8> {
    seq![117u8, 114u8, 110u8, 58u8, 117u8, 117u8, 105u8, 100u8, 58u8]
}

/// The texts `uuid::Uuid::parse_str` accepts: 32 hex digits, a hyphenated
/// UUID, a hyphenated UUID in braces, or one after `urn:uuid:` in any case.
pub open spec fn is_uuid_text(b: Seq<u8>) -> bool {
    ||| is_simple_uuid(b)
    ||| is_hyphenated_uuid(b)
    ||| b.len() == 38 && b[0] == 123 && b[37] == 125 && is_hyphenated_uuid(b.subrange(1, 37))
    ||| b.len() == 45 && b.subrange(0, 9).map_values(|x: u8| ascii_lowercase_byte(x))
        == urn_prefix() && is_hyphenated_uuid(b.subrange(9, 45))
}

/// A lower-case hexadecimal digit.
pub open spec fn is_lower_hex_char(c: char) -> bool {
    ('0' <= c && c <= '9') || ('a' <= c && c <= 'f')
}

/// The text of a random (version 4, RFC 4122 variant) UUID as
/// `Uuid::to_string` writes it: hyphenated, lower-case.
pub open spec fn is_fresh_v4_text(s: Seq<char>) -> bool {
    &&& s.len() == 36
    &&& forall|i: int|
        0 <= i < 36 ==> if is_uuid_hyphen_position(i) {
            #[trigger] s[i] == '-'
        } else {
            is_lower_hex_char(s[i])
        }
    &&& s[14] == '4'
    &&& (s[19] == '8' || s[19] == '9' || s[19] == 'a' || s[19] == 'b')
}

/// The installation id held in an id file's contents: the trimmed contents,
/// when they are a UUID.
pub open spec fn existing_installation_id(contents: Seq<char>) -> Option<Seq<char>> {
    if is_uuid_text(encode_utf8(trim_whitespace(contents))) {
        Some(trim_whitespace(contents))
    } else {
        None
    }
}

/// `uuid::Uuid::parse_str(text).is_ok()`: whether the text is a UUID in one
/// of the accepted forms.
#[verifier::external_body]
fn uuid_parses(text: &str) -> (parses: bool)
    ensures
        parses == is_uuid_text(text.spec_bytes()),
{
    uuid::Uuid::parse_str(text).is_ok()
}

/// The sixteen bytes of a version-4 (random, RFC 4122 variant) UUID made
/// from sixteen random bytes: the high nibble of byte 6 becomes 4 and the
/// top two bits of byte 8 become `10`.
pub open spec fn v4_uuid_bytes(random: Seq<u8>) -> Seq<u8> {
    random.update(6, (random[6] & 0x0f) | 0x40).update(8, (random[8] & 0x3f) | 0x80)
}

/// The lower-case hexadecimal digit of a nibble.
pub open spec fn lower_hex_digit(nibble: u8) -> char {
    if nibble == 0 {
        '0'
    } else if nibble == 1 {
        '1'
    } else if nibble == 2 {
        '2'
    } else if nibble == 3 {
        '3'
    } else if nibble == 4 {
        '4'
    } else if nibble == 5 {
        '5'
    } else if nibble == 6 {
        '6'
    } else if nibble == 7 {
        '7'
    } else if nibble == 8 {
        '8'
    } else if nibble == 9 {
        '9'
    } else if nibble == 10 {
        'a'
    } else if nibble == 11 {
        'b'
    } else if nibble == 12 {
        'c'
    } else if nibble == 13 {
        'd'
    } else if nibble == 14 {
        'e'
    } else {
        'f'
    }
}

/// Which of the 32 hex digits stands at position `i` of a hyphenated UUID.
pub open spec fn uuid_digit_index(i: int) -> int {
    if i < 8 {
        i
    } else if i < 13 {
        i - 1
    } else if i < 18 {
        i - 2
    } else if i < 23 {
        i - 3
    } else {
        i - 4
    }
}

/// The `d`-th hex digit of sixteen bytes: high nibble first.
pub open spec fn uuid_nibble(bytes: Seq<u8>, d: int) -> u8 {
    if d % 2 == 0 {
        bytes[d / 2] >> 4
    } else {
        bytes[d / 2] & 0x0f
    }
}

/// Sixteen bytes written as a hyphenated lower-case UUID, as
/// `Uuid::to_string` writes them.
pub open spec fn hyphenated_lower_text(bytes: Seq<u8>) -> Seq<char> {
    Seq::new(
        36,
        |i: int|
            if is_uuid_hyphen_position(i) {
                '-'
            } else {
                lower_hex_digit(uuid_nibble(bytes, uuid_digit_index(i)))
            },
    )
}

/// `uuid::Builder::from_random_bytes(random).into_uuid().to_string()`: the
/// version-4 UUID made from the given random bytes, hyphenated and
/// lower-case.
#[verifier::external_body]
fn uuid_v4_text(random: [u8; 16]) -> (id: String)
    ensures
        id@ == hyphenated_lower_text(v4_uuid_bytes(random@)),
{
    uuid::Builder::from_random_bytes(random).into_uuid().to_string()
}

proof fn lemma_nibbles_are_lower_hex(b: u8)
    ensures
        b >> 4 < 16,
        b & 0x0f < 16,
        ((b & 0x0f) | 0x40) >> 4 == 4,
        8 <= ((b & 0x3f) | 0x80) >> 4 <= 11,
{
    assert(b >> 4 < 16) by (bit_vector);
    assert(b & 0x0f < 16) by (bit_vector);
    assert(((b & 0x0f) | 0x40) >> 4 == 4) by (bit_vector);
    assert(8 <= ((b & 0x3f) | 0x80) >> 4 <= 11) by (bit_vector);
}

/// The text of a UUID made from random bytes is the text of a fresh
/// version-4 UUID.
pub proof fn lemma_v4_text_is_fresh(random: Seq<u8>)
    requires
        random.len() == 16,
    ensures
        is_fresh_v4_text(hyphenated_lower_text(v4_uuid_bytes(random))),
{
    let bytes = v4_uuid_bytes(random);
    let s = hyphenated_lower_text(bytes);
    assert forall|i: int| 0 <= i < 36 implies if is_uuid_hyphen_position(i) {
        #[trigger] s[i] == '-'
    } else {
        is_lower_hex_char(s[i])
    } by {
        if !is_uuid_hyphen_position(i) {
            let d = uuid_digit_index(i);
            lemma_nibbles_are_lower_hex(bytes[d / 2]);
        }
    }
    lemma_nibbles_are_lower_hex(random[6]);
    lemma_nibbles_are_lower_hex(random[8]);
    assert(s[14] == '4');
    assert(s[19] == '8' || s[19] == '9' || s[19] == 'a' || s[19] == 'b');
}

/// Whether `c` is Unicode whitespace, as `char::is_whitespace` tells.
pub fn is_whitespace_char(c: char) -> (whitespace: bool)
    ensures
        whitespace == is_unicode_whitespace(c),
{
    let u = c as u32;
    (0x09 <= u && u <= 0x0D) || u == 0x20 || u == 0x85 || u == 0xA0 || u == 0x1680 || (0x2000
        <= u && u <= 0x200A) || u == 0x2028 || u == 0x2029 || u == 0x202F || u == 0x205F || u
        == 0x3000
}

proof fn lemma_trim_start_of_subrange(s: Seq<char>, start: int, end: int)
    requires
        0 <= start < end <= s.len(),
        is_unicode_whitespace(s[start]),
    ensures
        trim_whitespace_start(s.subrange(start, end)) == trim_whitespace_start(
            s.subrange(start + 1, end),
        ),
{
    assert(s.subrange(start, end).drop_first() =~= s.subrange(start + 1, end));
}

/// `text` without leading or trailing whitespace, as `str::trim` gives it.
pub fn trim_whitespace_str(text: &str) -> (trimmed: &str)
    ensures
        trimmed@ == trim_whitespace(text@),
{
    let n = text.unicode_len();
    let mut end: usize = n;
    proof {
        assert(text@.subrange(0, end as int) =~= text@);
    }
    while end > 0 && is_whitespace_char(text.get_char(end - 1))
        invariant
            end <= n,
            n == text@.len(),
            trim_whitespace_end(text@.subrange(0, end as int)) == trim_whitespace_end(text@),
        decreases end,
    {
        proof {
            assert(text@.subrange(0, end as int).drop_last() =~= text@.subrange(0, end - 1));
        }
        end = end - 1;
    }
    assert(trim_whitespace_end(text@) == text@.subrange(0, end as int));
    let mut start: usize = 0;
    assert(text@.subrange(0, end as int) =~= text@.subrange(start as int, end as int));
    while start < end && is_whitespace_char(text.get_char(start))
        invariant
            start <= end <= n,
            n == text@.len(),
            trim_whitespace_end(text@) == text@.subrange(0, end as int),
            trim_whitespace_start(text@.subrange(start as int, end as int)) == trim_whitespace(
                text@,
            ),
        decreases end - start,
    {
        proof {
            lemma_trim_start_of_subrange(text@, start as int, end as int);
        }
        start = start + 1;
    }
    assert(trim_whitespace_start(text@.subrange(start as int, end as int)) == text@.subrange(
        start as int,
        end as int,
    ));
    text.substring_char(start, end)
}

/// The installation id the proxy uses, and whether it is new, so that the
/// caller is to write it to the id file.
pub struct ResolvedInstallationId {
    pub id: String,
    pub is_new: bool,
}

/// The id reused from the id file's contents, when there is a file and it
/// holds a UUID.
pub open spec fn reused_installation_id(contents: Option<Seq<char>>) -> Option<Seq<char>> {
    match contents {
        Some(text) => existing_installation_id(text),
        None => None,
    }
}

/// The id held in an id file's contents: the trimmed contents when they are
/// a UUID, `None` otherwise.
pub fn existing_installation_id_in(contents: &str) -> (id: Option<String>)
    ensures
        id is Some <==> existing_installation_id(contents@) is Some,
        id matches Some(text) ==> existing_installation_id(contents@) == Some(text@),
{
    let trimmed = trim_whitespace_str(contents);
    if uuid_parses(trimmed) {
        Some(String::from_str(trimmed))
    } else {
        None
    }
}

/// The UTF-8 bytes of an ASCII text are its characters, one byte each.
proof fn lemma_ascii_text_bytes(s: Seq<char>)
    requires
        is_ascii_chars(s),
    ensures
        encode_utf8(s).len() == s.len(),
        forall|i: int| 0 <= i < s.len() ==> #[trigger] encode_utf8(s)[i] == s[i] as u8,
{
    is_ascii_chars_encode_utf8(s);
}

/// A fresh UUID text is a UUID to `uuid::Uuid::parse_str`.
pub proof fn lemma_fresh_id_is_uuid_text(s: Seq<char>)
    requires
        is_fresh_v4_text(s),
    ensures
        is_uuid_text(encode_utf8(s)),
{
    assert(is_ascii_chars(s)) by {
        assert forall|i: int| 0 <= i < s.len() implies '\0' <= #[trigger] s[i] <= '\u{7f}' by {
            if is_uuid_hyphen_position(i) {
            } else {
                assert(is_lower_hex_char(s[i]));
            }
        }
    }
    lemma_ascii_text_bytes(s);
    let b = encode_utf8(s);
    assert forall|i: int| 0 <= i < 36 implies if is_uuid_hyphen_position(i) {
        #[trigger] b[i] == 45
    } else {
        is_hex_byte(b[i])
    } by {
        if is_uuid_hyphen_position(i) {
            assert(s[i] == '-');
        } else {
            assert(is_lower_hex_char(s[i]));
        }
    }
    assert(is_hyphenated_uuid(b));
}

/// The installation id: the one in the id file when its contents are a
/// UUID (not new), otherwise the version-4 UUID made from the given random
/// bytes (new, to be written). The caller draws the random bytes.
pub fn resolve_installation_id(existing_contents: Option<&str>, random: [u8; 16]) -> (resolved:
    ResolvedInstallationId)
    ensures
        match reused_installation_id(opt_str_view(existing_contents)) {
            Some(id) => resolved.id@ == id && !resolved.is_new,
            None => {
                &&& resolved.is_new
                &&& resolved.id@ == hyphenated_lower_text(v4_uuid_bytes(random@))
                &&& is_fresh_v4_text(resolved.id@)
            },
        },
        is_uuid_text(encode_utf8(resolved.id@)),
{
    match existing_contents {
        Some(contents) => match existing_installation_id_in(contents) {
            Some(id) => {
                return ResolvedInstallationId { id, is_new: false };
            },
            None => {},
        },
        None => {},
    }
    let id = uuid_v4_text(random);
    proof {
        lemma_v4_text_is_fresh(random@);
        lemma_fresh_id_is_uuid_text(id@);
    }
    ResolvedInstallationId { id, is_new: true }
}

/// What the id file holds for an id: the id and a newline.
pub fn installation_id_file_contents(id: &str) -> (contents: String)
    ensures
        contents@ == id@.push('\n'),
{
    proof {
        reveal_strlit("\n");
    }
    let contents = String::from_str(id).concat("\n");
    assert(contents@ =~= id@.push('\n'));
    contents
}

/// An id written to the id file for a new installation is read back as the
/// same id.
pub proof fn law_written_installation_id_is_reused(id: Seq<char>)
    requires
        is_fresh_v4_text(id),
    ensures
        existing_installation_id(id.push('\n')) == Some(id),
{
    lemma_fresh_id_is_uuid_text(id);
    assert(id.push('\n').drop_last() =~= id);
    assert(is_unicode_whitespace('\n'));
    assert(!is_unicode_whitespace(id.last())) by {
        assert(is_lower_hex_char(id[35]));
    }
    assert(trim_whitespace_end(id) == id);
    assert(trim_whitespace_end(id.push('\n')) == id);
    assert(!is_unicode_whitespace(id[0])) by {
        assert(is_lower_hex_char(id[0]));
    }
    assert(trim_whitespace(id.push('\n')) == id);
}

} // verus!
