//! Identifiers derived from content, and pronounceable aliases derived from
//! identifiers.

use sha2::{Digest, Sha256};
use vstd::prelude::*;
use vstd::string::*;
use vstd::utf8::encode_utf8;

verus! {

/// Number of leading characters of an identifier that an alias is made from.
pub const SLANG_LEN: usize = 11;

/// The SHA-256 digest of a byte string.
pub uninterp spec fn sha256(data: Seq<u8>) -> Seq<u8>;

/// The sixteen lower-case hexadecimal digits, in order of value.
pub open spec fn hex_digits() -> Seq<char> {
    seq!['0', '1', '2', '3', '4', '5', '6', '7', '8', '9', 'a', 'b', 'c', 'd', 'e', 'f']
}

/// Lower-case hexadecimal rendering of a byte string: two digits per byte,
/// the high half first.
pub open spec fn hex_lower(bytes: Seq<u8>) -> Seq<char> {
    Seq::new(
        2 * bytes.len(),
        |i: int|
            if i % 2 == 0 {
                hex_digits()[bytes[i / 2] as int / 16]
            } else {
                hex_digits()[bytes[i / 2] as int % 16]
            },
    )
}

/// The identifier of a piece of content: the hexadecimal SHA-256 of its
/// UTF-8 bytes.
pub open spec fn content_id(content: Seq<char>) -> Seq<char> {
    hex_lower(sha256(encode_utf8(content)))
}

/// The five vowels an alias draws from.
pub open spec fn vowels() -> Seq<char> {
    seq!['a', 'i', 'u', 'e', 'o']
}

/// The seventeen consonants an alias draws from.
pub open spec fn consonants() -> Seq<char> {
    seq!['b', 'c', 'd', 'g', 'h', 'j', 'k', 'l', 'm', 'n', 'p', 'r', 's', 't', 'v', 'w', 'y']
}

/// The letter that stands for character `c` at position `i`: a vowel at even
/// positions, a consonant at odd ones, picked by the character's code.
pub open spec fn spoken_letter(i: int, c: char) -> char {
    if i % 2 == 0 {
        vowels()[c as int % 5]
    } else {
        consonants()[c as int % 17]
    }
}

/// The pronounceable rendering of a string, letter by letter.
pub open spec fn pronounceable(s: Seq<char>) -> Seq<char> {
    Seq::new(s.len(), |i: int| spoken_letter(i, s[i]))
}

/// The alias derived from an identifier: the pronounceable rendering of its
/// first eleven characters.
pub open spec fn slang_of(id: Seq<char>) -> Seq<char>
    recommends
        id.len() >= SLANG_LEN,
{
    pronounceable(id.subrange(0, SLANG_LEN as int))
}

/// Whether a string alternates vowels and consonants from the two alphabets,
/// starting with a vowel.
pub open spec fn alternates(s: Seq<char>) -> bool {
    forall|i: int|
        0 <= i < s.len() ==> if i % 2 == 0 {
            vowels().contains(#[trigger] s[i])
        } else {
            consonants().contains(s[i])
        }
}

/// Whether every character of a string is a lower-case hexadecimal digit.
pub open spec fn is_lower_hex(s: Seq<char>) -> bool {
    forall|i: int| 0 <= i < s.len() ==> hex_digits().contains(#[trigger] s[i])
}

/// `Sha256::digest` of the `sha2` crate. The digest is a function of the
/// input bytes alone and is 32 bytes long; nothing else is claimed of it.
#[verifier::external_body]
fn sha256_digest(data: &[u8]) -> (out: Vec<u8>)
    ensures
        out@ == sha256(data@),
        out@.len() == 32,
{
    Sha256::digest(data).to_vec()
}

/// `base16ct::lower::encode_string`: two lower-case hexadecimal digits per
/// input byte, high half first. The crate panics on inputs longer than half
/// of `usize::MAX`.
#[verifier::external_body]
fn hex_encode(bytes: &[u8]) -> (s: String)
    requires
        bytes@.len() <= usize::MAX / 2,
    ensures
        s@ == hex_lower(bytes@),
{
    base16ct::lower::encode_string(bytes)
}

/// `String::push` of std: the character is appended at the end of the
/// string, and the rest of the string stays as it was.
pub assume_specification[ std::string::String::push ](text: &mut std::string::String, ch: char)
    ensures
        final(text)@ == old(text)@.push(ch),
;

/// A hexadecimal rendering has two characters per byte, each a hex digit.
pub proof fn lemma_hex_lower_shape(bytes: Seq<u8>)
    ensures
        hex_lower(bytes).len() == 2 * bytes.len(),
        is_lower_hex(hex_lower(bytes)),
{
    assert forall|i: int| 0 <= i < hex_lower(bytes).len() implies hex_digits().contains(
        #[trigger] hex_lower(bytes)[i],
    ) by {
        let b = bytes[i / 2] as int;
        if i % 2 == 0 {
            assert(hex_digits()[b / 16] == hex_lower(bytes)[i]);
        } else {
            assert(hex_digits()[b % 16] == hex_lower(bytes)[i]);
        }
    }
}

/// A pronounceable rendering is as long as its source and alternates vowels
/// and consonants, starting with a vowel.
pub proof fn lemma_pronounceable_shape(s: Seq<char>)
    ensures
        pronounceable(s).len() == s.len(),
        alternates(pronounceable(s)),
{
    let p = pronounceable(s);
    assert forall|i: int| 0 <= i < p.len() implies if i % 2 == 0 {
        vowels().contains(#[trigger] p[i])
    } else {
        consonants().contains(p[i])
    } by {
        let c = s[i] as int;
        if i % 2 == 0 {
            assert(vowels()[c % 5] == p[i]);
        } else {
            assert(consonants()[c % 17] == p[i]);
        }
    }
}

/// Equal content has equal identifiers: the identifier depends on nothing
/// but the characters of the content.
pub proof fn law_same_content_same_id(first: Seq<char>, second: Seq<char>)
    requires
        first == second,
    ensures
        content_id(first) == content_id(second),
{
}

/// The alias of an identifier depends on nothing but the identifier, is
/// eleven characters long, and alternates vowels and consonants of the two
/// alphabets, starting with a vowel.
pub proof fn law_slang_shape(id: Seq<char>)
    requires
        id.len() >= SLANG_LEN,
    ensures
        slang_of(id).len() == SLANG_LEN,
        alternates(slang_of(id)),
{
    lemma_pronounceable_shape(id.subrange(0, SLANG_LEN as int));
}

/// Renders a string as alternating vowels and consonants.
pub fn pronounceable_hash(hash: &String) -> (word: String)
    ensures
        word@ == pronounceable(hash@),
        word@.len() == hash@.len(),
        alternates(word@),
{
    let vowel: [char; 5] = ['a', 'i', 'u', 'e', 'o'];
    let consonant: [char; 17] = [
        'b',
        'c',
        'd',
        'g',
        'h',
        'j',
        'k',
        'l',
        'm',
        'n',
        'p',
        'r',
        's',
        't',
        'v',
        'w',
        'y',
    ];
    let text = hash.as_str();
    let n: usize = text.unicode_len();
    let mut word = String::new();
    let mut i: usize = 0;
    while i < n
        invariant
            text@ == hash@,
            n == hash@.len(),
            i <= n,
            vowel@ == vowels(),
            consonant@ == consonants(),
            word@.len() == i,
            forall|k: int| 0 <= k < i ==> word@[k] == spoken_letter(k, hash@[k]),
        decreases n - i,
    {
        let x: char = text.get_char(i);
        let code: u32 = x as u32;
        if i % 2 == 0 {
            word.push(vowel[(code % 5) as usize]);
        } else {
            word.push(consonant[(code % 17) as usize]);
        }
        i += 1;
    }
    proof {
        assert(word@ =~= pronounceable(hash@));
        lemma_pronounceable_shape(hash@);
    }
    word
}

/// Renders a digest as an identifier: its lower-case hexadecimal form.
pub fn id_from_digest(digest: &[u8]) -> (id: String)
    requires
        digest@.len() <= usize::MAX / 2,
    ensures
        id@ == hex_lower(digest@),
        id@.len() == 2 * digest@.len(),
        is_lower_hex(id@),
{
    proof {
        lemma_hex_lower_shape(digest@);
    }
    hex_encode(digest)
}

/// Derives the identifier of a piece of content.
pub fn get_id_from_context(context: &String) -> (id: String)
    ensures
        id@ == content_id(context@),
        id@.len() == 64,
        is_lower_hex(id@),
{
    let digest = sha256_digest(context.as_str().as_bytes());
    id_from_digest(digest.as_slice())
}

/// Derives the primary alias of an identifier from its first eleven
/// characters.
pub fn get_slang_from_id(id: &String) -> (slang: String)
    requires
        id@.len() >= SLANG_LEN,
    ensures
        slang@ == slang_of(id@),
        slang@.len() == SLANG_LEN,
        alternates(slang@),
{
    let head = id.as_str().substring_char(0, SLANG_LEN).to_owned();
    pronounceable_hash(&head)
}

} // verus!
