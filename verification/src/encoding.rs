//! Base64 text, as the standard engine of the `base64` crate reads and writes it.

use base64::engine::general_purpose::STANDARD;
use base64::Engine;
use vstd::prelude::*;

verus! {

/// Why a text is not base64.
#[derive(Clone, Copy, Debug, PartialEq, Eq)]
pub enum DecodeError {
    /// A byte that does not belong where it stands: its offset and itself.
    InvalidByte(usize, u8),
    /// A last group of a single symbol: the length of the text in symbols.
    InvalidLength(usize),
    /// A last symbol with bits set that would be lost: its offset and itself.
    InvalidLastSymbol(usize, u8),
    /// Padding that is missing or not canonical.
    InvalidPadding,
}

/// The symbol of the standard alphabet for six bits.
pub open spec fn symbol(bits: int) -> char {
    if bits < 26 {
        ('A' as int + bits) as char
    } else if bits < 52 {
        ('a' as int + bits - 26) as char
    } else if bits < 62 {
        ('0' as int + bits - 52) as char
    } else if bits == 62 {
        '+'
    } else {
        '/'
    }
}

/// Whether a character is a symbol of the standard alphabet, padding left out.
pub open spec fn is_base64_symbol(c: char) -> bool {
    ||| 'A' <= c <= 'Z'
    ||| 'a' <= c <= 'z'
    ||| '0' <= c <= '9'
    ||| c == '+'
    ||| c == '/'
}

/// The six bits of a symbol.
pub open spec fn symbol_bits(c: char) -> int {
    if 'A' <= c <= 'Z' {
        c as int - 'A' as int
    } else if 'a' <= c <= 'z' {
        c as int - 'a' as int + 26
    } else if '0' <= c <= '9' {
        c as int - '0' as int + 52
    } else if c == '+' {
        62
    } else {
        63
    }
}

/// The length of the base64 text of `n` bytes, padding counted.
pub open spec fn base64_len(n: nat) -> nat {
    (n + 2) / 3 * 4
}

/// A byte of a list, or zero behind its end.
pub open spec fn byte_or_zero(bytes: Seq<u8>, k: int) -> int {
    if k < bytes.len() {
        bytes[k] as int
    } else {
        0
    }
}

/// The character at `i` in the base64 text of bytes: each group of three bytes is
/// four times six bits, and what a short last group lacks is padding.
pub open spec fn base64_char(bytes: Seq<u8>, i: int) -> char {
    let k = i / 4 * 3;
    let first = byte_or_zero(bytes, k);
    let second = byte_or_zero(bytes, k + 1);
    let third = byte_or_zero(bytes, k + 2);
    if i % 4 == 0 {
        symbol(first / 4)
    } else if i % 4 == 1 {
        symbol(first % 4 * 16 + second / 16)
    } else if i % 4 == 2 {
        if k + 1 < bytes.len() {
            symbol(second % 16 * 4 + third / 64)
        } else {
            '='
        }
    } else if k + 2 < bytes.len() {
        symbol(third % 64)
    } else {
        '='
    }
}

/// The base64 text of bytes.
pub open spec fn base64_text(bytes: Seq<u8>) -> Seq<char> {
    Seq::new(base64_len(bytes.len()), |i: int| base64_char(bytes, i))
}

/// The number of padding characters, two at most, that a text ends with.
pub open spec fn padding(text: Seq<char>) -> nat {
    if text.len() == 0 || text.last() != '=' {
        0
    } else if text.len() == 1 || text[text.len() - 2] != '=' {
        1
    } else {
        2
    }
}

/// Whether a text is what encoding can give: groups of four symbols, the last one
/// padded where it is short, with zero bits where its last symbol has bits to
/// spare.
pub open spec fn is_canonical(text: Seq<char>) -> bool {
    let symbols = text.len() - padding(text);
    &&& text.len() % 4 == 0
    &&& forall|i: int| 0 <= i < symbols ==> is_base64_symbol(#[trigger] text[i])
    &&& padding(text) == 1 ==> symbol_bits(text[symbols - 1]) % 4 == 0
    &&& padding(text) == 2 ==> symbol_bits(text[symbols - 1]) % 16 == 0
}

/// The number of bytes that a canonical text stands for.
pub open spec fn decoded_len(text: Seq<char>) -> int {
    text.len() / 4 * 3 - padding(text)
}

/// The byte at `k` in what a canonical text stands for.
pub open spec fn base64_byte(text: Seq<char>, k: int) -> int {
    let i = k / 3 * 4;
    if k % 3 == 0 {
        symbol_bits(text[i]) * 4 + symbol_bits(text[i + 1]) / 16
    } else if k % 3 == 1 {
        symbol_bits(text[i + 1]) % 16 * 16 + symbol_bits(text[i + 2]) / 4
    } else {
        symbol_bits(text[i + 2]) % 4 * 64 + symbol_bits(text[i + 3])
    }
}

/// The bytes that a canonical text stands for.
pub open spec fn base64_bytes(text: Seq<char>) -> Seq<u8> {
    Seq::new(decoded_len(text) as nat, |k: int| base64_byte(text, k) as u8)
}

/// Whether a character is a hexadecimal digit.
pub open spec fn is_hex_digit(c: char) -> bool {
    ||| '0' <= c <= '9'
    ||| 'a' <= c <= 'f'
    ||| 'A' <= c <= 'F'
}

proof fn lemma_symbol(bits: int)
    requires
        0 <= bits < 64,
    ensures
        is_base64_symbol(symbol(bits)),
        symbol_bits(symbol(bits)) == bits,
        symbol(bits) != '=',
{
}

proof fn lemma_symbol_bits(c: char)
    requires
        is_base64_symbol(c),
    ensures
        0 <= symbol_bits(c) < 64,
        symbol(symbol_bits(c)) == c,
        c != '=',
{
}

/// The padding of the base64 text of bytes is what the last group lacks.
proof fn lemma_padding(bytes: Seq<u8>)
    ensures
        padding(base64_text(bytes)) == (3 - bytes.len() % 3) % 3,
{
    let text = base64_text(bytes);
    let n = bytes.len() as int;
    if n > 0 {
        let last = text.len() - 1;
        assert(last / 4 * 3 == (n + 2) / 3 * 3 - 3);
        assert(last % 4 == 3 && (last - 1) % 4 == 2 && (last - 1) / 4 == last / 4);
        let k = last / 4 * 3;
        lemma_symbol(byte_or_zero(bytes, k + 2) % 64);
        lemma_symbol(byte_or_zero(bytes, k + 1) % 16 * 4 + byte_or_zero(bytes, k + 2) / 64);
        assert(text[last] == base64_char(bytes, last));
        assert(text[last - 1] == base64_char(bytes, last - 1));
    }
}

/// The six bits of a character of the base64 text of bytes, padding left out.
proof fn lemma_char_bits(bytes: Seq<u8>, i: int)
    requires
        0 <= i < base64_len(bytes.len()) - (3 - bytes.len() % 3) % 3,
    ensures
        is_base64_symbol(base64_char(bytes, i)),
        ({
            let k = i / 4 * 3;
            let first = byte_or_zero(bytes, k);
            let second = byte_or_zero(bytes, k + 1);
            let third = byte_or_zero(bytes, k + 2);
            symbol_bits(base64_char(bytes, i)) == if i % 4 == 0 {
                first / 4
            } else if i % 4 == 1 {
                first % 4 * 16 + second / 16
            } else if i % 4 == 2 {
                second % 16 * 4 + third / 64
            } else {
                third % 64
            }
        }),
{
    let k = i / 4 * 3;
    let first = byte_or_zero(bytes, k);
    let second = byte_or_zero(bytes, k + 1);
    let third = byte_or_zero(bytes, k + 2);
    lemma_symbol(first / 4);
    lemma_symbol(first % 4 * 16 + second / 16);
    lemma_symbol(second % 16 * 4 + third / 64);
    lemma_symbol(third % 64);
}

/// Three bytes are four times six bits.
proof fn lemma_bytes_of_bits(first: int, second: int, third: int)
    requires
        0 <= first < 256,
        0 <= second < 256,
        0 <= third < 256,
    ensures
        first / 4 * 4 + (first % 4 * 16 + second / 16) / 16 == first,
        (first % 4 * 16 + second / 16) % 16 * 16 + (second % 16 * 4 + third / 64) / 4 == second,
        (second % 16 * 4 + third / 64) % 4 * 64 + third % 64 == third,
{
}

/// Four times six bits are three bytes.
proof fn lemma_bits_of_bytes(a: int, b: int, c: int, d: int)
    requires
        0 <= a < 64,
        0 <= b < 64,
        0 <= c < 64,
        0 <= d < 64,
    ensures
        0 <= a * 4 + b / 16 < 256,
        0 <= b % 16 * 16 + c / 4 < 256,
        0 <= c % 4 * 64 + d < 256,
        (a * 4 + b / 16) / 4 == a,
        (a * 4 + b / 16) % 4 * 16 + (b % 16 * 16 + c / 4) / 16 == b,
        (b % 16 * 16 + c / 4) % 16 * 4 + (c % 4 * 64 + d) / 64 == c,
        (c % 4 * 64 + d) % 64 == d,
{
}

proof fn lemma_byte_of_text(bytes: Seq<u8>, k: int)
    requires
        0 <= k < bytes.len(),
    ensures
        base64_byte(base64_text(bytes), k) == bytes[k] as int,
{
    let text = base64_text(bytes);
    let q = k / 3;
    let i = q * 4;
    lemma_bytes_of_bits(
        byte_or_zero(bytes, q * 3),
        byte_or_zero(bytes, q * 3 + 1),
        byte_or_zero(bytes, q * 3 + 2),
    );
    lemma_char_bits(bytes, i);
    lemma_char_bits(bytes, i + 1);
    if k % 3 >= 1 {
        lemma_char_bits(bytes, i + 2);
    }
    if k % 3 == 2 {
        lemma_char_bits(bytes, i + 3);
    }
    assert(i / 4 == q && (i + 1) / 4 == q && (i + 2) / 4 == q && (i + 3) / 4 == q);
    assert(k == q * 3 + k % 3);
}

proof fn lemma_spare_bits(bytes: Seq<u8>)
    ensures
        ({
            let last = base64_len(bytes.len()) - (3 - bytes.len() % 3) % 3 - 1;
            &&& bytes.len() % 3 == 2 ==> symbol_bits(base64_char(bytes, last)) % 4 == 0
            &&& bytes.len() % 3 == 1 ==> symbol_bits(base64_char(bytes, last)) % 16 == 0
        }),
{
    let n = bytes.len() as int;
    let q = n / 3;
    if n % 3 == 2 {
        let last = q * 4 + 2;
        assert(n == q * 3 + 2);
        assert(last / 4 == q && last % 4 == 2);
        lemma_char_bits(bytes, last);
        assert(byte_or_zero(bytes, q * 3 + 2) == 0);
        let second = byte_or_zero(bytes, q * 3 + 1);
        assert(second % 16 * 4 % 4 == 0);
    } else if n % 3 == 1 {
        let last = q * 4 + 1;
        assert(n == q * 3 + 1);
        assert(last / 4 == q && last % 4 == 1);
        lemma_char_bits(bytes, last);
        assert(byte_or_zero(bytes, q * 3 + 1) == 0);
        let first = byte_or_zero(bytes, q * 3);
        assert(first % 4 * 16 % 16 == 0);
    }
}

/// Bytes are read back from their base64 text, which is canonical.
pub proof fn encoding_is_read_back(bytes: Seq<u8>)
    ensures
        is_canonical(base64_text(bytes)),
        base64_bytes(base64_text(bytes)) == bytes,
{
    let text = base64_text(bytes);
    lemma_padding(bytes);
    lemma_spare_bits(bytes);
    assert(is_canonical(text)) by {
        let symbols = text.len() - padding(text);
        assert forall|i: int| 0 <= i < symbols implies is_base64_symbol(#[trigger] text[i]) by {
            lemma_char_bits(bytes, i);
        }
    }
    assert(decoded_len(text) == bytes.len());
    assert forall|k: int| 0 <= k < bytes.len() implies base64_bytes(text)[k] == bytes[k] by {
        lemma_byte_of_text(bytes, k);
    }
    assert(base64_bytes(text) =~= bytes);
}

proof fn lemma_char_of_bytes(text: Seq<char>, i: int)
    requires
        is_canonical(text),
        0 <= i < text.len(),
    ensures
        base64_char(base64_bytes(text), i) == text[i],
{
    let bytes = base64_bytes(text);
    let symbols = text.len() - padding(text);
    let q = i / 4;
    let g = q * 4;
    let k = q * 3;
    let a = symbol_bits(text[g]);
    let b = symbol_bits(text[g + 1]);
    let c = if g + 2 < symbols {
        symbol_bits(text[g + 2])
    } else {
        0
    };
    let d = if g + 3 < symbols {
        symbol_bits(text[g + 3])
    } else {
        0
    };
    assert(i == g + i % 4);
    assert(g + 1 < symbols);
    lemma_symbol_bits(text[g]);
    lemma_symbol_bits(text[g + 1]);
    if g + 2 < symbols {
        lemma_symbol_bits(text[g + 2]);
    }
    if g + 3 < symbols {
        lemma_symbol_bits(text[g + 3]);
    }
    lemma_bits_of_bytes(a, b, c, d);
    assert(k / 3 == q && (k + 1) / 3 == q && (k + 2) / 3 == q);
    assert(byte_or_zero(bytes, k) == a * 4 + b / 16);
    assert(byte_or_zero(bytes, k + 1) == b % 16 * 16 + c / 4);
    assert(byte_or_zero(bytes, k + 2) == c % 4 * 64 + d);
}

/// A canonical text is the base64 text of the bytes that it stands for.
pub proof fn canonical_text_is_written_back(text: Seq<char>)
    requires
        is_canonical(text),
    ensures
        base64_text(base64_bytes(text)) == text,
{
    let bytes = base64_bytes(text);
    assert(base64_len(bytes.len()) == text.len());
    assert forall|i: int| 0 <= i < text.len() implies base64_char(bytes, i) == #[trigger] text[i] by {
        lemma_char_of_bytes(text, i);
    }
    assert(base64_text(bytes) =~= text);
}

/// Different bytes have different base64 texts.
pub proof fn base64_texts_differ(a: Seq<u8>, b: Seq<u8>)
    requires
        base64_text(a) == base64_text(b),
    ensures
        a == b,
{
    encoding_is_read_back(a);
    encoding_is_read_back(b);
}

/// The symbols are those of the standard alphabet, in its order.
pub proof fn the_alphabet_is_the_standard_one(bits: int)
    requires
        0 <= bits < 64,
    ensures
        symbol(bits) == "ABCDEFGHIJKLMNOPQRSTUVWXYZabcdefghijklmnopqrstuvwxyz0123456789+/"@[bits],
        symbol_bits(symbol(bits)) == bits,
{
    reveal_strlit("ABCDEFGHIJKLMNOPQRSTUVWXYZabcdefghijklmnopqrstuvwxyz0123456789+/");
}

/// Three bytes and the four symbols that they are written as are the same number, the bytes
/// its digits to the base 256 and the symbols its digits to the base 64.
pub proof fn three_bytes_are_four_symbols(bytes: Seq<u8>, group: int)
    requires
        0 <= group,
        3 * group + 2 < bytes.len(),
    ensures
        ({
            let text = base64_text(bytes);
            let at = 4 * group;
            symbol_bits(text[at]) * 262144 + symbol_bits(text[at + 1]) * 4096 + symbol_bits(
                text[at + 2],
            ) * 64 + symbol_bits(text[at + 3]) == bytes[3 * group] * 65536 + bytes[3 * group + 1]
                * 256 + bytes[3 * group + 2]
        }),
{
    let at = 4 * group;
    assert(at / 4 == group && (at + 1) / 4 == group && (at + 2) / 4 == group && (at + 3) / 4
        == group);
    lemma_char_bits(bytes, at);
    lemma_char_bits(bytes, at + 1);
    lemma_char_bits(bytes, at + 2);
    lemma_char_bits(bytes, at + 3);
}

/// Why the standard engine refuses a text that is not base64.
pub uninterp spec fn base64_refusal(text: Seq<char>) -> DecodeError;

/// `Engine::encode` of the standard engine of the `base64` crate: it writes the
/// base64 text of the bytes. It cannot write a text that is longer than an
/// allocation can be.
#[verifier::external_body]
pub(crate) fn standard_encode(bytes: &[u8]) -> (r: String)
    requires
        base64_len(bytes@.len()) <= isize::MAX,
    ensures
        r@ == base64_text(bytes@),
{
    STANDARD.encode(bytes)
}

/// `Engine::decode` of the standard engine of the `base64` crate: it reads the
/// bytes whose base64 text is the text, and refuses a text that no bytes have. It
/// asks for canonical padding and for zero bits where the last symbol has bits to
/// spare. Which refusal comes depends on the text alone.
#[verifier::external_body]
fn standard_decode(text: &str) -> (r: Result<Vec<u8>, DecodeError>)
    ensures
        r matches Ok(bytes) ==> base64_text(bytes@) == text@,
        r matches Err(error) ==> (forall|bytes: Seq<u8>| #[trigger] base64_text(bytes) != text@),
        r matches Err(error) ==> error == base64_refusal(text@),
{
    match STANDARD.decode(text) {
        Ok(bytes) => Ok(bytes),
        Err(base64::DecodeError::InvalidByte(at, byte)) => Err(DecodeError::InvalidByte(at, byte)),
        Err(base64::DecodeError::InvalidLength(len)) => Err(DecodeError::InvalidLength(len)),
        Err(base64::DecodeError::InvalidLastSymbol(at, byte)) => {
            Err(DecodeError::InvalidLastSymbol(at, byte))
        }
        Err(base64::DecodeError::InvalidPadding) => Err(DecodeError::InvalidPadding),
    }
}

/// Reads base64 text: what is read is what the text stands for, and a text is
/// refused exactly where it is not canonical.
///
/// The hexadecimal form of a 64-byte signature is accepted too, but as base64 it
/// stands for 96 bytes: a reader that tries base64 first takes it for something
/// else.
pub fn decode_base64(text: &str) -> (r: Result<Vec<u8>, DecodeError>)
    ensures
        r is Ok <==> is_canonical(text@),
        match r {
            Ok(bytes) => {
                &&& bytes@ == base64_bytes(text@)
                &&& base64_text(bytes@) == text@
                &&& bytes@.len() == decoded_len(text@)
            },
            Err(error) => error == base64_refusal(text@),
        },
        text@.len() == 128 && (forall|i: int| 0 <= i < 128 ==> is_hex_digit(#[trigger] text@[i]))
            ==> (r matches Ok(bytes) && bytes@.len() == 96),
{
    let read = standard_decode(text);
    proof {
        if read is Ok {
            encoding_is_read_back(read->Ok_0@);
        } else if is_canonical(text@) {
            canonical_text_is_written_back(text@);
        }
        if text@.len() == 128 && (forall|i: int| 0 <= i < 128 ==> is_hex_digit(
            #[trigger] text@[i],
        )) {
            assert(is_hex_digit(text@[127]));
            assert forall|i: int| 0 <= i < 128 implies is_base64_symbol(#[trigger] text@[i]) by {
                assert(is_hex_digit(text@[i]));
            }
            assert(is_canonical(text@));
        }
    }
    read
}

} // verus!
