//! What a certificate file is sent as: PEM text as it stands, anything else in
//! base64.

use crate::text::{has_substring, occurs_in, what_occurs_stands_between};
use vstd::prelude::*;
use vstd::string::*;
use vstd::utf8::{decode_utf8, valid_utf8};

verus! {

/// The digits of base64, by value.
pub open spec fn base64_digits() -> Seq<char> {
    "ABCDEFGHIJKLMNOPQRSTUVWXYZabcdefghijklmnopqrstuvwxyz0123456789+/"@
}

/// The digit of a value below 64.
pub open spec fn base64_digit(v: int) -> Seq<char> {
    base64_digits().subrange(v, v + 1)
}

/// The upper six bits of the first byte.
pub open spec fn sextet_one(a: u8) -> int {
    a as int / 4
}

/// The lower two bits of the first byte, and the upper four of the second.
pub open spec fn sextet_two(a: u8, b: u8) -> int {
    (a as int % 4) * 16 + b as int / 16
}

/// The lower four bits of the second byte, and the upper two of the third.
pub open spec fn sextet_three(b: u8, c: u8) -> int {
    (b as int % 16) * 4 + c as int / 64
}

/// The lower six bits of the third byte.
pub open spec fn sextet_four(c: u8) -> int {
    c as int % 64
}

/// The bytes in base64, padded to groups of four digits.
pub open spec fn base64(bytes: Seq<u8>) -> Seq<char>
    decreases bytes.len(),
{
    if bytes.len() == 0 {
        Seq::empty()
    } else if bytes.len() == 1 {
        base64_digit(sextet_one(bytes[0])) + base64_digit(sextet_two(bytes[0], 0)) + "=="@
    } else if bytes.len() == 2 {
        base64_digit(sextet_one(bytes[0])) + base64_digit(sextet_two(bytes[0], bytes[1]))
            + base64_digit(sextet_three(bytes[1], 0)) + "="@
    } else {
        base64_digit(sextet_one(bytes[0])) + base64_digit(sextet_two(bytes[0], bytes[1]))
            + base64_digit(sextet_three(bytes[1], bytes[2])) + base64_digit(sextet_four(bytes[2]))
            + base64(bytes.skip(3))
    }
}

/// The bytes are a text that holds a PEM block.
pub open spec fn is_pem(bytes: Seq<u8>) -> bool {
    valid_utf8(bytes) && occurs_in("-----BEGIN"@, decode_utf8(bytes))
}

/// What the content of a file is sent as.
pub open spec fn payload(bytes: Seq<u8>) -> Seq<char> {
    if is_pem(bytes) {
        decode_utf8(bytes)
    } else {
        base64(bytes)
    }
}

/// `str::from_utf8`: a text where the bytes are valid UTF-8, and then the text
/// that they encode.
#[verifier::external_body]
fn utf8_text(bytes: &[u8]) -> (r: Option<String>)
    ensures
        r is Some <==> valid_utf8(bytes@),
        r matches Some(s) ==> s@ == decode_utf8(bytes@),
{
    match std::str::from_utf8(bytes) {
        Ok(s) => Some(s.to_owned()),
        Err(_) => None,
    }
}

/// The digit of a value.
fn digit_of(v: u8) -> (r: &'static str)
    requires
        v < 64,
    ensures
        r@ == base64_digit(v as int),
{
    proof {
        reveal_strlit("ABCDEFGHIJKLMNOPQRSTUVWXYZabcdefghijklmnopqrstuvwxyz0123456789+/");
    }
    let all: &'static str = "ABCDEFGHIJKLMNOPQRSTUVWXYZabcdefghijklmnopqrstuvwxyz0123456789+/";
    all.substring_char(v as usize, v as usize + 1)
}

/// The bytes in base64.
pub fn base64_text(bytes: &[u8]) -> (r: String)
    ensures
        r@ == base64(bytes@),
{
    let n = bytes.len();
    let mut out = String::new();
    let mut i: usize = 0;
    proof {
        assert(bytes@.skip(0) =~= bytes@);
        assert(out@ + base64(bytes@) =~= base64(bytes@));
    }
    while i < n
        invariant
            n == bytes@.len(),
            i <= n,
            out@ + base64(bytes@.skip(i as int)) == base64(bytes@),
        decreases n - i,
    {
        let ghost before = out@;
        let ghost rest = bytes@.skip(i as int);
        let a: u8 = bytes[i];
        out.append(digit_of(a / 4));
        if n - i == 1 {
            out.append(digit_of((a % 4) * 16));
            out.append("==");
            proof {
                assert(rest.len() == 1 && rest[0] == a);
                assert(out@ =~= before + base64(rest));
                assert(bytes@.skip(n as int) =~= Seq::<u8>::empty());
                assert(out@ + base64(bytes@.skip(n as int)) =~= out@);
            }
            i = n;
        } else {
            let b: u8 = bytes[i + 1];
            out.append(digit_of((a % 4) * 16 + b / 16));
            if n - i == 2 {
                out.append(digit_of((b % 16) * 4));
                out.append("=");
                proof {
                    assert(rest.len() == 2 && rest[0] == a && rest[1] == b);
                    assert(out@ =~= before + base64(rest));
                    assert(bytes@.skip(n as int) =~= Seq::<u8>::empty());
                    assert(out@ + base64(bytes@.skip(n as int)) =~= out@);
                }
                i = n;
            } else {
                let c: u8 = bytes[i + 2];
                out.append(digit_of((b % 16) * 4 + c / 64));
                out.append(digit_of(c % 64));
                proof {
                    assert(rest.len() > 2 && rest[0] == a && rest[1] == b && rest[2] == c);
                    assert(rest.skip(3) =~= bytes@.skip(i as int + 3));
                    assert(out@ + base64(rest.skip(3)) =~= before + base64(rest));
                }
                i += 3;
            }
        }
    }
    proof {
        assert(bytes@.skip(n as int) =~= Seq::<u8>::empty());
        assert(out@ + Seq::<char>::empty() =~= out@);
    }
    out
}

/// What the content of a file is sent as: PEM text as it stands, anything else
/// in base64.
pub fn cert_payload_from_bytes(bytes: &[u8]) -> (r: String)
    ensures
        r@ == payload(bytes@),
{
    match utf8_text(bytes) {
        Some(s) => {
            if has_substring(s.as_str(), "-----BEGIN") {
                s
            } else {
                base64_text(bytes)
            }
        },
        None => base64_text(bytes),
    }
}

/// Base64 comes in full groups: four digits for every three bytes begun.
pub proof fn base64_comes_in_groups(bytes: Seq<u8>)
    ensures
        base64(bytes).len() == 4 * ((bytes.len() + 2) / 3),
    decreases bytes.len(),
{
    reveal_strlit("ABCDEFGHIJKLMNOPQRSTUVWXYZabcdefghijklmnopqrstuvwxyz0123456789+/");
    reveal_strlit("==");
    reveal_strlit("=");
    if bytes.len() > 2 {
        base64_comes_in_groups(bytes.skip(3));
    }
}

/// Three bytes are one number of twenty-four bits, written in four digits to the base
/// of sixty-four, the first the highest. Where one or two bytes are missing, they
/// count as zero, and each digit that holds nothing of the others is an equals sign.
pub proof fn three_bytes_are_four_digits(a: u8, b: u8, c: u8)
    ensures
        ({
            let digits = "ABCDEFGHIJKLMNOPQRSTUVWXYZabcdefghijklmnopqrstuvwxyz0123456789+/"@;
            let n = a * 65536 + b * 256 + c;
            base64(seq![a, b, c]) == seq![
                digits[n / 262144],
                digits[(n / 4096) % 64],
                digits[(n / 64) % 64],
                digits[n % 64],
            ]
        }),
        ({
            let digits = "ABCDEFGHIJKLMNOPQRSTUVWXYZabcdefghijklmnopqrstuvwxyz0123456789+/"@;
            let n = a * 65536 + b * 256;
            base64(seq![a, b]) == seq![
                digits[n / 262144],
                digits[(n / 4096) % 64],
                digits[(n / 64) % 64],
                '=',
            ]
        }),
        ({
            let digits = "ABCDEFGHIJKLMNOPQRSTUVWXYZabcdefghijklmnopqrstuvwxyz0123456789+/"@;
            let n = a * 65536;
            base64(seq![a]) == seq![digits[n / 262144], digits[(n / 4096) % 64], '=', '=']
        }),
        base64(Seq::empty()).len() == 0,
{
    reveal_strlit("==");
    reveal_strlit("=");
    assert("=="@ =~= seq!['=', '=']);
    assert("="@ =~= seq!['=']);
    reveal_with_fuel(base64, 2);
    lemma_sextets(a, b, c);
    lemma_sextets(a, b, 0);
    lemma_sextets(a, 0, 0);
    lemma_digit(sextet_one(a));
    lemma_digit(sextet_two(a, b));
    lemma_digit(sextet_two(a, 0));
    lemma_digit(sextet_three(b, c));
    lemma_digit(sextet_three(b, 0));
    lemma_digit(sextet_four(c));
    let d = base64_digits();
    assert(seq![a, b, c].skip(3) =~= Seq::<u8>::empty());
    assert(base64(seq![a, b, c]) =~= seq![
        d[sextet_one(a)],
        d[sextet_two(a, b)],
        d[sextet_three(b, c)],
        d[sextet_four(c)],
    ]);
    assert(base64(seq![a, b]) =~= seq![
        d[sextet_one(a)],
        d[sextet_two(a, b)],
        d[sextet_three(b, 0)],
        '=',
    ]);
    assert(base64(seq![a]) =~= seq![d[sextet_one(a)], d[sextet_two(a, 0)], '=', '=']);
}

proof fn lemma_digit(v: int)
    requires
        0 <= v < 64,
    ensures
        base64_digit(v) == seq![base64_digits()[v]],
{
    reveal_strlit("ABCDEFGHIJKLMNOPQRSTUVWXYZabcdefghijklmnopqrstuvwxyz0123456789+/");
    assert(base64_digits().len() == 64);
    assert(base64_digit(v) =~= seq![base64_digits()[v]]);
}

proof fn lemma_sextets(a: u8, b: u8, c: u8)
    ensures
        (a * 65536 + b * 256 + c) / 262144 == sextet_one(a),
        ((a * 65536 + b * 256 + c) / 4096) % 64 == sextet_two(a, b),
        ((a * 65536 + b * 256 + c) / 64) % 64 == sextet_three(b, c),
        (a * 65536 + b * 256 + c) % 64 == sextet_four(c),
        0 <= sextet_one(a) < 64,
        0 <= sextet_two(a, b) < 64,
        0 <= sextet_three(b, c) < 64,
        0 <= sextet_four(c) < 64,
{
    let n = a * 65536 + b * 256 + c;
    assert(n / 4096 == a * 16 + b / 16);
    assert(n / 64 == a * 1024 + b * 4 + c / 64);
}

/// Groups of three bytes are written one after the other.
pub proof fn groups_are_written_one_after_the_other(a: Seq<u8>, b: Seq<u8>)
    requires
        a.len() % 3 == 0,
    ensures
        base64(a + b) == base64(a) + base64(b),
    decreases a.len(),
{
    if a.len() == 0 {
        assert(a + b =~= b);
        assert(base64(a) + base64(b) =~= base64(b));
    } else {
        groups_are_written_one_after_the_other(a.skip(3), b);
        assert((a + b).skip(3) =~= a.skip(3) + b);
        assert(base64(a + b) =~= base64(a) + base64(b));
    }
}

/// A file is sent as it stands exactly if it is a text in which the opening of a PEM
/// block stands somewhere; any other file is sent in base64.
pub proof fn a_pem_text_is_sent_as_it_stands(bytes: Seq<u8>)
    ensures
        valid_utf8(bytes) && (exists|front: Seq<char>, back: Seq<char>|
            decode_utf8(bytes) == #[trigger] (front + "-----BEGIN"@ + back)) ==> payload(bytes)
            == decode_utf8(bytes),
        !(valid_utf8(bytes) && exists|front: Seq<char>, back: Seq<char>|
            decode_utf8(bytes) == #[trigger] (front + "-----BEGIN"@ + back)) ==> payload(bytes)
            == base64(bytes),
{
    what_occurs_stands_between("-----BEGIN"@, decode_utf8(bytes));
}

} // verus!
