//! Verified codecs for the textual forms that cross the node's wire:
//! decimal renderings of numbers, base-16 renderings of byte strings, and
//! the `R0`..`R9` register names.

use vstd::prelude::*;
use vstd::std_specs::iter::IteratorSpec;

use crate::chain::RegisterId;
use crate::node::NodeError;

verus! {

/// Relies on `String::push` of std: appends the character to the string.
pub assume_specification[ String::push ](s: &mut String, ch: char)
    ensures
        final(s)@ == old(s)@.push(ch),
;

/// Collects the characters of a string slice into a vector.
pub fn str_chars(s: &str) -> (r: Vec<char>)
    ensures
        r@ == s@,
{
    broadcast use vstd::string::axiom_spec_iter, vstd::string::next_postcondition;

    let mut chars = s.chars();
    let mut out: Vec<char> = Vec::new();
    loop
        invariant
            chars.obeys_prophetic_iter_laws(),
            chars.decrease() is Some,
            out@ + chars.remaining() == s@,
        decreases chars.decrease()->0,
    {
        match chars.next() {
            Some(c) => {
                out.push(c);
            },
            None => {
                proof {
                    assert(out@ =~= s@);
                }
                return out;
            },
        }
    }
}

/// The character for one decimal digit.
pub open spec fn dec_digit_char(d: int) -> char {
    if d == 0 { '0' }
    else if d == 1 { '1' }
    else if d == 2 { '2' }
    else if d == 3 { '3' }
    else if d == 4 { '4' }
    else if d == 5 { '5' }
    else if d == 6 { '6' }
    else if d == 7 { '7' }
    else if d == 8 { '8' }
    else { '9' }
}

/// The decimal rendering of a number, without leading zeros
/// (and `0` itself rendered as `"0"`).
pub open spec fn dec_str_of(n: nat) -> Seq<char>
    decreases n,
{
    if n < 10 {
        seq![dec_digit_char(n as int)]
    } else {
        dec_str_of(n / 10).push(dec_digit_char((n % 10) as int))
    }
}

fn dec_digit_char_exec(d: u64) -> (r: char)
    requires
        d < 10,
    ensures
        r == dec_digit_char(d as int),
{
    if d == 0 { '0' }
    else if d == 1 { '1' }
    else if d == 2 { '2' }
    else if d == 3 { '3' }
    else if d == 4 { '4' }
    else if d == 5 { '5' }
    else if d == 6 { '6' }
    else if d == 7 { '7' }
    else if d == 8 { '8' }
    else { '9' }
}

/// Renders a number in decimal, as the node's path segments expect it.
pub fn u64_to_string(n: u64) -> (r: String)
    ensures
        r@ == dec_str_of(n as nat),
{
    let mut digits: Vec<char> = Vec::new();
    let mut m: u64 = n;
    loop
        invariant_except_break
            dec_str_of(n as nat) == dec_str_of(m as nat) + digits@.reverse(),
        ensures
            dec_str_of(n as nat) == digits@.reverse(),
        decreases m,
    {
        let d = m % 10;
        let next = m / 10;
        proof {
            assert(digits@.push(dec_digit_char(d as int)).reverse() =~= seq![
                dec_digit_char(d as int),
            ] + digits@.reverse());
            if next > 0 {
                assert(dec_str_of(m as nat) == dec_str_of(next as nat).push(
                    dec_digit_char(d as int),
                ));
                assert(dec_str_of(next as nat).push(dec_digit_char(d as int)) + digits@.reverse()
                    =~= dec_str_of(next as nat) + (seq![dec_digit_char(d as int)]
                    + digits@.reverse()));
            } else {
                assert(dec_str_of(m as nat) == seq![dec_digit_char(d as int)]);
                assert(seq![dec_digit_char(d as int)] + digits@.reverse() =~= dec_str_of(n as nat));
            }
        }
        digits.push(dec_digit_char_exec(d));
        m = next;
        if m == 0 {
            break;
        }
    }
    let mut out = String::new();
    let mut i: usize = digits.len();
    while i > 0
        invariant
            i <= digits@.len(),
            out@.len() == digits@.len() - i,
            forall|j: int| 0 <= j < out@.len() ==> out@[j] == digits@[digits@.len() - 1 - j],
        decreases i,
    {
        i = i - 1;
        out.push(digits[i]);
    }
    proof {
        assert(out@ =~= digits@.reverse());
    }
    out
}

/// The character for one base-16 digit, lower case.
pub open spec fn hex_digit_char(d: int) -> char {
    if d < 10 {
        dec_digit_char(d)
    } else if d == 10 { 'a' }
    else if d == 11 { 'b' }
    else if d == 12 { 'c' }
    else if d == 13 { 'd' }
    else if d == 14 { 'e' }
    else { 'f' }
}

/// The base-16 rendering of a byte string: two digits per byte, high first.
pub open spec fn hex_str_of(bytes: Seq<u8>) -> Seq<char> {
    Seq::new(
        bytes.len() * 2,
        |i: int|
            if i % 2 == 0 {
                hex_digit_char(bytes[i / 2] as int / 16)
            } else {
                hex_digit_char(bytes[i / 2] as int % 16)
            },
    )
}

fn hex_digit_char_exec(d: u8) -> (r: char)
    requires
        d < 16,
    ensures
        r == hex_digit_char(d as int),
{
    if d < 10 {
        dec_digit_char_exec(d as u64)
    } else if d == 10 { 'a' }
    else if d == 11 { 'b' }
    else if d == 12 { 'c' }
    else if d == 13 { 'd' }
    else if d == 14 { 'e' }
    else { 'f' }
}

/// Renders a byte string in base 16, as serialized constants cross the wire.
pub fn hex_encode(bytes: &Vec<u8>) -> (r: String)
    ensures
        r@ == hex_str_of(bytes@),
{
    let mut out = String::new();
    let mut i: usize = 0;
    while i < bytes.len()
        invariant
            i <= bytes@.len(),
            out@ =~= hex_str_of(bytes@).take(2 * i as int),
        decreases bytes@.len() - i,
    {
        let b = bytes[i];
        out.push(hex_digit_char_exec(b / 16));
        out.push(hex_digit_char_exec(b % 16));
        proof {
            assert(out@ =~= hex_str_of(bytes@).take(2 * (i + 1) as int));
        }
        i = i + 1;
    }
    proof {
        assert(out@ =~= hex_str_of(bytes@));
    }
    out
}

/// The value of one base-16 digit character, upper or lower case.
pub open spec fn hex_char_val(c: char) -> Option<u8> {
    if c == '0' { Some(0u8) }
    else if c == '1' { Some(1u8) }
    else if c == '2' { Some(2u8) }
    else if c == '3' { Some(3u8) }
    else if c == '4' { Some(4u8) }
    else if c == '5' { Some(5u8) }
    else if c == '6' { Some(6u8) }
    else if c == '7' { Some(7u8) }
    else if c == '8' { Some(8u8) }
    else if c == '9' { Some(9u8) }
    else if c == 'a' || c == 'A' { Some(10u8) }
    else if c == 'b' || c == 'B' { Some(11u8) }
    else if c == 'c' || c == 'C' { Some(12u8) }
    else if c == 'd' || c == 'D' { Some(13u8) }
    else if c == 'e' || c == 'E' { Some(14u8) }
    else if c == 'f' || c == 'F' { Some(15u8) }
    else { None }
}

/// The value of one base-16 digit character, zero where it is none.
pub open spec fn hex_char_val0(c: char) -> u8 {
    match hex_char_val(c) {
        Some(v) => v,
        None => 0u8,
    }
}

/// A character string is a base-16 rendering iff its length is even and
/// every character is a base-16 digit.
pub open spec fn is_hex_str(s: Seq<char>) -> bool {
    &&& s.len() % 2 == 0
    &&& forall|i: int| 0 <= i < s.len() ==> #[trigger] hex_char_val(s[i]) is Some
}

/// The byte string a base-16 rendering stands for.
pub open spec fn hex_decoded(s: Seq<char>) -> Seq<u8>
    recommends
        is_hex_str(s),
{
    Seq::new(
        s.len() / 2,
        |i: int| (16 * hex_char_val0(s[2 * i]) + hex_char_val0(s[2 * i + 1])) as u8,
    )
}

fn hex_char_val_exec(c: char) -> (r: Option<u8>)
    ensures
        r == hex_char_val(c),
{
    match c {
        '0' => Some(0u8),
        '1' => Some(1u8),
        '2' => Some(2u8),
        '3' => Some(3u8),
        '4' => Some(4u8),
        '5' => Some(5u8),
        '6' => Some(6u8),
        '7' => Some(7u8),
        '8' => Some(8u8),
        '9' => Some(9u8),
        'a' | 'A' => Some(10u8),
        'b' | 'B' => Some(11u8),
        'c' | 'C' => Some(12u8),
        'd' | 'D' => Some(13u8),
        'e' | 'E' => Some(14u8),
        'f' | 'F' => Some(15u8),
        _ => None,
    }
}

/// Reads a base-16 rendering back into bytes, rejecting odd lengths and
/// characters that are no base-16 digits.
pub fn hex_decode(s: &str) -> (r: Result<Vec<u8>, NodeError>)
    ensures
        r is Ok <==> is_hex_str(s@),
        r matches Ok(bytes) ==> bytes@ == hex_decoded(s@),
        r matches Err(e) ==> e is Decode,
{
    let chars = str_chars(s);
    if chars.len() % 2 != 0 {
        return Err(NodeError::Decode("odd number of base-16 digits".to_owned()));
    }
    let half = chars.len() / 2;
    let mut out: Vec<u8> = Vec::new();
    let mut j: usize = 0;
    while j < half
        invariant
            chars@ == s@,
            chars@.len() % 2 == 0,
            half == chars@.len() / 2,
            j <= half,
            out@.len() == j,
            forall|k: int| 0 <= k < 2 * j ==> #[trigger] hex_char_val(s@[k]) is Some,
            forall|k: int|
                0 <= k < out@.len() ==> out@[k] == (16 * hex_char_val0(s@[2 * k]) + hex_char_val0(
                    s@[2 * k + 1],
                )) as u8,
        decreases half - j,
    {
        let hi = match hex_char_val_exec(chars[2 * j]) {
            Some(v) => v,
            _ => {
                return Err(NodeError::Decode("not a base-16 digit".to_owned()));
            },
        };
        let lo = match hex_char_val_exec(chars[2 * j + 1]) {
            Some(v) => v,
            _ => {
                return Err(NodeError::Decode("not a base-16 digit".to_owned()));
            },
        };
        out.push(16 * hi + lo);
        j = j + 1;
    }
    proof {
        assert(out@ =~= hex_decoded(s@));
    }
    Ok(out)
}

/// Decoding inverts encoding: the base-16 rendering of any byte string
/// reads back as that byte string.
pub proof fn lemma_hex_round_trip(bytes: Seq<u8>)
    ensures
        is_hex_str(hex_str_of(bytes)),
        hex_decoded(hex_str_of(bytes)) == bytes,
{
    let s = hex_str_of(bytes);
    assert forall|i: int| 0 <= i < s.len() implies #[trigger] hex_char_val(s[i]) is Some by {
        let b = bytes[i / 2] as int;
        assert(0 <= b / 16 < 16 && 0 <= b % 16 < 16);
    }
    assert forall|i: int| 0 <= i < bytes.len() implies hex_decoded(s)[i] == bytes[i] by {
        let b = bytes[i] as int;
        assert(s[2 * i] == hex_digit_char(b / 16));
        assert(s[2 * i + 1] == hex_digit_char(b % 16));
        assert(hex_char_val0(hex_digit_char(b / 16)) == b / 16);
        assert(hex_char_val0(hex_digit_char(b % 16)) == b % 16);
        assert(16 * (b / 16) + b % 16 == b);
    }
    assert(hex_decoded(s) =~= bytes);
}

/// The textual name of a register: `R` followed by its index.
pub open spec fn register_name_of(id: RegisterId) -> Seq<char> {
    seq!['R', dec_digit_char(id.index as int)]
}

/// Renders a register id as the node writes it, `R0` through `R9`.
pub fn register_id_to_string(id: RegisterId) -> (r: String)
    requires
        id.wf(),
    ensures
        r@ == register_name_of(id),
{
    let mut out = String::new();
    out.push('R');
    out.push(dec_digit_char_exec(id.index as u64));
    proof {
        assert(out@ =~= register_name_of(id));
    }
    out
}

/// Reads a register name back, rejecting anything but `R0` through `R9`.
pub fn parse_register_id(s: &str) -> (r: Result<RegisterId, NodeError>)
    ensures
        r matches Ok(id) ==> id.wf() && s@ == register_name_of(id),
        r is Err ==> forall|id: RegisterId| id.wf() ==> s@ != #[trigger] register_name_of(id),
        r matches Err(e) ==> e is Decode,
{
    let chars = str_chars(s);
    if chars.len() != 2 {
        proof {
            assert forall|id: RegisterId| id.wf() implies s@ != #[trigger] register_name_of(id) by {
                assert(register_name_of(id).len() == 2);
            }
        }
        return Err(NodeError::Decode("register name is not of the form R0..R9".to_owned()));
    }
    let head = chars[0];
    let digit = chars[1];
    if head != 'R' {
        proof {
            assert forall|id: RegisterId| id.wf() implies s@ != #[trigger] register_name_of(id) by {
                assert(register_name_of(id)[0] == 'R');
            }
        }
        return Err(NodeError::Decode("register name is not of the form R0..R9".to_owned()));
    }
    let index: u8 = match digit {
        '0' => 0,
        '1' => 1,
        '2' => 2,
        '3' => 3,
        '4' => 4,
        '5' => 5,
        '6' => 6,
        '7' => 7,
        '8' => 8,
        '9' => 9,
        _ => {
            proof {
                assert forall|id: RegisterId| id.wf() implies s@ != #[trigger] register_name_of(
                    id,
                ) by {
                    assert(register_name_of(id)[1] == dec_digit_char(id.index as int));
                }
            }
            return Err(NodeError::Decode("register name is not of the form R0..R9".to_owned()));
        },
    };
    let id = RegisterId { index };
    proof {
        assert(s@ =~= register_name_of(id));
    }
    Ok(id)
}

/// Register names identify their register: equal names mean equal registers.
pub proof fn lemma_register_name_round_trip(id: RegisterId, other: RegisterId)
    requires
        id.wf(),
        other.wf(),
        register_name_of(id) == register_name_of(other),
    ensures
        id == other,
{
    assert(register_name_of(id)[1] == register_name_of(other)[1]);
}

} // verus!
