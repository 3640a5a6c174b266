//! Library version strings.
use vstd::prelude::*;
use vstd::string::StringSliceAdditionalSpecFns;
use vstd::wrapping::i32_specs;

use crate::errors::VersionError;

verus! {

/// The decimal digit character of `d`.
pub open spec fn decimal_digit_char(d: nat) -> char {
    ('0' as nat + d) as char
}

/// The decimal representation of `n`, without leading zeros.
pub open spec fn decimal_text(n: nat) -> Seq<char>
    decreases n,
{
    if n < 10 {
        seq![decimal_digit_char(n)]
    } else {
        decimal_text(n / 10).push(decimal_digit_char(n % 10))
    }
}

/// Renders `n` in decimal.
///
/// Trusted: calls `usize::to_string`, whose `Display` implementation writes the decimal
/// representation of the number without leading zeros or sign.
#[verifier::external_body]
fn decimal_string(n: usize) -> (s: String)
    ensures
        s@ == decimal_text(n as nat),
{
    n.to_string()
}

/// The position of the first zero byte of `b`, if there is one.
pub open spec fn first_nul(b: Seq<u8>) -> Option<int> {
    if exists|i: int| 0 <= i < b.len() && b[i] == 0 {
        Some(choose|i: int| 0 <= i < b.len() && b[i] == 0 && forall|j: int| 0 <= j < i ==> b[j] != 0)
    } else {
        None
    }
}

/// The release code read from the bytes `b`: decimal digits accumulate from left to right,
/// `.` are skipped, and the first other byte stops the reading. The accumulator is a C `int`,
/// computed here with two's complement wrap-around.
pub open spec fn release_code_from(b: Seq<u8>, acc: i32) -> i32
    decreases b.len(),
{
    if b.len() == 0 {
        acc
    } else if b[0] == 0x2e {
        release_code_from(b.drop_first(), acc)
    } else if 0x30 <= b[0] <= 0x39 {
        release_code_from(
            b.drop_first(),
            i32_specs::wrapping_add(i32_specs::wrapping_mul(acc, 10), (b[0] - 0x30) as i32),
        )
    } else {
        acc
    }
}

/// What converting a version string with bytes `b` to a release code gives: the code, or the
/// message of the error raised when the string holds a zero byte, which a C string cannot hold.
pub open spec fn release_code_result(b: Seq<u8>) -> Result<i32, Seq<char>> {
    match first_nul(b) {
        Some(p) => Err(
            "failed to convert value to `CString` nul byte found in provided data at position: "@
                + decimal_text(p as nat),
        ),
        None => Ok(release_code_from(b, 0)),
    }
}

/// Converts a version string to the corresponding release code.
///
/// Digits are read from left to right, ignoring dots, up to the first other character: e.g.
/// `"2.39.4"` gives `2394`, `"2.39.x"` gives `239` and `"v2.39.4"` gives `0`. This is the
/// reading that `libfdisk`'s `fdisk_parse_version_string` performs.
pub fn version_string_to_release_code(version_string: &str) -> (r: Result<i32, VersionError>)
    ensures
        match r {
            Ok(code) => release_code_result(version_string.spec_bytes()) == Ok::<i32, Seq<char>>(
                code,
            ),
            Err(e) => e matches VersionError::CStringConversion(m) && release_code_result(
                version_string.spec_bytes(),
            ) == Err::<i32, Seq<char>>(m@),
        },
{
    let bytes = version_string.as_bytes();
    let n = bytes.len();
    let mut i: usize = 0;
    while i < n
        invariant
            i <= n == bytes@.len(),
            bytes@ == version_string.spec_bytes(),
            forall|j: int| 0 <= j < i ==> bytes@[j] != 0,
        decreases n - i,
    {
        if bytes[i] == 0 {
            let mut m = String::from_str(
                "failed to convert value to `CString` nul byte found in provided data at position: ",
            );
            let d = decimal_string(i);
            m.append(d.as_str());
            proof {
                let b = bytes@;
                assert(exists|k: int| 0 <= k < b.len() && b[k] == 0);
                let p = choose|k: int|
                    0 <= k < b.len() && b[k] == 0 && forall|j: int| 0 <= j < k ==> b[j] != 0;
                assert(0 <= i < b.len() && b[i as int] == 0 && forall|j: int|
                    0 <= j < i ==> b[j] != 0);
                if p < i {
                } else if p > i {
                    assert(b[i as int] != 0);
                }
                assert(p == i);
            }
            return Err(VersionError::CStringConversion(m));
        }
        i += 1;
    }
    assert(first_nul(bytes@) is None) by {
        if exists|q: int| 0 <= q < bytes@.len() && bytes@[q] == 0 {
            let q = choose|q: int| 0 <= q < bytes@.len() && bytes@[q] == 0;
            assert(bytes@[q] != 0);
        }
    }
    let mut code: i32 = 0;
    let mut k: usize = 0;
    assert(bytes@.subrange(0, n as int) =~= bytes@);
    while k < n
        invariant
            k <= n == bytes@.len(),
            bytes@ == version_string.spec_bytes(),
            first_nul(bytes@) is None,
            release_code_from(bytes@, 0) == release_code_from(
                bytes@.subrange(k as int, n as int),
                code,
            ),
        decreases n - k,
    {
        let c = bytes[k];
        assert(bytes@.subrange(k as int, n as int)[0] == c);
        assert(bytes@.subrange(k as int, n as int).drop_first() =~= bytes@.subrange(
            k + 1,
            n as int,
        ));
        if c == 0x2e {
        } else if 0x30 <= c && c <= 0x39 {
            code = code.wrapping_mul(10).wrapping_add((c - 0x30) as i32);
        } else {
            return Ok(code);
        }
        k += 1;
    }
    Ok(code)
}

/// Reads the count that `libfdisk` returns with its list of library features: a negative count
/// is a failure to get them, any other is the number of features in the list.
pub fn features_count(count: i32) -> (r: Result<usize, VersionError>)
    ensures
        r is Ok <==> count >= 0,
        r matches Ok(n) ==> n == count,
        r matches Err(e) ==> e matches VersionError::FeaturesAccess(m) && m@
            == "failed to get library features"@,
{
    if count < 0 {
        Err(VersionError::FeaturesAccess(String::from_str("failed to get library features")))
    } else {
        Ok(count as usize)
    }
}

/// Every byte of `b` is a decimal digit (`0` to `9`) or a dot.
pub open spec fn digits_and_dots(b: Seq<u8>) -> bool {
    forall|k: int| 0 <= k < b.len() ==> (0x30 <= #[trigger] b[k] <= 0x39 || b[k] == 0x2e)
}

/// Reading digits and dots, then more bytes, is reading the more bytes from where the digits
/// and dots left off.
proof fn lemma_release_code_concat(b: Seq<u8>, tail: Seq<u8>, acc: i32)
    requires
        digits_and_dots(b),
    ensures
        release_code_from(b + tail, acc) == release_code_from(tail, release_code_from(b, acc)),
    decreases b.len(),
{
    if b.len() == 0 {
        assert(b + tail =~= tail);
    } else {
        assert((b + tail).drop_first() =~= b.drop_first() + tail);
        assert((b + tail)[0] == b[0]);
        let next = if b[0] == 0x2e {
            acc
        } else {
            i32_specs::wrapping_add(i32_specs::wrapping_mul(acc, 10), (b[0] - 0x30) as i32)
        };
        lemma_release_code_concat(b.drop_first(), tail, next);
    }
}

/// A string of digits and dots holds no zero byte.
proof fn lemma_digits_and_dots_no_nul(b: Seq<u8>)
    requires
        digits_and_dots(b),
    ensures
        first_nul(b) is None,
{
    assert(!(exists|i: int| 0 <= i < b.len() && b[i] == 0)) by {
        assert forall|i: int| 0 <= i < b.len() implies b[i] != 0 by {
            assert(0x30 <= b[i] <= 0x39 || b[i] == 0x2e);
        }
    }
}

/// The release code of a version string made of decimal digits and dots is the number its
/// digits spell, kept in a C `int` (with two's complement wrap-around): the empty string gives
/// `0`, appending a digit `d` to such a string turns its code `r` into `r * 10 + d`, and
/// appending a dot leaves the code as it is.
pub proof fn lemma_release_code_reads_every_digit(b: Seq<u8>, d: u8)
    requires
        digits_and_dots(b),
        d <= 9,
    ensures
        release_code_result(Seq::<u8>::empty()) == Ok::<i32, Seq<char>>(0),
        match release_code_result(b) {
            Ok(r) => {
                &&& release_code_result(b.push((0x30 + d) as u8)) == Ok::<i32, Seq<char>>(
                    i32_specs::wrapping_add(i32_specs::wrapping_mul(r, 10), d as i32),
                )
                &&& release_code_result(b.push(0x2e)) == Ok::<i32, Seq<char>>(r)
            },
            Err(_) => false,
        },
{
    let e = Seq::<u8>::empty();
    assert(digits_and_dots(e));
    lemma_digits_and_dots_no_nul(e);
    lemma_digits_and_dots_no_nul(b);
    let x = (0x30 + d) as u8;
    assert(digits_and_dots(b.push(x))) by {
        assert forall|k: int| 0 <= k < b.push(x).len() implies (0x30 <= #[trigger] b.push(x)[k]
            <= 0x39 || b.push(x)[k] == 0x2e) by {
            if k < b.len() {
                assert(b.push(x)[k] == b[k]);
            }
        }
    }
    assert(digits_and_dots(b.push(0x2e))) by {
        assert forall|k: int| 0 <= k < b.push(0x2e).len() implies (0x30 <= #[trigger] b.push(
            0x2e,
        )[k] <= 0x39 || b.push(0x2e)[k] == 0x2e) by {
            if k < b.len() {
                assert(b.push(0x2e)[k] == b[k]);
            }
        }
    }
    lemma_digits_and_dots_no_nul(b.push(x));
    lemma_digits_and_dots_no_nul(b.push(0x2e));
    let r = release_code_from(b, 0);
    lemma_release_code_concat(b, seq![x], 0);
    assert(b + seq![x] =~= b.push(x));
    assert(seq![x].drop_first() =~= Seq::<u8>::empty());
    assert(seq![x][0] == x);
    assert(x == 0x30 + d);
    assert((x - 0x30) as i32 == d as i32);
    assert(release_code_from(Seq::<u8>::empty(), i32_specs::wrapping_add(
        i32_specs::wrapping_mul(r, 10),
        d as i32,
    )) == i32_specs::wrapping_add(i32_specs::wrapping_mul(r, 10), d as i32));
    assert(release_code_from(seq![x], r) == i32_specs::wrapping_add(
        i32_specs::wrapping_mul(r, 10),
        d as i32,
    ));
    assert(release_code_from(b.push(x), 0) == i32_specs::wrapping_add(
        i32_specs::wrapping_mul(r, 10),
        d as i32,
    ));
    lemma_release_code_concat(b, seq![0x2eu8], 0);
    assert(b + seq![0x2eu8] =~= b.push(0x2e));
    assert(seq![0x2eu8].drop_first() =~= Seq::<u8>::empty());
    assert(seq![0x2eu8][0] == 0x2e);
    assert(release_code_from(seq![0x2eu8], r) == release_code_from(Seq::<u8>::empty(), r));
    assert(release_code_from(b.push(0x2e), 0) == r);
}

} // verus!
