//! Character-level helpers shared by the parsers of this crate.
//!
//! Every parser here works on the `Seq<char>` view of a `str`: whitespace trimming, quote
//! stripping, ASCII case folding and hexadecimal digits are stated as spec functions, and the
//! executable helpers are proved against them.
use vstd::prelude::*;
use vstd::string::StringSliceAdditionalSpecFns;

verus! {

/// Unicode `White_Space` property, the set of characters that `char::is_whitespace` accepts
/// and that `str::trim` removes.
pub open spec fn is_whitespace(c: char) -> bool {
    let u = c as u32;
    ||| 0x09 <= u <= 0x0d
    ||| u == 0x20
    ||| u == 0x85
    ||| u == 0xa0
    ||| u == 0x1680
    ||| 0x2000 <= u <= 0x200a
    ||| u == 0x2028
    ||| u == 0x2029
    ||| u == 0x202f
    ||| u == 0x205f
    ||| u == 0x3000
}

/// `s` without its leading whitespace.
pub open spec fn trim_start(s: Seq<char>) -> Seq<char>
    decreases s.len(),
{
    if s.len() > 0 && is_whitespace(s[0]) {
        trim_start(s.drop_first())
    } else {
        s
    }
}

/// `s` without its trailing whitespace.
pub open spec fn trim_end(s: Seq<char>) -> Seq<char>
    decreases s.len(),
{
    if s.len() > 0 && is_whitespace(s.last()) {
        trim_end(s.drop_last())
    } else {
        s
    }
}

/// `s` without its leading and trailing whitespace, as `str::trim` gives it.
pub open spec fn trim(s: Seq<char>) -> Seq<char> {
    trim_end(trim_start(s))
}

/// The ASCII lower-case form of a character; any other character is left as it is.
pub open spec fn ascii_lower_char(c: char) -> char {
    if 'A' <= c <= 'Z' {
        ((c as u32) + 32) as char
    } else {
        c
    }
}

/// `s` with every ASCII upper-case letter replaced by its lower-case form.
pub open spec fn ascii_lower(s: Seq<char>) -> Seq<char> {
    s.map_values(|c: char| ascii_lower_char(c))
}

/// The value of a hexadecimal digit (either case), as `char::to_digit(16)` gives it.
pub open spec fn hex_digit_value(c: char) -> Option<u8> {
    if '0' <= c <= '9' {
        Some(((c as u32) - ('0' as u32)) as u8)
    } else if 'a' <= c <= 'f' {
        Some(((c as u32) - ('a' as u32) + 10) as u8)
    } else if 'A' <= c <= 'F' {
        Some(((c as u32) - ('A' as u32) + 10) as u8)
    } else {
        None
    }
}

/// The quote character that opens `t`, if `t` starts with a double or a single quote.
pub open spec fn opening_quote(t: Seq<char>) -> Option<char> {
    if t.len() > 0 && (t[0] == '"' || t[0] == '\'') {
        Some(t[0])
    } else {
        None
    }
}

/// `t` without its enclosing quotes: `None` when `t` opens with a quote that does not also
/// close it; `t` itself when it opens with no quote.
pub open spec fn unquote(t: Seq<char>) -> Option<Seq<char>> {
    match opening_quote(t) {
        None => Some(t),
        Some(q) => if t.len() >= 2 && t.last() == q {
            Some(t.subrange(1, t.len() - 1))
        } else {
            None
        },
    }
}

/// How `u8::from_str_radix` reports a failure.
#[derive(Debug, Clone, Copy, PartialEq, Eq)]
pub enum IntErrorKind {
    /// The text holds no digit.
    Empty,
    /// The text holds a character that is not a digit of the radix.
    InvalidDigit,
    /// The number does not fit in the integer type.
    PosOverflow,
}

impl IntErrorKind {
    /// The name under which the error kind is debug-printed.
    pub open spec fn name(self) -> Seq<char> {
        match self {
            IntErrorKind::Empty => "Empty"@,
            IntErrorKind::InvalidDigit => "InvalidDigit"@,
            IntErrorKind::PosOverflow => "PosOverflow"@,
        }
    }

    /// Returns the name under which the error kind is debug-printed.
    pub fn name_str(&self) -> (s: &'static str)
        ensures
            s@ == self.name(),
    {
        match self {
            IntErrorKind::Empty => "Empty",
            IntErrorKind::InvalidDigit => "InvalidDigit",
            IntErrorKind::PosOverflow => "PosOverflow",
        }
    }
}

/// Accumulates the hexadecimal digits `ds` onto `acc`, from left to right, failing at the
/// first character that is not a hexadecimal digit or as soon as the value exceeds `u8::MAX`.
pub open spec fn hex_fold(ds: Seq<char>, acc: nat) -> Result<u8, IntErrorKind>
    decreases ds.len(),
{
    if ds.len() == 0 {
        if acc <= 255 {
            Ok(acc as u8)
        } else {
            Err(IntErrorKind::PosOverflow)
        }
    } else {
        match hex_digit_value(ds[0]) {
            None => Err(IntErrorKind::InvalidDigit),
            Some(d) => if acc * 16 + d > 255 {
                Err(IntErrorKind::PosOverflow)
            } else {
                hex_fold(ds.drop_first(), (acc * 16 + d) as nat)
            },
        }
    }
}

/// What `u8::from_str_radix(h, 16)` gives for the text `h`: an optional leading `+`, then
/// hexadecimal digits of either case.
pub open spec fn parse_hex_u8(h: Seq<char>) -> Result<u8, IntErrorKind> {
    if h.len() == 0 {
        Err(IntErrorKind::Empty)
    } else if h.len() == 1 && (h[0] == '+' || h[0] == '-') {
        Err(IntErrorKind::InvalidDigit)
    } else if h[0] == '+' {
        hex_fold(h.drop_first(), 0)
    } else {
        hex_fold(h, 0)
    }
}

/// The lower-case hexadecimal digit of `d`.
pub open spec fn hex_digit_char(d: int) -> char {
    if 0 <= d < 10 {
        ('0' as int + d) as char
    } else {
        ('a' as int + d - 10) as char
    }
}

/// Which quote a text opens without closing it, or the text inside its quotes.
pub enum Unquoted {
    /// The text inside its enclosing quotes, or the whole text when it opens with no quote.
    Text(Vec<char>),
    /// The text opens with a double quote that does not close it.
    UnclosedDoubleQuote,
    /// The text opens with a single quote that does not close it.
    UnclosedQuote,
}

/// Strips the quotes that enclose `t`, as `unquote` states.
pub fn strip_quotes(t: &Vec<char>) -> (r: Unquoted)
    ensures
        match r {
            Unquoted::Text(v) => unquote(t@) == Some(v@),
            Unquoted::UnclosedDoubleQuote => opening_quote(t@) == Some('"') && unquote(t@)
                is None,
            Unquoted::UnclosedQuote => opening_quote(t@) == Some('\'') && unquote(t@) is None,
        },
{
    let n = t.len();
    if n > 0 && (t[0] == '"' || t[0] == '\'') {
        let q = t[0];
        if n >= 2 && t[n - 1] == q {
            Unquoted::Text(slice_chars(t, 1, n - 1))
        } else if q == '"' {
            Unquoted::UnclosedDoubleQuote
        } else {
            Unquoted::UnclosedQuote
        }
    } else {
        Unquoted::Text(slice_chars(t, 0, n))
    }
}

/// The value of a hexadecimal digit, as `hex_digit_value` states.
pub fn hex_digit(c: char) -> (r: Option<u8>)
    ensures
        r == hex_digit_value(c),
{
    if '0' <= c && c <= '9' {
        Some(((c as u32) - ('0' as u32)) as u8)
    } else if 'a' <= c && c <= 'f' {
        Some(((c as u32) - ('a' as u32) + 10) as u8)
    } else if 'A' <= c && c <= 'F' {
        Some(((c as u32) - ('A' as u32) + 10) as u8)
    } else {
        None
    }
}

/// Parses `h` as `u8::from_str_radix(h, 16)` does.
pub fn hex_u8(h: &Vec<char>) -> (r: Result<u8, IntErrorKind>)
    ensures
        r == parse_hex_u8(h@),
{
    let n = h.len();
    if n == 0 {
        return Err(IntErrorKind::Empty);
    }
    if n == 1 && (h[0] == '+' || h[0] == '-') {
        return Err(IntErrorKind::InvalidDigit);
    }
    let start: usize = if h[0] == '+' {
        1
    } else {
        0
    };
    proof {
        if h[0] == '+' {
            assert(h@.drop_first() =~= h@.subrange(1, n as int));
        } else {
            assert(h@ =~= h@.subrange(0, n as int));
        }
    }
    let mut acc: u8 = 0;
    let mut i = start;
    while i < n
        invariant
            start <= i <= n == h.len(),
            parse_hex_u8(h@) == hex_fold(h@.subrange(i as int, n as int), acc as nat),
        decreases n - i,
    {
        let ds = Ghost(h@.subrange(i as int, n as int));
        assert(ds@[0] == h@[i as int]);
        assert(ds@.drop_first() =~= h@.subrange(i + 1, n as int));
        match hex_digit(h[i]) {
            None => {
                return Err(IntErrorKind::InvalidDigit);
            },
            Some(d) => {
                let next: u32 = (acc as u32) * 16 + (d as u32);
                if next > 255 {
                    return Err(IntErrorKind::PosOverflow);
                }
                acc = next as u8;
            },
        }
        i += 1;
    }
    Ok(acc)
}

/// Collects the characters of `s` in order.
pub fn chars_of(s: &str) -> (v: Vec<char>)
    ensures
        v@ == s@,
{
    let mut v: Vec<char> = Vec::new();
    for c in it: s.chars()
        invariant
            v@ == it.seq().take(it.index() as int),
            it.seq() == s@,
    {
        v.push(c);
    }
    v
}

/// Tests whether `c` is a whitespace character.
pub fn char_is_whitespace(c: char) -> (b: bool)
    ensures
        b == is_whitespace(c),
{
    let u = c as u32;
    (0x09 <= u && u <= 0x0d) || u == 0x20 || u == 0x85 || u == 0xa0 || u == 0x1680 || (0x2000
        <= u && u <= 0x200a) || u == 0x2028 || u == 0x2029 || u == 0x202f || u == 0x205f || u
        == 0x3000
}

/// Copies `v[from..to]`.
pub fn slice_chars(v: &Vec<char>, from: usize, to: usize) -> (r: Vec<char>)
    requires
        from <= to <= v.len(),
    ensures
        r@ == v@.subrange(from as int, to as int),
{
    let mut r: Vec<char> = Vec::new();
    let mut i = from;
    while i < to
        invariant
            from <= i <= to <= v.len(),
            r@ == v@.subrange(from as int, i as int),
        decreases to - i,
    {
        r.push(v[i]);
        i += 1;
        assert(r@ =~= v@.subrange(from as int, i as int));
    }
    r
}

/// Removes the leading and trailing whitespace of `v`.
pub fn trim_chars(v: &Vec<char>) -> (r: Vec<char>)
    ensures
        r@ == trim(v@),
{
    let n = v.len();
    let mut i: usize = 0;
    assert(v@.subrange(0, n as int) =~= v@);
    while i < n && char_is_whitespace(v[i])
        invariant
            i <= n == v.len(),
            trim_start(v@) == trim_start(v@.subrange(i as int, n as int)),
        decreases n - i,
    {
        assert(v@.subrange(i as int, n as int).drop_first() =~= v@.subrange(i + 1, n as int));
        i += 1;
    }
    assert(trim_start(v@) == v@.subrange(i as int, n as int));
    let mut j: usize = n;
    assert(v@.subrange(i as int, n as int).subrange(0, (n - i) as int) =~= v@.subrange(
        i as int,
        n as int,
    ));
    while j > i && char_is_whitespace(v[j - 1])
        invariant
            i <= j <= n == v.len(),
            trim(v@) == trim_end(v@.subrange(i as int, j as int)),
        decreases j,
    {
        assert(v@.subrange(i as int, j as int).drop_last() =~= v@.subrange(i as int, j - 1));
        j -= 1;
    }
    slice_chars(v, i, j)
}

/// The ASCII lower-case form of `v`.
pub fn lower_ascii(v: &Vec<char>) -> (r: Vec<char>)
    ensures
        r@ == ascii_lower(v@),
{
    let mut r: Vec<char> = Vec::new();
    let mut i: usize = 0;
    while i < v.len()
        invariant
            i <= v.len(),
            r@ == ascii_lower(v@.subrange(0, i as int)),
        decreases v.len() - i,
    {
        let c = v[i];
        let l = if 'A' <= c && c <= 'Z' {
            let u = (c as u32) + 32;
            assert(0x61 <= u <= 0x7a);
            char_from_ascii(u)
        } else {
            c
        };
        r.push(l);
        assert(v@.subrange(0, i + 1) =~= v@.subrange(0, i as int).push(c));
        i += 1;
        assert(r@ =~= ascii_lower(v@.subrange(0, i as int)));
    }
    assert(v@.subrange(0, v.len() as int) =~= v@);
    r
}

/// The character of an ASCII code point.
fn char_from_ascii(u: u32) -> (c: char)
    requires
        u < 0x80,
    ensures
        c == u as char,
        c as u32 == u,
{
    let b = u as u8;
    b as char
}

/// Tests whether `v` holds exactly the characters of `lit`.
pub fn chars_equal(v: &Vec<char>, lit: &str) -> (b: bool)
    ensures
        b == (v@ == lit@),
{
    let mut i: usize = 0;
    let mut same = true;
    for c in it: lit.chars()
        invariant
            it.seq() == lit@,
            same ==> i == it.index() && i <= v.len() && v@.subrange(0, i as int) == lit@.subrange(
                0,
                i as int,
            ),
            !same ==> v@ != lit@,
    {
        if same {
            if i < v.len() && v[i] == c {
                assert(v@.subrange(0, i + 1) =~= v@.subrange(0, i as int).push(c));
                assert(lit@.subrange(0, i + 1) =~= lit@.subrange(0, i as int).push(c));
                i += 1;
            } else {
                if i < v.len() {
                    assert(v@[i as int] != lit@[i as int]);
                } else {
                    assert(v@.len() != lit@.len());
                }
                same = false;
            }
        }
    }
    if same && i == v.len() {
        assert(v@ =~= v@.subrange(0, i as int));
        assert(lit@ =~= lit@.subrange(0, i as int));
        true
    } else {
        false
    }
}

/// `prefix` followed by `s`.
pub fn join_text(prefix: &str, s: &str) -> (r: String)
    ensures
        r@ == prefix@ + s@,
{
    let mut r = String::from_str(prefix);
    r.append(s);
    r
}

/// The text that `Utf8Error`'s `Debug` implementation prints for the error that
/// `std::str::from_utf8` reports on `bytes`.
pub uninterp spec fn utf8_error_text(bytes: Seq<u8>) -> Seq<char>;

/// Calls `std::str::from_utf8`.
///
/// Trusted: the call succeeds exactly when `bytes` is valid UTF-8, and then the returned `str`
/// is made of exactly these bytes; on failure the returned text is the `Debug` rendering of the
/// `Utf8Error`, named by `utf8_error_text`.
#[verifier::external_body]
pub(crate) fn utf8_str(bytes: &[u8]) -> (r: Result<&str, String>)
    ensures
        r is Ok <==> vstd::utf8::valid_utf8(bytes@),
        r matches Ok(s) ==> s.spec_bytes() == bytes@,
        r matches Err(m) ==> m@ == utf8_error_text(bytes@),
{
    match std::str::from_utf8(bytes) {
        Ok(s) => Ok(s),
        Err(e) => Err(format!("{:?}", e)),
    }
}

/// Decodes `bytes` as UTF-8, stating the result over `decode_utf8`.
pub fn decode_utf8_text(bytes: &[u8]) -> (r: Result<&str, String>)
    ensures
        r is Ok <==> vstd::utf8::valid_utf8(bytes@),
        r matches Ok(s) ==> s@ == vstd::utf8::decode_utf8(bytes@),
        r matches Err(m) ==> m@ == utf8_error_text(bytes@),
{
    let r = utf8_str(bytes);
    proof {
        if let Ok(s) = r {
            vstd::utf8::encode_utf8_decode_utf8(s@);
        }
    }
    r
}

/// The text that the `Debug` implementation of `str` prints for a string whose characters are
/// `s`: the string between double quotes, with some characters escaped.
pub uninterp spec fn debug_text(s: Seq<char>) -> Seq<char>;

/// Whether `c` is printed as itself inside the `Debug` rendering of a string: printable ASCII
/// other than the backslash and the quotes.
pub open spec fn debug_plain_char(c: char) -> bool {
    ' ' <= c <= '~' && c != '\\' && c != '"' && c != '\''
}

/// Renders `s` with `format!("{:?}", s)`.
///
/// Trusted: the result is the `Debug` text of `s`, named by `debug_text`; when every character
/// of `s` is printable ASCII other than the backslash and the quotes, it is `s` between double
/// quotes, since `char::escape_debug` leaves such characters unchanged.
#[verifier::external_body]
pub(crate) fn debug_str(s: &str) -> (r: String)
    ensures
        r@ == debug_text(s@),
        (forall|i: int| 0 <= i < s@.len() ==> debug_plain_char(#[trigger] s@[i])) ==> r@ == seq![
            '"',
        ] + s@ + seq!['"'],
{
    format!("{:?}", s)
}

/// Every character of `s` is whitespace.
pub open spec fn is_blank(s: Seq<char>) -> bool {
    forall|i: int| 0 <= i < s.len() ==> is_whitespace(#[trigger] s[i])
}

/// `s` enclosed in the quote character `q`, or `s` itself when there is no quote.
pub open spec fn quoted(q: Option<char>, s: Seq<char>) -> Seq<char> {
    match q {
        Some(c) => seq![c] + s + seq![c],
        None => s,
    }
}

/// `s` is not empty, and neither starts nor ends with whitespace.
pub open spec fn is_tight(s: Seq<char>) -> bool {
    s.len() > 0 && !is_whitespace(s[0]) && !is_whitespace(s.last())
}

/// Leading whitespace goes, up to the first character that is not whitespace.
proof fn lemma_trim_start_blank(p: Seq<char>, y: Seq<char>)
    requires
        is_blank(p),
        y.len() > 0,
        !is_whitespace(y[0]),
    ensures
        trim_start(p + y) == y,
    decreases p.len(),
{
    if p.len() == 0 {
        assert(p + y =~= y);
    } else {
        assert((p + y).drop_first() =~= p.drop_first() + y);
        assert(is_whitespace(p[0]));
        lemma_trim_start_blank(p.drop_first(), y);
    }
}

/// Trailing whitespace goes, back to the last character that is not whitespace.
proof fn lemma_trim_end_blank(y: Seq<char>, p: Seq<char>)
    requires
        is_blank(p),
        y.len() > 0,
        !is_whitespace(y.last()),
    ensures
        trim_end(y + p) == y,
    decreases p.len(),
{
    if p.len() == 0 {
        assert(y + p =~= y);
    } else {
        assert((y + p).drop_last() =~= y + p.drop_last());
        assert(is_whitespace(p.last()));
        lemma_trim_end_blank(y, p.drop_last());
    }
}

/// Trimming a text padded with whitespace on both sides gives the text back.
pub proof fn lemma_trim_padded(p1: Seq<char>, x: Seq<char>, p2: Seq<char>)
    requires
        is_blank(p1),
        is_blank(p2),
        is_tight(x),
    ensures
        trim(p1 + x + p2) == x,
{
    assert(p1 + x + p2 =~= p1 + (x + p2));
    assert((x + p2)[0] == x[0]);
    lemma_trim_start_blank(p1, x + p2);
    lemma_trim_end_blank(x, p2);
}

/// A text that does not open with a quote, padded with whitespace and enclosed in at most one
/// pair of quotes with more whitespace outside them, comes back whole from trimming, taking
/// off the quotes and trimming again.
pub proof fn lemma_dressed_core(
    q: Option<char>,
    p1: Seq<char>,
    p2: Seq<char>,
    p3: Seq<char>,
    p4: Seq<char>,
    x: Seq<char>,
)
    requires
        q is None || q == Some('"') || q == Some('\''),
        is_blank(p1),
        is_blank(p2),
        is_blank(p3),
        is_blank(p4),
        is_tight(x),
        opening_quote(x) is None,
    ensures
        unquote(trim(p1 + quoted(q, p3 + x + p4) + p2)) matches Some(u) && trim(u) == x,
{
    let e: Seq<char> = Seq::empty();
    assert(is_blank(e));
    assert(e + x + e =~= x);
    lemma_trim_padded(e, x, e);
    match q {
        None => {
            let s = p1 + (p3 + x + p4) + p2;
            assert(s =~= (p1 + p3) + x + (p4 + p2));
            assert(is_blank(p1 + p3)) by {
                assert forall|i: int| 0 <= i < (p1 + p3).len() implies is_whitespace(
                    #[trigger] (p1 + p3)[i],
                ) by {
                    if i < p1.len() {
                        assert((p1 + p3)[i] == p1[i]);
                    } else {
                        assert((p1 + p3)[i] == p3[i - p1.len()]);
                    }
                }
            }
            assert(is_blank(p4 + p2)) by {
                assert forall|i: int| 0 <= i < (p4 + p2).len() implies is_whitespace(
                    #[trigger] (p4 + p2)[i],
                ) by {
                    if i < p4.len() {
                        assert((p4 + p2)[i] == p4[i]);
                    } else {
                        assert((p4 + p2)[i] == p2[i - p4.len()]);
                    }
                }
            }
            lemma_trim_padded(p1 + p3, x, p4 + p2);
            assert(unquote(x) == Some(x));
        },
        Some(c) => {
            let inner = p3 + x + p4;
            let w = seq![c] + inner + seq![c];
            assert(!is_whitespace(c));
            assert(w[0] == c);
            assert(w.last() == c);
            lemma_trim_padded(p1, w, p2);
            assert(opening_quote(w) == Some(c));
            assert(w.subrange(1, w.len() - 1) =~= inner);
            lemma_trim_padded(p3, x, p4);
        },
    }
}

/// `u` is `t` with some of its lower-case ASCII letters (`a` to `z`) written in upper case
/// (`A` to `Z`, 32 code points lower); every other character is the same.
pub open spec fn same_up_to_case(u: Seq<char>, t: Seq<char>) -> bool {
    &&& u.len() == t.len()
    &&& forall|i: int|
        0 <= i < t.len() ==> (u[i] == t[i] || ('a' <= t[i] <= 'z' && (u[i] as u32) + 32 == (
        #[trigger] t[i]) as u32))
}

/// `t` with every lower-case ASCII letter written in upper case.
pub open spec fn ascii_upper(t: Seq<char>) -> Seq<char> {
    t.map_values(|c: char| if 'a' <= c <= 'z' { ((c as u32) - 32) as char } else { c })
}

/// The upper-case form of a text differs from it only in the case of its letters.
pub proof fn lemma_ascii_upper_same_up_to_case(t: Seq<char>)
    ensures
        same_up_to_case(ascii_upper(t), t),
{
    assert forall|i: int| 0 <= i < t.len() implies (ascii_upper(t)[i] == t[i] || ('a' <= t[i] <= 'z'
        && (ascii_upper(t)[i] as u32) + 32 == (#[trigger] t[i]) as u32)) by {
        if 'a' <= t[i] <= 'z' {
            let x = (t[i] as u32) - 32;
            assert(0x41 <= x <= 0x5a);
            vstd::utf8::char_u32_cast(ascii_upper(t)[i], ascii_upper(t)[i] as u32);
        }
    }
}

/// Lower-casing undoes upper-casing: a text that differs from `t` only in the case of its
/// letters, where `t` holds no upper-case letter, lower-cases to `t`.
pub proof fn lemma_ascii_lower_same_up_to_case(u: Seq<char>, t: Seq<char>)
    requires
        same_up_to_case(u, t),
        forall|i: int| 0 <= i < t.len() ==> !('A' <= #[trigger] t[i] <= 'Z'),
    ensures
        ascii_lower(u) == t,
{
    assert forall|i: int| 0 <= i < t.len() implies ascii_lower_char(u[i]) == t[i] by {
        if u[i] != t[i] {
            let x: u32 = ((u[i] as u32) + 32) as u32;
            assert(x == t[i] as u32);
            vstd::utf8::char_u32_cast(t[i], x);
        }
    }
    assert(ascii_lower(u) =~= t);
}

} // verus!
