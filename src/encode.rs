//! Text that goes into a request target: percent-encoded query values and
//! decimal integers.
use vstd::prelude::*;
use vstd::utf8::encode_utf8;

verus! {

/// A byte that form encoding keeps as it is: an ASCII letter or digit, or
/// one of `*`, `-`, `.`, `_`.
pub open spec fn is_unreserved(b: u8) -> bool {
    b == 42 || b == 45 || b == 46 || (48 <= b <= 57) || (65 <= b <= 90) || b == 95 || (97
        <= b <= 122)
}

/// The upper-case hexadecimal digit of `n < 16`.
pub open spec fn hex_char(n: int) -> char {
    if n < 10 {
        (n + 48) as char
    } else {
        (n + 55) as char
    }
}

/// How form encoding writes one byte: kept, `+` for a space, else `%XY`.
pub open spec fn encode_byte(b: u8) -> Seq<char> {
    if is_unreserved(b) {
        seq![b as char]
    } else if b == 32 {
        seq!['+']
    } else {
        seq!['%', hex_char(b as int / 16), hex_char(b as int % 16)]
    }
}

/// The form encoding of a sequence of bytes.
pub open spec fn encode_bytes(s: Seq<u8>) -> Seq<char>
    decreases s.len(),
{
    if s.len() == 0 {
        Seq::empty()
    } else {
        encode_bytes(s.drop_last()) + encode_byte(s.last())
    }
}

/// The `application/x-www-form-urlencoded` form of a text, byte by byte
/// over its UTF-8 encoding.
pub open spec fn form_encoded(t: Seq<char>) -> Seq<char> {
    encode_bytes(encode_utf8(t))
}

/// How percent-encoding writes one byte: kept when unreserved, else `%XY`.
pub open spec fn percent_byte(b: u8) -> Seq<char> {
    if is_unreserved(b) {
        seq![b as char]
    } else {
        seq!['%', hex_char(b as int / 16), hex_char(b as int % 16)]
    }
}

/// The percent-encoding of a sequence of bytes.
pub open spec fn percent_bytes(s: Seq<u8>) -> Seq<char>
    decreases s.len(),
{
    if s.len() == 0 {
        Seq::empty()
    } else {
        percent_bytes(s.drop_last()) + percent_byte(s.last())
    }
}

/// The percent-encoding of a text, byte by byte over its UTF-8 encoding:
/// ASCII letters, digits and `*-._` stay, every other byte becomes `%XY`.
pub open spec fn query_encoded(t: Seq<char>) -> Seq<char> {
    percent_bytes(encode_utf8(t))
}

/// A character that has a meaning of its own in a URL query, or that a
/// query cannot hold: `&`, `=`, `?`, `#`, `+`, `/` and the space.
pub open spec fn is_query_reserved(c: char) -> bool {
    c == '&' || c == '=' || c == '?' || c == '#' || c == '+' || c == '/' || c == ' '
}

/// The value of a hexadecimal digit (either case); 0 for any other character.
pub open spec fn hex_value(c: char) -> int {
    if '0' <= c <= '9' {
        c as int - 48
    } else if 'A' <= c <= 'F' {
        c as int - 55
    } else if 'a' <= c <= 'f' {
        c as int - 87
    } else {
        0
    }
}

/// Percent-decoding: each `%XY` becomes the byte `XY`, every other
/// character the byte of its code.
pub open spec fn percent_decoded(c: Seq<char>) -> Seq<u8>
    decreases c.len(),
{
    if c.len() == 0 {
        Seq::empty()
    } else if c[0] == '%' && c.len() >= 3 {
        seq![(16 * hex_value(c[1]) + hex_value(c[2])) as u8] + percent_decoded(c.skip(3))
    } else {
        seq![c[0] as u8] + percent_decoded(c.drop_first())
    }
}

/// Writes each `+` of a form-encoded text as `%20`, the escape of the
/// space that it stands for.
pub open spec fn plus_as_escape(c: Seq<char>) -> Seq<char>
    decreases c.len(),
{
    if c.len() == 0 {
        Seq::empty()
    } else if c.last() == '+' {
        plus_as_escape(c.drop_last()) + seq!['%', '2', '0']
    } else {
        plus_as_escape(c.drop_last()).push(c.last())
    }
}

/// Relies on `url::form_urlencoded::byte_serialize`: it writes each byte of
/// the UTF-8 text as itself when it is an ASCII letter, digit or one of
/// `*-._`, as `+` when it is a space, and as `%` and two upper-case hex
/// digits otherwise.
#[verifier::external_body]
pub(crate) fn form_encode(s: &str) -> (r: String)
    ensures
        r@ == form_encoded(s@),
{
    url::form_urlencoded::byte_serialize(s.as_bytes()).collect()
}

/// Relies on `String::push`: it appends one character.
#[verifier::external_body]
pub(crate) fn push_char(s: &mut String, c: char)
    ensures
        final(s)@ == old(s)@.push(c),
{
    s.push(c)
}

/// The decimal digit of `n < 10`.
pub open spec fn digit_char(n: int) -> char {
    (n + 48) as char
}

/// The decimal text of a natural number, without leading zeros.
pub open spec fn natural_text(n: nat) -> Seq<char>
    decreases n,
{
    if n < 10 {
        seq![digit_char(n as int)]
    } else {
        natural_text(n / 10).push(digit_char((n % 10) as int))
    }
}

/// The decimal text of an integer, with `-` before a negative one.
pub open spec fn integer_text(n: int) -> Seq<char> {
    if n < 0 {
        seq!['-'] + natural_text((-n) as nat)
    } else {
        natural_text(n as nat)
    }
}

fn push_natural(s: &mut String, n: u64)
    ensures
        final(s)@ == old(s)@ + natural_text(n as nat),
    decreases n,
{
    if n >= 10 {
        push_natural(s, n / 10);
    }
    let d: u8 = (n % 10) as u8;
    push_char(s, (d + 48) as char);
    assert(final(s)@ =~= old(s)@ + natural_text(n as nat));
}

/// Appends the decimal text of `n`.
pub fn push_integer(s: &mut String, n: i64)
    ensures
        final(s)@ == old(s)@ + integer_text(n as int),
{
    if n < 0 {
        push_char(s, '-');
        let m: u64 = (-(n as i128)) as u64;
        push_natural(s, m);
        assert(final(s)@ =~= old(s)@ + integer_text(n as int));
    } else {
        push_natural(s, n as u64);
    }
}


proof fn lemma_plus_as_escape_concat(a: Seq<char>, b: Seq<char>)
    ensures
        plus_as_escape(a + b) == plus_as_escape(a) + plus_as_escape(b),
    decreases b.len(),
{
    if b.len() == 0 {
        assert(a + b =~= a);
        assert(plus_as_escape(a) + plus_as_escape(b) =~= plus_as_escape(a));
    } else {
        lemma_plus_as_escape_concat(a, b.drop_last());
        assert((a + b).drop_last() =~= a + b.drop_last());
        assert((a + b).last() == b.last());
        if b.last() == '+' {
            assert(plus_as_escape(a + b) =~= plus_as_escape(a) + plus_as_escape(b));
        } else {
            assert(plus_as_escape(a + b) =~= plus_as_escape(a) + plus_as_escape(b));
        }
    }
}

/// Form encoding writes `+` only for a space, so rewriting each `+` as
/// `%20` turns the form encoding of a byte into its percent-encoding.
proof fn lemma_plus_as_escape_byte(b: u8)
    ensures
        plus_as_escape(encode_byte(b)) == percent_byte(b),
{
    let e = encode_byte(b);
    let none = Seq::<char>::empty();
    assert(plus_as_escape(none) == none);
    if is_unreserved(b) {
        let c = b as char;
        assert(c != '+');
        assert(e.drop_last() =~= none);
        assert(plus_as_escape(e) == none.push(c));
        assert(plus_as_escape(e) =~= percent_byte(b));
    } else if b == 32 {
        assert(e.drop_last() =~= none);
        assert(plus_as_escape(e) == none + seq!['%', '2', '0']);
        assert(hex_char(2) == '2' && hex_char(0) == '0');
        assert(plus_as_escape(e) =~= percent_byte(b));
    } else {
        let hi = b as int / 16;
        let lo = b as int % 16;
        assert(0 <= hi < 16 && 0 <= lo < 16);
        let h1 = hex_char(hi);
        let h2 = hex_char(lo);
        assert(h1 != '+' && h2 != '+');
        let one = seq!['%'];
        let two = seq!['%', h1];
        assert(one.drop_last() =~= none);
        assert(plus_as_escape(one) == none.push('%'));
        assert(two.drop_last() =~= one);
        assert(plus_as_escape(two) == plus_as_escape(one).push(h1));
        assert(e.drop_last() =~= two);
        assert(plus_as_escape(e) == plus_as_escape(two).push(h2));
        assert(plus_as_escape(e) =~= percent_byte(b));
    }
}

proof fn lemma_plus_as_escape_bytes(s: Seq<u8>)
    ensures
        plus_as_escape(encode_bytes(s)) == percent_bytes(s),
    decreases s.len(),
{
    if s.len() > 0 {
        lemma_plus_as_escape_bytes(s.drop_last());
        lemma_plus_as_escape_concat(encode_bytes(s.drop_last()), encode_byte(s.last()));
        lemma_plus_as_escape_byte(s.last());
    }
}

/// Form encoding writes only ASCII characters.
proof fn lemma_encode_bytes_ascii(s: Seq<u8>)
    ensures
        vstd::utf8::is_ascii_chars(encode_bytes(s)),
    decreases s.len(),
{
    if s.len() > 0 {
        let init = s.drop_last();
        lemma_encode_bytes_ascii(init);
        let b = s.last();
        let e = encode_byte(b);
        assert(0 <= b as int / 16 < 16 && 0 <= b as int % 16 < 16);
        assert forall|i: int| 0 <= i < encode_bytes(s).len() implies '\0' <= #[trigger] encode_bytes(
            s,
        )[i] <= '\u{7f}' by {
            if i < encode_bytes(init).len() {
                assert(encode_bytes(s)[i] == encode_bytes(init)[i]);
            } else {
                assert(encode_bytes(s)[i] == e[i - encode_bytes(init).len()]);
            }
        }
    }
}

/// Rewrites each `+` of an ASCII text as `%20`.
fn escape_plus(s: &str) -> (r: String)
    requires
        vstd::utf8::is_ascii_chars(s@),
    ensures
        r@ == plus_as_escape(s@),
{
    let n = s.unicode_len();
    let mut r = String::new();
    let mut i: usize = 0;
    assert(s@.take(0) =~= Seq::<char>::empty());
    while i < n
        invariant
            i <= n == s@.len(),
            vstd::utf8::is_ascii_chars(s@),
            r@ == plus_as_escape(s@.take(i as int)),
        decreases n - i,
    {
        let b = s.get_ascii(i);
        let ghost c = s@[i as int];
        assert(s@.take(i + 1).drop_last() =~= s@.take(i as int));
        assert(s@.take(i + 1).last() == c);
        assert('\0' <= c <= '\u{7f}');
        if b == 43 {
            assert(c == '+');
            push_char(&mut r, '%');
            push_char(&mut r, '2');
            push_char(&mut r, '0');
            assert(r@ =~= plus_as_escape(s@.take(i + 1)));
        } else {
            assert(c != '+');
            assert(b as char == c);
            push_char(&mut r, b as char);
        }
        i += 1;
    }
    assert(s@.take(n as int) =~= s@);
    r
}

/// Percent-encodes a query value: every byte of its UTF-8 text but ASCII
/// letters, digits and `*-._` becomes `%XY`, the space `%20`.
pub fn query_encode(s: &str) -> (r: String)
    ensures
        r@ == query_encoded(s@),
{
    let f = form_encode(s);
    proof {
        lemma_encode_bytes_ascii(encode_utf8(s@));
        lemma_plus_as_escape_bytes(encode_utf8(s@));
    }
    escape_plus(f.as_str())
}

proof fn lemma_percent_bytes_escapes(s: Seq<u8>)
    ensures
        forall|i: int|
            0 <= i < percent_bytes(s).len() ==> !is_query_reserved(#[trigger] percent_bytes(s)[i]),
    decreases s.len(),
{
    if s.len() > 0 {
        let init = s.drop_last();
        lemma_percent_bytes_escapes(init);
        let b = s.last();
        let e = percent_byte(b);
        assert forall|i: int| 0 <= i < e.len() implies !is_query_reserved(#[trigger] e[i]) by {
            if is_unreserved(b) {
                assert(e[i] == b as char);
            } else {
                assert(0 <= b as int / 16 < 16 && 0 <= b as int % 16 < 16);
            }
        }
        assert forall|i: int| 0 <= i < percent_bytes(s).len() implies !is_query_reserved(
            #[trigger] percent_bytes(s)[i],
        ) by {
            if i < percent_bytes(init).len() {
                assert(percent_bytes(s)[i] == percent_bytes(init)[i]);
            } else {
                assert(percent_bytes(s)[i] == e[i - percent_bytes(init).len()]);
            }
        }
    }
}

/// No character that a query reserves (`&`, `=`, `?`, `#`, `+`, `/`, space)
/// appears in the percent-encoding of any text: each of them comes out
/// escaped.
pub proof fn lemma_query_encoded_escapes_reserved(t: Seq<char>)
    ensures
        forall|i: int|
            0 <= i < query_encoded(t).len() ==> !is_query_reserved(#[trigger] query_encoded(t)[i]),
{
    lemma_percent_bytes_escapes(encode_utf8(t));
}

proof fn lemma_percent_bytes_front(s: Seq<u8>)
    requires
        s.len() > 0,
    ensures
        percent_bytes(s) == percent_byte(s[0]) + percent_bytes(s.drop_first()),
    decreases s.len(),
{
    if s.len() == 1 {
        assert(s.drop_last() =~= Seq::<u8>::empty());
        assert(s.drop_first() =~= Seq::<u8>::empty());
        assert(percent_bytes(s) =~= percent_byte(s[0]) + percent_bytes(s.drop_first()));
    } else {
        lemma_percent_bytes_front(s.drop_last());
        assert(s.drop_first().drop_last() =~= s.drop_last().drop_first());
        assert(s.drop_first().last() == s.last());
        assert(percent_bytes(s) =~= percent_byte(s[0]) + percent_bytes(s.drop_first()));
    }
}

proof fn lemma_hex_value(n: int)
    requires
        0 <= n < 16,
    ensures
        hex_value(hex_char(n)) == n,
{
}

proof fn lemma_percent_bytes_decode(s: Seq<u8>)
    ensures
        percent_decoded(percent_bytes(s)) == s,
    decreases s.len(),
{
    if s.len() == 0 {
        assert(percent_bytes(s) =~= Seq::<char>::empty());
    } else {
        let b = s[0];
        let rest = percent_bytes(s.drop_first());
        lemma_percent_bytes_front(s);
        lemma_percent_bytes_decode(s.drop_first());
        let c = percent_byte(b) + rest;
        if is_unreserved(b) {
            assert(c[0] == b as char);
            assert(c.drop_first() =~= rest);
            assert((b as char) as u8 == b);
        } else {
            let hi = b as int / 16;
            let lo = b as int % 16;
            assert(0 <= hi < 16 && 0 <= lo < 16);
            lemma_hex_value(hi);
            lemma_hex_value(lo);
            assert(c[1] == hex_char(hi) && c[2] == hex_char(lo));
            assert(c.skip(3) =~= rest);
            assert((16 * hi + lo) as u8 == b);
        }
        assert(percent_decoded(c) =~= s);
    }
}

/// Percent-decoding the encoding of a text gives back its UTF-8 bytes.
pub proof fn lemma_query_encoded_decodes_back(t: Seq<char>)
    ensures
        percent_decoded(query_encoded(t)) == encode_utf8(t),
{
    lemma_percent_bytes_decode(encode_utf8(t));
}

} // verus!
