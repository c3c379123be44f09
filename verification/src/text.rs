//! Text building blocks: decimal numbers, percent-encoding, query strings.

use vstd::prelude::*;
use vstd::string::*;
use vstd::utf8::{encode_utf8, is_ascii_chars, is_ascii_chars_encode_utf8};

verus! {

/// The ASCII digit for `d` (`0 <= d < 10`).
pub open spec fn digit_char(d: nat) -> char {
    (48 + d) as char
}

/// Decimal rendering of a natural number, most significant digit first, no leading zeros.
pub open spec fn decimal(n: nat) -> Seq<char>
    decreases n,
{
    if n < 10 {
        seq![digit_char(n)]
    } else {
        decimal(n / 10).push(digit_char(n % 10))
    }
}

/// Bytes left as they are by percent-encoding: ASCII alphanumerics and `-`, `.`, `_`, `~`.
pub open spec fn is_unreserved_byte(b: u8) -> bool {
    ||| 48 <= b <= 57
    ||| 65 <= b <= 90
    ||| 97 <= b <= 122
    ||| b == 45
    ||| b == 46
    ||| b == 95
    ||| b == 126
}

/// Upper-case hexadecimal digit for `d` (`0 <= d < 16`).
pub open spec fn hex_upper(d: nat) -> char {
    if d < 10 {
        (48 + d) as char
    } else {
        (55 + d) as char
    }
}

/// Percent-encoding of one byte.
pub open spec fn encode_byte(b: u8) -> Seq<char> {
    if is_unreserved_byte(b) {
        seq![b as char]
    } else {
        seq!['%', hex_upper(b as nat / 16), hex_upper(b as nat % 16)]
    }
}

/// Percent-encoding of a byte sequence, byte by byte.
pub open spec fn percent_encode_bytes(bs: Seq<u8>) -> Seq<char>
    decreases bs.len(),
{
    if bs.len() == 0 {
        seq![]
    } else {
        encode_byte(bs[0]) + percent_encode_bytes(bs.drop_first())
    }
}

/// Percent-encoding of a text: its UTF-8 bytes, each encoded by `encode_byte`.
pub open spec fn percent_encode(s: Seq<char>) -> Seq<char> {
    percent_encode_bytes(encode_utf8(s))
}

/// A decimal rendering is made of ASCII digits only.
pub proof fn decimal_is_digits(n: nat)
    ensures
        forall|i: int| 0 <= i < decimal(n).len() ==> '0' <= #[trigger] decimal(n)[i] <= '9',
    decreases n,
{
    if n >= 10 {
        decimal_is_digits(n / 10);
        assert(decimal(n) == decimal(n / 10).push(digit_char(n % 10)));
    }
}

proof fn unreserved_bytes_encode_as_themselves(bs: Seq<u8>)
    requires
        forall|i: int| 0 <= i < bs.len() ==> is_unreserved_byte(#[trigger] bs[i]),
    ensures
        percent_encode_bytes(bs) =~= Seq::new(bs.len(), |i: int| bs[i] as char),
    decreases bs.len(),
{
    if bs.len() > 0 {
        let t = bs.drop_first();
        assert forall|i: int| 0 <= i < t.len() implies is_unreserved_byte(#[trigger] t[i]) by {
            assert(t[i] == bs[i + 1]);
        }
        unreserved_bytes_encode_as_themselves(t);
        assert(is_unreserved_byte(bs[0]));
    }
}

/// Percent-encoding leaves a text of ASCII digits as it is: a number needs no escaping.
pub proof fn digits_encode_as_themselves(s: Seq<char>)
    requires
        forall|i: int| 0 <= i < s.len() ==> '0' <= #[trigger] s[i] <= '9',
    ensures
        percent_encode(s) == s,
{
    assert(is_ascii_chars(s));
    is_ascii_chars_encode_utf8(s);
    let bs = encode_utf8(s);
    assert forall|i: int| 0 <= i < bs.len() implies is_unreserved_byte(#[trigger] bs[i]) by {
        assert(s[i] as u8 == bs[i]);
    }
    unreserved_bytes_encode_as_themselves(bs);
    assert forall|i: int| 0 <= i < s.len() implies #[trigger] s[i] == (bs[i] as char) by {
        assert(s[i] as u8 == bs[i]);
    }
    assert(percent_encode(s) =~= s);
}

/// `urlencoding::encode`: percent-encodes every UTF-8 byte of `s` except ASCII
/// alphanumerics and `-`, `_`, `.`, `~`; an encoded byte becomes `%` followed by
/// two upper-case hexadecimal digits. The contract claims exactly that.
#[verifier::external_body]
pub fn url_encode(s: &str) -> (r: String)
    ensures
        r@ == percent_encode(s@),
{
    urlencoding::encode(s).into_owned()
}

/// `u32::to_string`: the decimal rendering of `n` (std's `Display` for integers).
#[verifier::external_body]
pub fn u32_to_string(n: u32) -> (r: String)
    ensures
        r@ == decimal(n as nat),
{
    n.to_string()
}

/// `String::push`: appends one character.
#[verifier::external_body]
pub fn push_char(s: &mut String, c: char)
    ensures
        final(s)@ == old(s)@.push(c),
{
    s.push(c)
}

/// The characters that percent-encoding can produce: the unreserved ones and `%`.
pub open spec fn is_url_safe_char(c: char) -> bool {
    ||| ('0' <= c && c <= '9')
    ||| ('A' <= c && c <= 'Z')
    ||| ('a' <= c && c <= 'z')
    ||| c == '-'
    ||| c == '.'
    ||| c == '_'
    ||| c == '~'
    ||| c == '%'
}

proof fn encode_byte_is_url_safe(b: u8)
    ensures
        forall|i: int| 0 <= i < encode_byte(b).len() ==> is_url_safe_char(#[trigger] encode_byte(b)[i]),
{
    if is_unreserved_byte(b) {
        assert(encode_byte(b)[0] == b as char);
        assert((b as char) as u32 == b as u32);
    } else {
        let hi = b as nat / 16;
        let lo = b as nat % 16;
        assert(hi < 16 && lo < 16);
        assert(hex_upper(hi) as u32 == if hi < 10 { 48 + hi } else { 55 + hi });
        assert(hex_upper(lo) as u32 == if lo < 10 { 48 + lo } else { 55 + lo });
    }
}

/// Percent-encoded text holds only unreserved characters and `%`: never a delimiter of
/// a query (`&`, `=`, `?`, `#`, `/`, `+`) nor a space, so an encoded value cannot break
/// a query string apart.
pub proof fn percent_encoding_is_url_safe(s: Seq<char>)
    ensures
        forall|i: int| 0 <= i < percent_encode(s).len() ==> is_url_safe_char(#[trigger] percent_encode(s)[i]),
        !percent_encode(s).contains('&'),
        !percent_encode(s).contains('='),
        !percent_encode(s).contains('?'),
        !percent_encode(s).contains('#'),
        !percent_encode(s).contains('/'),
        !percent_encode(s).contains('+'),
        !percent_encode(s).contains(' '),
{
    percent_encode_bytes_is_url_safe(encode_utf8(s));
}

proof fn percent_encode_bytes_is_url_safe(bs: Seq<u8>)
    ensures
        forall|i: int| 0 <= i < percent_encode_bytes(bs).len() ==> is_url_safe_char(#[trigger] percent_encode_bytes(bs)[i]),
    decreases bs.len(),
{
    if bs.len() > 0 {
        encode_byte_is_url_safe(bs[0]);
        percent_encode_bytes_is_url_safe(bs.drop_first());
        let h = encode_byte(bs[0]);
        let t = percent_encode_bytes(bs.drop_first());
        assert(percent_encode_bytes(bs) == h + t);
        assert forall|i: int| 0 <= i < (h + t).len() implies is_url_safe_char(#[trigger] (h + t)[i]) by {
            if i < h.len() {
                assert((h + t)[i] == h[i]);
            } else {
                assert((h + t)[i] == t[i - h.len()]);
            }
        }
    }
}

/// A list of query parameters viewed as pairs of texts.
pub open spec fn pairs_view(ps: Seq<(String, String)>) -> Seq<(Seq<char>, Seq<char>)> {
    ps.map_values(|p: (String, String)| (p.0@, p.1@))
}

/// One `key=value` query component: the key as it is, the value percent-encoded.
pub open spec fn param_text(p: (Seq<char>, Seq<char>)) -> Seq<char> {
    p.0 + seq!['='] + percent_encode(p.1)
}

/// The components of a query string joined by `&`, in order.
pub open spec fn query_text(ps: Seq<(Seq<char>, Seq<char>)>) -> Seq<char>
    decreases ps.len(),
{
    if ps.len() == 0 {
        seq![]
    } else if ps.len() == 1 {
        param_text(ps[0])
    } else {
        query_text(ps.drop_last()) + seq!['&'] + param_text(ps.last())
    }
}

/// A query string is its parameters' `key=value` components, each value percent-encoded,
/// joined by `&` in order: the string of one parameter is its component, and the string
/// of two non-empty runs of parameters is the first's string, `&`, then the second's.
pub proof fn query_text_joins_parameters(
    a: Seq<(Seq<char>, Seq<char>)>,
    b: Seq<(Seq<char>, Seq<char>)>,
    x: (Seq<char>, Seq<char>),
)
    ensures
        query_text(seq![]) == Seq::<char>::empty(),
        query_text(seq![x]) == x.0 + seq!['='] + percent_encode(x.1),
        a.len() > 0 && b.len() > 0 ==> query_text(a + b) == query_text(a) + seq!['&'] + query_text(
            b,
        ),
    decreases b.len(),
{
    if a.len() > 0 && b.len() > 0 {
        let ab = a + b;
        if b.len() == 1 {
            assert(ab.drop_last() =~= a);
            assert(ab.last() == b[0]);
        } else {
            let b1 = b.drop_last();
            query_text_joins_parameters(a, b1, x);
            assert(ab.drop_last() =~= a + b1);
            assert(ab.last() == b.last());
            assert(query_text(ab) =~= query_text(a) + seq!['&'] + query_text(b));
        }
    }
}

/// `path`, followed by `?` and the query string when there is at least one parameter.
pub open spec fn with_query(path: Seq<char>, ps: Seq<(Seq<char>, Seq<char>)>) -> Seq<char> {
    if ps.len() == 0 {
        path
    } else {
        path + seq!['?'] + query_text(ps)
    }
}

/// Appends the query string built from `params` to `path`: nothing when there is no
/// parameter, else `?` and the `key=value` components joined by `&`, each value
/// percent-encoded and each key left as it is.
pub fn append_query(path: &mut String, params: &Vec<(String, String)>)
    ensures
        final(path)@ == with_query(old(path)@, pairs_view(params@)),
{
    let n = params.len();
    if n == 0 {
        return;
    }
    let ghost start = path@;
    let ghost ps = pairs_view(params@);
    push_char(path, '?');
    let mut i: usize = 0;
    while i < n
        invariant
            n == params@.len(),
            ps == pairs_view(params@),
            0 <= i <= n,
            path@ == start + seq!['?'] + query_text(ps.take(i as int)),
        decreases n - i,
    {
        let ghost before = path@;
        if i > 0 {
            push_char(path, '&');
        }
        let (k, v) = &params[i];
        path.append(k.as_str());
        push_char(path, '=');
        let e = url_encode(v.as_str());
        path.append(e.as_str());
        proof {
            let t = ps.take(i + 1);
            assert(t.drop_last() =~= ps.take(i as int));
            assert(t.last() == (k@, v@));
            if i == 0 {
                assert(ps.take(0) =~= Seq::<(Seq<char>, Seq<char>)>::empty());
                assert(path@ =~= start + seq!['?'] + param_text(t[0]));
            } else {
                assert(path@ =~= before + seq!['&'] + param_text(t.last()));
            }
        }
        i = i + 1;
    }
    assert(ps.take(n as int) =~= ps);
}

/// The pair list with `(key, value)` when `value` is present, else empty.
pub open spec fn opt_pair(key: Seq<char>, value: Option<String>) -> Seq<(Seq<char>, Seq<char>)> {
    match value {
        Some(v) => seq![(key, v@)],
        None => seq![],
    }
}

/// One when an optional value is present, zero when it is absent.
pub open spec fn present<T>(o: Option<T>) -> int {
    if o is Some {
        1
    } else {
        0
    }
}

/// A present value gives exactly its own pair under `key`; an absent one gives none.
pub proof fn opt_pair_holds_its_value(key: Seq<char>, value: Option<String>)
    ensures
        opt_pair(key, value).len() == present(value),
        value matches Some(v) ==> opt_pair(key, value).contains((key, v@)),
{
    if let Some(v) = value {
        assert(opt_pair(key, value)[0] == (key, v@));
    }
}

/// Appends the pair `(key, value)`.
pub fn push_pair(params: &mut Vec<(String, String)>, key: &str, value: String)
    ensures
        pairs_view(final(params)@) == pairs_view(old(params)@).push((key@, value@)),
{
    let k = String::from_str(key);
    let ghost kv = (k, value);
    params.push((k, value));
    assert(pairs_view(params@) =~= pairs_view(old(params)@).push((key@, value@)));
}

/// Appends the pair `(key, value)` when `value` is present.
pub fn push_opt(params: &mut Vec<(String, String)>, key: &str, value: &Option<String>)
    ensures
        pairs_view(final(params)@) == pairs_view(old(params)@) + opt_pair(key@, *value),
{
    match value {
        Some(v) => {
            push_pair(params, key, v.clone());
        },
        None => {
            assert(pairs_view(params@) =~= pairs_view(params@) + opt_pair(key@, *value));
        },
    }
}

/// The pair list with `(key, decimal(value))` when `value` is present, else empty.
pub open spec fn opt_num_pair(key: Seq<char>, value: Option<u32>) -> Seq<(Seq<char>, Seq<char>)> {
    match value {
        Some(v) => seq![(key, decimal(v as nat))],
        None => seq![],
    }
}

/// A present number gives exactly its own pair under `key`, in decimal; an absent one
/// gives none.
pub proof fn opt_num_pair_holds_its_value(key: Seq<char>, value: Option<u32>)
    ensures
        opt_num_pair(key, value).len() == present(value),
        value matches Some(n) ==> opt_num_pair(key, value).contains((key, decimal(n as nat))),
{
    if let Some(n) = value {
        assert(opt_num_pair(key, value)[0] == (key, decimal(n as nat)));
    }
}

/// Appends the pair `(key, value in decimal)` when `value` is present.
pub fn push_opt_num(params: &mut Vec<(String, String)>, key: &str, value: Option<u32>)
    ensures
        pairs_view(final(params)@) == pairs_view(old(params)@) + opt_num_pair(key@, value),
{
    match value {
        Some(v) => {
            push_pair(params, key, u32_to_string(v));
        },
        None => {
            assert(pairs_view(params@) =~= pairs_view(params@) + opt_num_pair(key@, value));
        },
    }
}

/// The pair list with `(key, value)` when the borrowed `value` is present, else empty.
pub open spec fn opt_str_pair(key: Seq<char>, value: Option<&str>) -> Seq<(Seq<char>, Seq<char>)> {
    match value {
        Some(v) => seq![(key, v@)],
        None => seq![],
    }
}

/// A present borrowed value gives exactly its own pair under `key`; an absent one gives
/// none.
pub proof fn opt_str_pair_holds_its_value(key: Seq<char>, value: Option<&str>)
    ensures
        opt_str_pair(key, value).len() == present(value),
        value matches Some(v) ==> opt_str_pair(key, value).contains((key, v@)),
{
    if let Some(v) = value {
        assert(opt_str_pair(key, value)[0] == (key, v@));
    }
}

/// Appends the pair `(key, value)` when the borrowed `value` is present.
pub fn push_opt_str(params: &mut Vec<(String, String)>, key: &str, value: Option<&str>)
    ensures
        pairs_view(final(params)@) == pairs_view(old(params)@) + opt_str_pair(key@, value),
{
    match value {
        Some(v) => {
            push_pair(params, key, String::from_str(v));
        },
        None => {
            assert(pairs_view(params@) =~= pairs_view(params@) + opt_str_pair(key@, value));
        },
    }
}

/// `path` with the query `?userId=<encoded id>` when a user id is given.
pub open spec fn with_user_id(path: Seq<char>, user_id: Option<&str>) -> Seq<char> {
    with_query(path, opt_str_pair("userId"@, user_id))
}

/// Appends `?userId=<encoded id>` when a user id is given.
pub fn append_user_id(path: &mut String, user_id: Option<&str>)
    ensures
        final(path)@ == with_user_id(old(path)@, user_id),
{
    let mut params: Vec<(String, String)> = Vec::new();
    push_opt_str(&mut params, "userId", user_id);
    assert(pairs_view(params@) =~= opt_str_pair("userId"@, user_id));
    append_query(path, &params);
}

/// The concatenation of two texts.
pub fn concat2(a: &str, b: &str) -> (r: String)
    ensures
        r@ == a@ + b@,
{
    let mut r = String::from_str(a);
    r.append(b);
    r
}

/// The concatenation of three texts.
pub fn concat3(a: &str, b: &str, c: &str) -> (r: String)
    ensures
        r@ == a@ + b@ + c@,
{
    let mut r = String::from_str(a);
    r.append(b);
    r.append(c);
    r
}

/// `s` without the copies of `c` at its end.
pub open spec fn trim_end_char(s: Seq<char>, c: char) -> Seq<char>
    decreases s.len(),
{
    if s.len() > 0 && s.last() == c {
        trim_end_char(s.drop_last(), c)
    } else {
        s
    }
}

/// `str::trim_end_matches` with a `char` pattern: `s` with every trailing `c` removed.
#[verifier::external_body]
pub fn trim_end_char_str(s: &str, c: char) -> (r: &str)
    ensures
        r@ == trim_end_char(s@, c),
{
    s.trim_end_matches(c)
}

/// Trimming leaves no `c` at the end, keeps a prefix of the text that only `c`s follow,
/// and trimming again changes nothing.
pub proof fn trim_end_char_laws(s: Seq<char>, c: char)
    ensures
        trim_end_char(s, c).len() > 0 ==> trim_end_char(s, c).last() != c,
        trim_end_char(s, c).len() <= s.len(),
        s.take(trim_end_char(s, c).len() as int) == trim_end_char(s, c),
        forall|i: int| trim_end_char(s, c).len() <= i < s.len() ==> s[i] == c,
        trim_end_char(trim_end_char(s, c), c) == trim_end_char(s, c),
    decreases s.len(),
{
    if s.len() > 0 && s.last() == c {
        trim_end_char_laws(s.drop_last(), c);
        let t = trim_end_char(s, c);
        assert(s.take(t.len() as int) =~= s.drop_last().take(t.len() as int));
        assert forall|i: int| t.len() <= i < s.len() implies s[i] == c by {
            if i < s.len() - 1 {
                assert(s.drop_last()[i] == s[i]);
            }
        }
    } else {
        assert(s.take(s.len() as int) =~= s);
    }
}

} // verus!
