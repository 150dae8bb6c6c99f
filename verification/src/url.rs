//! URLs of the server's API: percent-encoded query strings.
use crate::text;
use vstd::prelude::*;
use vstd::utf8::encode_utf8;

verus! {

/// The bytes that stand for themselves in a query value: letters, digits, and
/// `-`, `_`, `.`, `~`.
pub open spec fn unreserved(b: u8) -> bool {
    ||| 0x30 <= b <= 0x39
    ||| 0x41 <= b <= 0x5a
    ||| 0x61 <= b <= 0x7a
    ||| b == 0x2d
    ||| b == 0x2e
    ||| b == 0x5f
    ||| b == 0x7e
}

/// The upper-case hexadecimal digit for `n`, which is below sixteen.
pub open spec fn hex_digit(n: u8) -> char {
    if n < 10 {
        (0x30 + n) as char
    } else {
        (0x37 + n) as char
    }
}

/// How one byte is written in a query value.
pub open spec fn percent_byte(b: u8) -> Seq<char> {
    if unreserved(b) {
        seq![b as char]
    } else {
        seq!['%', hex_digit(b / 16), hex_digit(b % 16)]
    }
}

/// How bytes are written in a query value.
pub open spec fn percent_bytes(bytes: Seq<u8>) -> Seq<char>
    decreases bytes.len(),
{
    if bytes.len() == 0 {
        Seq::empty()
    } else {
        percent_byte(bytes[0]) + percent_bytes(bytes.skip(1))
    }
}

/// How a text is written in a query value: its UTF-8 bytes, each standing for
/// itself or as a percent sign and two upper-case hexadecimal digits.
pub open spec fn percent_encoded(s: Seq<char>) -> Seq<char> {
    percent_bytes(encode_utf8(s))
}

/// Calls `urlencoding::encode`, which percent-encodes every byte of a text but
/// letters, digits and `-`, `_`, `.`, `~`.
#[verifier::external_body]
pub(crate) fn encode(s: &str) -> (r: String)
    ensures
        r@ == percent_encoded(s@),
{
    urlencoding::encode(s).into_owned()
}

/// Whether `c` can stand in an encoded query value.
pub open spec fn in_query_value(c: char) -> bool {
    c == '%' || exists|b: u8| unreserved(b) && c == #[trigger] (b as char)
}

proof fn hex_digit_is_safe(n: u8)
    requires
        n < 16,
    ensures
        in_query_value(hex_digit(n)),
{
    if n < 10 {
        let b = (0x30 + n) as u8;
        assert(unreserved(b) && hex_digit(n) == b as char);
    } else {
        let b = (0x37 + n) as u8;
        assert(unreserved(b) && hex_digit(n) == b as char);
    }
}

proof fn bytes_are_safe(bytes: Seq<u8>)
    ensures
        forall|i: int|
            0 <= i < percent_bytes(bytes).len() ==> in_query_value(
                #[trigger] percent_bytes(bytes)[i],
            ),
    decreases bytes.len(),
{
    if bytes.len() > 0 {
        let b = bytes[0];
        bytes_are_safe(bytes.skip(1));
        if unreserved(b) {
            assert(in_query_value(b as char));
        } else {
            hex_digit_is_safe(b / 16);
            hex_digit_is_safe(b % 16);
        }
        let first = percent_byte(b);
        let rest = percent_bytes(bytes.skip(1));
        assert forall|i: int| 0 <= i < percent_bytes(bytes).len() implies in_query_value(
            #[trigger] percent_bytes(bytes)[i],
        ) by {
            if i < first.len() {
                assert(percent_bytes(bytes)[i] == first[i]);
            } else {
                assert(percent_bytes(bytes)[i] == rest[i - first.len()]);
            }
        }
    }
}

/// An encoded value cannot end its pair, its query or its URL: it holds nothing
/// but unreserved characters and percent signs.
pub proof fn encoded_value_is_safe(s: Seq<char>)
    ensures
        forall|i: int|
            0 <= i < percent_encoded(s).len() ==> in_query_value(
                #[trigger] percent_encoded(s)[i],
            ),
        !percent_encoded(s).contains('&'),
        !percent_encoded(s).contains('='),
        !percent_encoded(s).contains('#'),
        !percent_encoded(s).contains(' '),
{
    bytes_are_safe(encode_utf8(s));
    assert forall|i: int| 0 <= i < percent_encoded(s).len() implies percent_encoded(s)[i] != '&'
        && percent_encoded(s)[i] != '=' && percent_encoded(s)[i] != '#' && percent_encoded(s)[i]
        != ' ' by {
        let c = percent_encoded(s)[i];
        assert(in_query_value(c));
        if c != '%' {
            let b = choose|b: u8| unreserved(b) && c == #[trigger] (b as char);
            assert(c as u32 == b as u32);
        }
    }
}

/// What the pairs say, in order.
pub open spec fn pair_views(pairs: Seq<(String, String)>) -> Seq<(Seq<char>, Seq<char>)> {
    pairs.map_values(|p: (String, String)| (p.0@, p.1@))
}

/// One pair of a query: its name as it is, its value encoded.
pub open spec fn query_pair(pair: (Seq<char>, Seq<char>)) -> Seq<char> {
    pair.0 + "="@ + percent_encoded(pair.1)
}

/// A query string: the pairs with `&` between them.
pub open spec fn query(pairs: Seq<(Seq<char>, Seq<char>)>) -> Seq<char>
    decreases pairs.len(),
{
    if pairs.len() == 0 {
        Seq::empty()
    } else if pairs.len() == 1 {
        query_pair(pairs[0])
    } else {
        query(pairs.drop_last()) + "&"@ + query_pair(pairs.last())
    }
}

fn push_pair(line: &mut String, pair: &(String, String))
    ensures
        final(line)@ == old(line)@ + query_pair((pair.0@, pair.1@)),
{
    let value: String = encode(pair.1.as_str());
    line.append(pair.0.as_str());
    line.append("=");
    line.append(value.as_str());
    assert(line@ =~= old(line)@ + query_pair((pair.0@, pair.1@)));
}

/// The query string for `pairs`.
pub fn query_string(pairs: &Vec<(String, String)>) -> (line: String)
    ensures
        line@ == query(pair_views(pairs@)),
{
    let mut line = String::new();
    let ghost all = pair_views(pairs@);
    let mut i: usize = 0;
    assert(query(all.take(0)) =~= Seq::<char>::empty());
    while i < pairs.len()
        invariant
            i <= pairs.len(),
            all == pair_views(pairs@),
            line@ == query(all.take(i as int)),
        decreases pairs.len() - i,
    {
        if i > 0 {
            line.append("&");
        }
        push_pair(&mut line, &pairs[i]);
        proof {
            let now = all.take(i + 1);
            assert(now.drop_last() =~= all.take(i as int));
            assert(now.last() == (pairs@[i as int].0@, pairs@[i as int].1@));
            if i == 0 {
                assert(line@ =~= query_pair(now[0]));
            }
        }
        i = i + 1;
    }
    assert(all.take(i as int) =~= all);
    line
}

/// The URL of `path` on a server, asked with a query. Slashes at the end of the
/// server's own URL do not count.
pub open spec fn url_of(
    server: Seq<char>,
    path: Seq<char>,
    pairs: Seq<(Seq<char>, Seq<char>)>,
) -> Seq<char> {
    text::without_end_slashes(server) + "/"@ + path + "?"@ + query(pairs)
}

/// The URL of `path` on a server, asked with `pairs`.
pub fn url_for(server: &str, path: &str, pairs: &Vec<(String, String)>) -> (url: String)
    ensures
        url@ == url_of(server@, path@, pair_views(pairs@)),
{
    let line: String = query_string(pairs);
    let mut url: String = text::trim_end_slashes(server);
    url.append("/");
    url.append(path);
    url.append("?");
    url.append(line.as_str());
    url
}

/// Values are encoded byte by byte.
pub proof fn bytes_are_encoded_in_turn(a: Seq<u8>, b: Seq<u8>)
    ensures
        percent_bytes(a + b) == percent_bytes(a) + percent_bytes(b),
    decreases a.len(),
{
    if a.len() == 0 {
        assert(a + b =~= b);
        assert(percent_bytes(a) + percent_bytes(b) =~= percent_bytes(b));
    } else {
        bytes_are_encoded_in_turn(a.skip(1), b);
        assert((a + b).skip(1) =~= a.skip(1) + b);
        assert(percent_byte(a[0]) + (percent_bytes(a.skip(1)) + percent_bytes(b))
            =~= percent_byte(a[0]) + percent_bytes(a.skip(1)) + percent_bytes(b));
    }
}

proof fn byte_reads_back(a: u8, b: u8)
    requires
        percent_byte(a)[0] == percent_byte(b)[0],
        !unreserved(a) && !unreserved(b) ==> percent_byte(a)[1] == percent_byte(b)[1]
            && percent_byte(a)[2] == percent_byte(b)[2],
    ensures
        a == b,
{
    if unreserved(a) {
        assert(percent_byte(a)[0] == a as char);
    }
    if unreserved(b) {
        assert(percent_byte(b)[0] == b as char);
    }
    if !unreserved(a) && !unreserved(b) {
        assert(hex_digit(a / 16) == hex_digit(b / 16));
        assert(hex_digit(a % 16) == hex_digit(b % 16));
    }
}

/// Different values are encoded differently: the server reads back what was asked for.
pub proof fn encoding_is_reversible(a: Seq<u8>, b: Seq<u8>)
    requires
        percent_bytes(a) == percent_bytes(b),
    ensures
        a == b,
    decreases a.len(),
{
    if a.len() == 0 {
        if b.len() > 0 {
            assert(percent_bytes(b).len() > 0);
        }
        assert(a =~= b);
    } else if b.len() == 0 {
        assert(percent_bytes(a).len() > 0);
    } else {
        let x = percent_bytes(a);
        let y = percent_bytes(b);
        let p = percent_byte(a[0]);
        let q = percent_byte(b[0]);
        assert(x[0] == p[0] && y[0] == q[0]);
        if !unreserved(a[0]) && !unreserved(b[0]) {
            assert(x[1] == p[1] && y[1] == q[1]);
            assert(x[2] == p[2] && y[2] == q[2]);
        }
        byte_reads_back(a[0], b[0]);
        assert(x.skip(p.len() as int) =~= percent_bytes(a.skip(1)));
        assert(y.skip(p.len() as int) =~= percent_bytes(b.skip(1)));
        encoding_is_reversible(a.skip(1), b.skip(1));
        assert(a =~= seq![a[0]] + a.skip(1));
        assert(b =~= seq![b[0]] + b.skip(1));
    }
}

/// A query lists every pair in order, as name and encoded value, with `&` between them.
pub proof fn query_lists_every_pair(
    pairs: Seq<(Seq<char>, Seq<char>)>,
    name: Seq<char>,
    value: Seq<char>,
)
    ensures
        pairs.len() > 0 ==> query(pairs.push((name, value))) == query(pairs) + "&"@ + name + "="@
            + percent_encoded(value),
        pairs.len() == 0 ==> query(pairs.push((name, value))) == name + "="@ + percent_encoded(
            value,
        ),
{
    let all = pairs.push((name, value));
    assert(all.drop_last() =~= pairs);
    if pairs.len() > 0 {
        assert(query(pairs) + "&"@ + (name + "="@ + percent_encoded(value)) =~= query(pairs) + "&"@
            + name + "="@ + percent_encoded(value));
    }
}

} // verus!
