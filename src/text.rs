//! Text rules: identifiers taken from resource links, quoted configuration
//! values, and the outside text functions that the rest relies on.

use vstd::prelude::*;
use vstd::utf8::encode_utf8;

verus! {

/// The length of `s` up to and including its last `/` among the first `n`
/// characters, or 0 where there is none.
pub open spec fn slash_end(s: Seq<char>, n: int) -> int
    decreases n,
{
    if n <= 0 {
        0
    } else if s[n - 1] == '/' {
        n
    } else {
        slash_end(s, n - 1)
    }
}

/// The final path segment of a resource link: what follows its last `/`, or
/// the whole link where it holds none.
pub open spec fn last_segment(s: Seq<char>) -> Seq<char> {
    s.subrange(slash_end(s, s.len() as int), s.len() as int)
}

proof fn lemma_slash_end_bounds(s: Seq<char>, n: int)
    requires
        0 <= n <= s.len(),
    ensures
        0 <= slash_end(s, n) <= n,
    decreases n,
{
    if n > 0 {
        lemma_slash_end_bounds(s, n - 1);
    }
}

/// The identifier of the entity that a resource link points at: its final
/// path segment.
pub fn id_from_href(href: &str) -> (r: String)
    ensures
        r@ == last_segment(href@),
{
    let n = href.unicode_len();
    let mut i: usize = n;
    while i > 0 && href.get_char(i - 1) != '/'
        invariant
            i <= n,
            n == href@.len(),
            slash_end(href@, n as int) == slash_end(href@, i as int),
        decreases i,
    {
        i = i - 1;
    }
    String::from_str(href.substring_char(i, n))
}

/// What `str::trim` leaves of a text.
pub uninterp spec fn trimmed(s: Seq<char>) -> Seq<char>;

/// Relies on `str::trim`: the text without its leading and trailing
/// whitespace, a function of the text alone.
#[verifier::external_body]
fn trim_str(s: &str) -> (r: &str)
    ensures
        r@ == trimmed(s@),
{
    s.trim()
}

/// Whether `t` is wrapped in a matching pair of double or single quotes.
pub open spec fn is_quoted(t: Seq<char>) -> bool {
    t.len() >= 2 && ((t[0] == '"' && t.last() == '"') || (t[0] == '\'' && t.last() == '\''))
}

/// `t` without one matching pair of surrounding quotes, if it has one.
pub open spec fn unquoted(t: Seq<char>) -> Seq<char> {
    if is_quoted(t) {
        t.subrange(1, t.len() - 1)
    } else {
        t
    }
}

/// Removes one matching pair of surrounding double or single quotes.
pub fn unquote(t: &str) -> (r: String)
    ensures
        r@ == unquoted(t@),
{
    let n = t.unicode_len();
    if n >= 2 {
        let first = t.get_char(0);
        let last = t.get_char(n - 1);
        if (first == '"' && last == '"') || (first == '\'' && last == '\'') {
            return String::from_str(t.substring_char(1, n - 1));
        }
    }
    String::from_str(t)
}

/// A configuration value without surrounding whitespace and then without
/// one matching pair of surrounding quotes.
pub fn strip_quotes(s: &str) -> (r: String)
    ensures
        r@ == unquoted(trimmed(s@)),
{
    unquote(trim_str(s))
}

/// What `str::to_lowercase` makes of a text.
pub uninterp spec fn lower_of(s: Seq<char>) -> Seq<char>;

/// Relies on `str::to_lowercase`: the lowercase form of a text, a function
/// of the text alone.
#[verifier::external_body]
pub(crate) fn lowercase(s: &str) -> (r: String)
    ensures
        r@ == lower_of(s@),
{
    s.to_lowercase()
}

/// Bytes that percent-encoding leaves as they are.
pub open spec fn is_unreserved(b: u8) -> bool {
    (48 <= b <= 57) || (65 <= b <= 90) || (97 <= b <= 122) || b == 45 || b == 46 || b == 95
        || b == 126
}

pub open spec fn hex_digit(d: u8) -> char {
    seq!['0', '1', '2', '3', '4', '5', '6', '7', '8', '9', 'A', 'B', 'C', 'D', 'E', 'F'][d as int]
}

/// Percent-encoding of bytes: alphanumerics and `-`, `.`, `_`, `~` stay, every
/// other byte becomes `%` and two uppercase hex digits.
pub open spec fn percent_encoded(bytes: Seq<u8>) -> Seq<char>
    decreases bytes.len(),
{
    if bytes.len() == 0 {
        seq![]
    } else {
        let b = bytes[0];
        let head = if is_unreserved(b) {
            seq![b as char]
        } else {
            seq!['%', hex_digit(b / 16), hex_digit(b % 16)]
        };
        head + percent_encoded(bytes.drop_first())
    }
}

/// Relies on `urlencoding::encode`: percent-encodes the UTF-8 bytes of the
/// text, keeping alphanumerics and `-`, `.`, `_`, `~`.
#[verifier::external_body]
pub(crate) fn url_encode(s: &str) -> (r: String)
    ensures
        r@ == percent_encoded(encode_utf8(s@)),
{
    urlencoding::encode(s).into_owned()
}

} // verus!
