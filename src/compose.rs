use vstd::prelude::*;
use crate::error::Error;
use vstd::string::*;

verus! {

/// The character of a decimal digit `d < 10`.
pub open spec fn digit_char(d: nat) -> char {
    if d == 0 { '0' } else if d == 1 { '1' } else if d == 2 { '2' } else if d == 3 { '3' }
    else if d == 4 { '4' } else if d == 5 { '5' } else if d == 6 { '6' } else if d == 7 { '7' }
    else if d == 8 { '8' } else { '9' }
}

/// The decimal form of `n`, most significant digit first, without leading zeros.
pub open spec fn decimal_spec(n: nat) -> Seq<char>
    decreases n,
{
    if n < 10 {
        seq![digit_char(n)]
    } else {
        decimal_spec(n / 10) + seq![digit_char(n % 10)]
    }
}

/// Writes `n` in decimal.
pub fn decimal(n: u64) -> (r: String)
    ensures
        r@ == decimal_spec(n as nat),
    decreases n,
{
    let digits: &str = "0123456789";
    proof {
        reveal_strlit("0123456789");
    }
    let d: usize = (n % 10) as usize;
    let last = digits.substring_char(d, d + 1);
    assert(last@ =~= seq![digit_char(d as nat)]);
    if n < 10 {
        String::from_str(last)
    } else {
        let mut s = decimal(n / 10);
        s.append(last);
        s
    }
}


/// The upper-case hexadecimal digit of `d < 16`.
pub open spec fn hex_char(d: nat) -> char {
    if d < 10 { digit_char(d) } else if d == 10 { 'A' } else if d == 11 { 'B' } else if d == 12 { 'C' }
    else if d == 13 { 'D' } else if d == 14 { 'E' } else { 'F' }
}

/// The value of a hexadecimal digit, upper or lower case; `None` for any other character.
pub open spec fn hex_value(c: char) -> Option<nat> {
    if '0' <= c && c <= '9' {
        Some((c as u32 - '0' as u32) as nat)
    } else if 'A' <= c && c <= 'F' {
        Some((c as u32 - 'A' as u32 + 10) as nat)
    } else if 'a' <= c && c <= 'f' {
        Some((c as u32 - 'a' as u32 + 10) as nat)
    } else {
        None
    }
}

/// Characters that stand for themselves in a path segment: the unreserved ASCII
/// characters of URI syntax, and every non-ASCII character (a URL parser encodes
/// those as UTF-8 itself).
pub open spec fn kept_in_segment(c: char) -> bool {
    ||| 'a' <= c && c <= 'z'
    ||| 'A' <= c && c <= 'Z'
    ||| '0' <= c && c <= '9'
    ||| c == '-' || c == '.' || c == '_' || c == '~'
    ||| c as u32 >= 128
}

/// One character of a path segment, escaped.
pub open spec fn escape_char(c: char) -> Seq<char> {
    if kept_in_segment(c) {
        seq![c]
    } else {
        seq!['%', hex_char((c as u32 / 16) as nat), hex_char((c as u32 % 16) as nat)]
    }
}

/// An identifier escaped as a single path segment.
pub open spec fn escape_spec(s: Seq<char>) -> Seq<char>
    decreases s.len(),
{
    if s.len() == 0 {
        seq![]
    } else {
        escape_char(s[0]) + escape_spec(s.skip(1))
    }
}

/// `e` percent-decodes to `id`: each `%` with two hex digits stands for the
/// ASCII character of that code, and every other character for itself.
pub open spec fn decodes_to(e: Seq<char>, id: Seq<char>) -> bool
    decreases e.len(),
{
    if e.len() == 0 {
        id.len() == 0
    } else if id.len() == 0 {
        false
    } else if e[0] == '%' {
        &&& e.len() >= 3
        &&& hex_value(e[1]) is Some
        &&& hex_value(e[2]) is Some
        &&& id[0] as u32 == 16 * hex_value(e[1])->0 + hex_value(e[2])->0
        &&& decodes_to(e.skip(3), id.skip(1))
    } else {
        e[0] == id[0] && decodes_to(e.skip(1), id.skip(1))
    }
}

/// Characters that end or split a path segment.
pub open spec fn segment_breaking(c: char) -> bool {
    c == '/' || c == '\\' || c == '?' || c == '#'
}

proof fn lemma_escape_append(a: Seq<char>, b: Seq<char>)
    ensures
        escape_spec(a + b) == escape_spec(a) + escape_spec(b),
    decreases a.len(),
{
    if a.len() == 0 {
        assert(a + b =~= b);
    } else {
        lemma_escape_append(a.skip(1), b);
        assert((a + b).skip(1) =~= a.skip(1) + b);
    }
}

proof fn lemma_hex_char(d: nat)
    requires
        d < 16,
    ensures
        hex_value(hex_char(d)) == Some(d),
        hex_char(d) != '%',
{
}

/// An escaped identifier holds no character that would end or split its path
/// segment, and percent-decoding it gives the identifier back.
pub proof fn lemma_escape_single_segment(id: Seq<char>)
    ensures
        forall|i: int| 0 <= i < escape_spec(id).len() ==> !segment_breaking(#[trigger] escape_spec(id)[i]),
        decodes_to(escape_spec(id), id),
    decreases id.len(),
{
    if id.len() > 0 {
        lemma_escape_single_segment(id.skip(1));
        let c = id[0];
        let e = escape_spec(id);
        let head = escape_char(c);
        assert(e == head + escape_spec(id.skip(1)));
        if kept_in_segment(c) {
            assert(e.skip(1) =~= escape_spec(id.skip(1)));
        } else {
            let v = c as u32;
            lemma_hex_char((v / 16) as nat);
            lemma_hex_char((v % 16) as nat);
            assert(e.skip(3) =~= escape_spec(id.skip(1)));
        }
        assert forall|i: int| 0 <= i < e.len() implies !segment_breaking(#[trigger] e[i]) by {
            if i >= head.len() {
                assert(e[i] == escape_spec(id.skip(1))[i - head.len()]);
            }
        }
    }
}

/// Escapes `id` so that it stands as one path segment: every ASCII character
/// other than letters, digits and `-._~` becomes `%` and two upper-case hex digits.
pub fn escape_segment(id: &str) -> (r: String)
    ensures
        r@ == escape_spec(id@),
{
    let hex: &str = "0123456789ABCDEF";
    proof {
        reveal_strlit("0123456789ABCDEF");
    }
    let n = id.unicode_len();
    let mut out = String::new();
    let mut i: usize = 0;
    while i < n
        invariant
            n == id@.len(),
            i <= n,
            hex@ == seq!['0', '1', '2', '3', '4', '5', '6', '7', '8', '9', 'A', 'B', 'C', 'D', 'E', 'F'],
            out@ == escape_spec(id@.take(i as int)),
        decreases n - i,
    {
        let c = id.get_char(i);
        let kept = ('a' <= c && c <= 'z') || ('A' <= c && c <= 'Z') || ('0' <= c && c <= '9')
            || c == '-' || c == '.' || c == '_' || c == '~' || c as u32 >= 128;
        if kept {
            out.append(id.substring_char(i, i + 1));
        } else {
            let v: u32 = c as u32;
            let hi: usize = (v / 16) as usize;
            let lo: usize = (v % 16) as usize;
            out.append("%");
            out.append(hex.substring_char(hi, hi + 1));
            out.append(hex.substring_char(lo, lo + 1));
            proof {
                reveal_strlit("%");
            }
        }
        proof {
            lemma_escape_append(id@.take(i as int), seq![c]);
            assert(id@.take(i + 1) =~= id@.take(i as int) + seq![c]);
            assert(escape_spec(seq![c]) =~= escape_char(c)) by {
                assert(seq![c].skip(1) =~= Seq::<char>::empty());
                assert(escape_spec(seq![c].skip(1)) == Seq::<char>::empty());
                assert(escape_char(c) + Seq::<char>::empty() =~= escape_char(c));
            }
        }
        i = i + 1;
    }
    assert(id@.take(n as int) =~= id@);
    out
}


/// The query string of a request: empty where neither value is set, else `?`
/// followed by `page=<page>` and `size=<size>` for those that are set, in that
/// order, joined by `&`.
pub open spec fn query_spec(page: Option<u64>, size: Option<u64>) -> Seq<char> {
    let page_pair = seq!['p', 'a', 'g', 'e', '='];
    let size_pair = seq!['s', 'i', 'z', 'e', '='];
    match (page, size) {
        (None, None) => seq![],
        (Some(p), None) => seq!['?'] + page_pair + decimal_spec(p as nat),
        (None, Some(z)) => seq!['?'] + size_pair + decimal_spec(z as nat),
        (Some(p), Some(z)) => seq!['?'] + page_pair + decimal_spec(p as nat) + seq!['&'] + size_pair
            + decimal_spec(z as nat),
    }
}

/// `s` with one trailing `/` removed, if it has one.
pub open spec fn trim_trailing_slash(s: Seq<char>) -> Seq<char> {
    if s.len() > 0 && s.last() == '/' { s.drop_last() } else { s }
}

/// `s` with one leading `/` removed, if it has one.
pub open spec fn trim_leading_slash(s: Seq<char>) -> Seq<char> {
    if s.len() > 0 && s[0] == '/' { s.skip(1) } else { s }
}

/// A resource path appended to an endpoint, with exactly one `/` between them.
pub open spec fn join_spec(base: Seq<char>, path: Seq<char>) -> Seq<char> {
    trim_trailing_slash(base) + seq!['/'] + trim_leading_slash(path)
}

/// The request URL for a resource path under an endpoint, with its query.
pub open spec fn compose_spec(base: Seq<char>, path: Seq<char>, page: Option<u64>, size: Option<u64>) -> Seq<char> {
    join_spec(base, path) + query_spec(page, size)
}

/// An endpoint text that a path can be appended to: it has no query and no fragment.
pub open spec fn is_endpoint(s: Seq<char>) -> bool {
    forall|i: int| 0 <= i < s.len() ==> s[i] != '?' && s[i] != '#'
}

/// Builds the query string for the optional `page` and `size`.
pub fn query_string(page: Option<u64>, size: Option<u64>) -> (r: String)
    ensures
        r@ == query_spec(page, size),
{
    proof {
        reveal_strlit("?");
        reveal_strlit("&");
        reveal_strlit("page=");
        reveal_strlit("size=");
    }
    let mut out = String::new();
    match page {
        Some(p) => {
            out.append("?");
            out.append("page=");
            out.append(&decimal(p));
        },
        None => {},
    }
    match size {
        Some(z) => {
            match page {
                Some(_) => out.append("&"),
                None => out.append("?"),
            }
            out.append("size=");
            out.append(&decimal(z));
        },
        None => {},
    }
    assert(out@ =~= query_spec(page, size));
    out
}

/// Appends `path` to the endpoint `base`, with exactly one `/` between them, and
/// then the query for `page` and `size`.
pub fn compose(base: &str, path: &str, page: Option<u64>, size: Option<u64>) -> (r: String)
    ensures
        r@ == compose_spec(base@, path@, page, size),
{
    proof {
        reveal_strlit("/");
    }
    let n = base.unicode_len();
    let mut out = if n > 0 && base.get_char(n - 1) == '/' {
        String::from_str(base.substring_char(0, n - 1))
    } else {
        String::from_str(base)
    };
    out.append("/");
    let m = path.unicode_len();
    if m > 0 && path.get_char(0) == '/' {
        out.append(path.substring_char(1, m));
    } else {
        out.append(path);
    }
    out.append(&query_string(page, size));
    assert(out@ =~= compose_spec(base@, path@, page, size));
    out
}

/// Every character of a decimal form is a digit.
pub proof fn lemma_decimal_digits(n: nat)
    ensures
        decimal_spec(n).len() > 0,
        forall|i: int| 0 <= i < decimal_spec(n).len() ==> '0' <= #[trigger] decimal_spec(n)[i] <= '9',
    decreases n,
{
    if n >= 10 {
        lemma_decimal_digits(n / 10);
        let d = decimal_spec(n);
        assert forall|i: int| 0 <= i < d.len() implies '0' <= #[trigger] d[i] <= '9' by {
            if i < decimal_spec(n / 10).len() {
                assert(d[i] == decimal_spec(n / 10)[i]);
            }
        }
    }
}

/// Without a query, the request URL is the endpoint, then one `/`, then the
/// resource path: nothing of either is dropped, no `//` is added at the join,
/// and where the path holds no `?` or `#` the whole of the URL after the
/// endpoint is path.
pub proof fn lemma_compose_without_query(base: Seq<char>, path: Seq<char>)
    requires
        is_endpoint(base),
    ensures
        compose_spec(base, path, None, None) == trim_trailing_slash(base) + seq!['/'] + trim_leading_slash(path),
        base == trim_trailing_slash(base) || base == trim_trailing_slash(base) + seq!['/'],
        path == trim_leading_slash(path) || path == seq!['/'] + trim_leading_slash(path),
        (forall|i: int| 0 <= i < path.len() ==> path[i] != '?' && path[i] != '#') ==> is_endpoint(
            compose_spec(base, path, None, None),
        ),
{
    let r = compose_spec(base, path, None, None);
    let b = trim_trailing_slash(base);
    let p = trim_leading_slash(path);
    assert(r =~= b + seq!['/'] + p);
    if base.len() > 0 && base.last() == '/' {
        assert(base =~= b + seq!['/']);
    }
    if path.len() > 0 && path[0] == '/' {
        assert(path =~= seq!['/'] + p);
    }
    if forall|i: int| 0 <= i < path.len() ==> path[i] != '?' && path[i] != '#' {
        assert forall|i: int| 0 <= i < r.len() implies r[i] != '?' && r[i] != '#' by {
            if i < b.len() {
                assert(r[i] == base[i]);
            } else if i > b.len() {
                if path.len() > 0 && path[0] == '/' {
                    assert(r[i] == path[i - b.len()]);
                } else {
                    assert(r[i] == path[i - b.len() - 1]);
                }
            }
        }
    }
}

/// With both values set, the query is `?page=<page>&size=<size>`: each key once,
/// `page` first, and each value a run of digits, so that neither holds `&` or `=`.
pub proof fn lemma_query_both(page: u64, size: u64)
    ensures
        query_spec(Some(page), Some(size)) == seq!['?', 'p', 'a', 'g', 'e', '='] + decimal_spec(page as nat)
            + seq!['&', 's', 'i', 'z', 'e', '='] + decimal_spec(size as nat),
        forall|i: int| 0 <= i < decimal_spec(page as nat).len() ==> '0' <= #[trigger] decimal_spec(page as nat)[i] <= '9',
        forall|i: int| 0 <= i < decimal_spec(size as nat).len() ==> '0' <= #[trigger] decimal_spec(size as nat)[i] <= '9',
{
    lemma_decimal_digits(page as nat);
    lemma_decimal_digits(size as nat);
    assert(query_spec(Some(page), Some(size)) =~= seq!['?', 'p', 'a', 'g', 'e', '='] + decimal_spec(page as nat)
            + seq!['&', 's', 'i', 'z', 'e', '='] + decimal_spec(size as nat));
}


/// A looked-up identifier, escaped and put after a path prefix that ends in `/`,
/// is the last segment of the request URL: the URL is the endpoint joined with
/// the prefix, then the escaped identifier, which holds no `/`, `\`, `?` or `#`
/// and percent-decodes to the identifier.
pub proof fn lemma_identifier_is_last_segment(base: Seq<char>, prefix: Seq<char>, id: Seq<char>)
    requires
        prefix.len() > 0,
        prefix.last() == '/',
    ensures
        compose_spec(base, prefix + escape_spec(id), None, None) == join_spec(base, prefix) + escape_spec(id),
        join_spec(base, prefix).last() == '/',
        forall|i: int| 0 <= i < escape_spec(id).len() ==> !segment_breaking(#[trigger] escape_spec(id)[i]),
        decodes_to(escape_spec(id), id),
{
    lemma_escape_single_segment(id);
    let e = escape_spec(id);
    assert(trim_leading_slash(prefix + e) =~= trim_leading_slash(prefix) + e);
    assert(compose_spec(base, prefix + e, None, None) =~= join_spec(base, prefix) + e);
    let j = join_spec(base, prefix);
    if prefix.len() > 1 || prefix[0] != '/' {
        assert(j.last() == prefix.last());
    }
}


/// An identifier that can stand as one path segment: not empty, and not `.` or
/// `..`, which a URL parser would take as a step within the path.
pub open spec fn is_identifier(id: Seq<char>) -> bool {
    id.len() > 0 && id != seq!['.'] && id != seq!['.', '.']
}

/// Tells whether `id` can stand as one path segment.
pub fn check_identifier(id: &str) -> (r: bool)
    ensures
        r == is_identifier(id@),
{
    let n = id.unicode_len();
    if n == 0 {
        false
    } else if n == 1 {
        let c = id.get_char(0);
        assert(c == '.' ==> id@ =~= seq!['.']);
        c != '.'
    } else if n == 2 {
        let c0 = id.get_char(0);
        let c1 = id.get_char(1);
        assert(c0 == '.' && c1 == '.' ==> id@ =~= seq!['.', '.']);
        !(c0 == '.' && c1 == '.')
    } else {
        true
    }
}

/// The request URL for one identified record: the endpoint, the path prefix,
/// the escaped identifier; `InvalidUrl` where the identifier cannot stand as a
/// path segment.
pub fn compose_lookup(base: &str, prefix: &str, id: &str, page: Option<u64>, size: Option<u64>) -> (r: Result<String, Error>)
    ensures
        r is Ok <==> is_identifier(id@),
        r is Ok ==> r->Ok_0@ == compose_spec(base@, prefix@ + escape_spec(id@), page, size),
        r is Err ==> r->Err_0 == Error::InvalidUrl,
{
    if !check_identifier(id) {
        return Err(Error::InvalidUrl);
    }
    let mut path = String::from_str(prefix);
    path.append(escape_segment(id).as_str());
    Ok(compose(base, path.as_str(), page, size))
}

} // verus!
