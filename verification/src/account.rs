//! Account ids and the keys that name an NFT: its contract's account id and
//! its token id joined by the delimiter `||`.
use vstd::prelude::*;
use std::str::FromStr;

verus! {

/// The delimiter between a contract id and a token id in a key.
pub open spec fn delimiter() -> Seq<char> {
    seq!['|', '|']
}

/// The key of token `token_id` of contract `nft_contract`.
pub open spec fn join_key(nft_contract: Seq<char>, token_id: Seq<char>) -> Seq<char> {
    nft_contract + delimiter() + token_id
}

/// Whether the delimiter starts at position `p` of `s`.
pub open spec fn delim_at(s: Seq<char>, p: int) -> bool {
    0 <= p && p + 1 < s.len() && s[p] == '|' && s[p + 1] == '|'
}

/// The first position at or after `start` where the delimiter starts, or the
/// length of `s` if there is none.
pub open spec fn delim_from(s: Seq<char>, start: int) -> int
    decreases s.len() - start,
{
    if start < 0 || start + 1 >= s.len() {
        s.len() as int
    } else if delim_at(s, start) {
        start
    } else {
        delim_from(s, start + 1)
    }
}

/// The part of `s` before its first delimiter (all of `s` if it has none):
/// the first item that splitting `s` at the delimiter yields.
pub open spec fn first_segment(s: Seq<char>) -> Seq<char> {
    s.subrange(0, delim_from(s, 0))
}

/// Whether splitting `s` at the delimiter yields at least two items.
pub open spec fn has_two_segments(s: Seq<char>) -> bool {
    delim_from(s, 0) < s.len()
}

/// The second item that splitting `s` at the delimiter yields: what lies
/// between the first delimiter and the next one (or the end).
pub open spec fn second_segment(s: Seq<char>) -> Seq<char> {
    let d = delim_from(s, 0);
    s.subrange(d + 2, delim_from(s, d + 2))
}

/// `delim_from` lies between `start` and the length, and no delimiter starts
/// before it.
pub proof fn lemma_delim_from(s: Seq<char>, start: int)
    requires
        0 <= start,
    ensures
        start <= delim_from(s, start) <= s.len() || (start > s.len() && delim_from(s, start) == s.len()),
        delim_from(s, start) < s.len() ==> delim_at(s, delim_from(s, start)),
        forall|q: int| start <= q < delim_from(s, start) ==> !delim_at(s, q),
    decreases s.len() - start,
{
    if start + 1 >= s.len() {
        assert forall|q: int| start <= q < delim_from(s, start) implies !delim_at(s, q) by {}
    } else if delim_at(s, start) {
    } else {
        lemma_delim_from(s, start + 1);
    }
}

/// A key whose contract part holds no `|` splits back into its parts.
pub proof fn lemma_split_join(c: Seq<char>, t: Seq<char>)
    requires
        forall|i: int| 0 <= i < c.len() ==> c[i] != '|',
    ensures
        delim_from(join_key(c, t), 0) == c.len(),
        has_two_segments(join_key(c, t)),
        first_segment(join_key(c, t)) == c,
{
    let k = join_key(c, t);
    assert(k[c.len() as int] == '|' && k[c.len() + 1int] == '|');
    lemma_delim_from(k, 0);
    let d = delim_from(k, 0);
    if d < c.len() {
        assert(k[d] == c[d]);
    }
    if d > c.len() {
        assert(delim_at(k, c.len() as int));
    }
    assert(first_segment(k) =~= c);
}

/// A key with exactly one delimiter is its two parts joined again.
pub proof fn lemma_join_segments(k: Seq<char>)
    requires
        has_two_segments(k),
        delim_from(k, delim_from(k, 0) + 2) == k.len(),
    ensures
        join_key(first_segment(k), second_segment(k)) == k,
{
    let d = delim_from(k, 0);
    lemma_delim_from(k, 0);
    assert(delim_at(k, d));
    assert(join_key(first_segment(k), second_segment(k)) =~= k);
}

/// The position of the first delimiter at or after `start` in `s`.
fn find_delim(s: &str, start: usize) -> (r: usize)
    requires
        start <= s@.len(),
    ensures
        r == delim_from(s@, start as int),
{
    let n = s.unicode_len();
    let mut i = start;
    while i < n && n - i > 1
        invariant
            n == s@.len(),
            start <= i <= n,
            delim_from(s@, start as int) == delim_from(s@, i as int),
        decreases n - i,
    {
        if s.get_char(i) == '|' && s.get_char(i + 1) == '|' {
            return i;
        }
        i = i + 1;
    }
    i = n;
    i
}

/// The key `nft_contract||token_id`.
pub fn contract_and_token_id(nft_contract: &String, token_id: &String) -> (r: String)
    ensures
        r@ == join_key(nft_contract@, token_id@),
{
    let mut r = nft_contract.clone();
    proof {
        reveal_strlit("||");
    }
    r.append("||");
    r.append(token_id.as_str());
    r
}

/// The first item of splitting `s` at the delimiter.
pub fn split_first(s: &String) -> (r: String)
    ensures
        r@ == first_segment(s@),
{
    let d = find_delim(s.as_str(), 0);
    proof {
        lemma_delim_from(s@, 0);
    }
    s.as_str().substring_char(0, d).to_owned()
}

/// The second item of splitting `s` at the delimiter, if there is one.
pub fn split_second(s: &String) -> (r: Option<String>)
    ensures
        r is Some <==> has_two_segments(s@),
        r matches Some(t) ==> t@ == second_segment(s@),
{
    let n = s.as_str().unicode_len();
    let d = find_delim(s.as_str(), 0);
    proof {
        lemma_delim_from(s@, 0);
    }
    if d >= n {
        return None;
    }
    let e = find_delim(s.as_str(), d + 2);
    proof {
        lemma_delim_from(s@, d + 2);
    }
    Some(s.as_str().substring_char(d + 2, e).to_owned())
}

/// The separators allowed inside an account id.
pub open spec fn is_separator(c: char) -> bool {
    c == '-' || c == '_' || c == '.'
}

/// The letters and digits allowed in an account id.
pub open spec fn is_lower_alnum(c: char) -> bool {
    ('a' <= c && c <= 'z') || ('0' <= c && c <= '9')
}

/// A valid NEAR account id: 2 to 64 characters, each a lowercase letter, a
/// digit or one of `-_.`, where a separator neither starts nor ends the id nor
/// follows another separator.
pub open spec fn account_id_valid(s: Seq<char>) -> bool {
    &&& 2 <= s.len() <= 64
    &&& forall|i: int| 0 <= i < s.len() ==> is_lower_alnum(#[trigger] s[i]) || is_separator(s[i])
    &&& !is_separator(s[0])
    &&& !is_separator(s[s.len() - 1])
    &&& forall|i: int| 0 <= i < s.len() - 1 ==> !(is_separator(#[trigger] s[i]) && is_separator(s[i + 1]))
}

/// Parses an account id with `near_sdk::AccountId::from_str`, which accepts
/// exactly the strings that `account_id_valid` describes (its validation
/// checks the length in bytes, which equals the length in characters whenever
/// every character is one of the allowed ASCII ones). On success the id is
/// the string itself.
#[verifier::external_body]
pub(crate) fn parse_account_id(s: &str) -> (r: Option<String>)
    ensures
        r is Some <==> account_id_valid(s@),
        r matches Some(a) ==> a@ == s@,
{
    match near_sdk::AccountId::from_str(s) {
        Ok(a) => Some(String::from(a)),
        Err(_) => None,
    }
}

} // verus!
