//! Query construction for the lyric provider: every parameter list and
//! identifier string the requests carry, stated character for character. The
//! requests themselves are plain network calls made by the surrounding
//! program.

use vstd::prelude::*;

verus! {

/// The decimal digit for one value below ten.
pub open spec fn spec_digit_char(d: nat) -> char {
    if d == 0 {
        '0'
    } else if d == 1 {
        '1'
    } else if d == 2 {
        '2'
    } else if d == 3 {
        '3'
    } else if d == 4 {
        '4'
    } else if d == 5 {
        '5'
    } else if d == 6 {
        '6'
    } else if d == 7 {
        '7'
    } else if d == 8 {
        '8'
    } else {
        '9'
    }
}

/// The decimal digits of a number, most significant first, without sign or
/// leading zeros.
pub open spec fn spec_digits(n: nat) -> Seq<char>
    decreases n,
{
    if n < 10 {
        seq![spec_digit_char(n)]
    } else {
        spec_digits(n / 10) + seq![spec_digit_char(n % 10)]
    }
}

/// Relies on u64's Display implementation: the decimal digits of the
/// number, most significant first, no sign and no leading zeros.
#[verifier::external_body]
fn u64_to_string(n: u64) -> (s: String)
    ensures
        s@ == spec_digits(n as nat),
{
    n.to_string()
}

/// One `name=value` pair of a query string.
pub struct QueryPair {
    pub name: String,
    pub value: String,
}

fn pair(name: &str, value: String) -> (p: QueryPair)
    ensures
        p.name@ == name@,
        p.value == value,
{
    QueryPair { name: String::from_str(name), value }
}

/// The parameters of a song search: the keyword, the page and page size in
/// decimal, and the fixed display type.
pub fn search_query(keywords: &str, offset: u16, limit: u16) -> (q: Vec<QueryPair>)
    ensures
        q@.len() == 4,
        q@[0].name@ == "keyword"@ && q@[0].value@ == keywords@,
        q@[1].name@ == "page"@ && q@[1].value@ == spec_digits(offset as nat),
        q@[2].name@ == "pagesize"@ && q@[2].value@ == spec_digits(limit as nat),
        q@[3].name@ == "showtype"@ && q@[3].value@ == spec_digits(1),
{
    let mut q: Vec<QueryPair> = Vec::new();
    q.push(pair("keyword", String::from_str(keywords)));
    q.push(pair("page", u64_to_string(offset as u64)));
    q.push(pair("pagesize", u64_to_string(limit as u64)));
    q.push(pair("showtype", u64_to_string(1)));
    q
}

/// The parameters of a lyric search for one song hash.
pub fn lyric_search_query(music_id: &str) -> (q: Vec<QueryPair>)
    ensures
        q@.len() == 5,
        q@[0].name@ == "keyword"@ && q@[0].value@ == "%20-%20"@,
        q@[1].name@ == "ver"@ && q@[1].value@ == spec_digits(1),
        q@[2].name@ == "hash"@ && q@[2].value@ == music_id@,
        q@[3].name@ == "client"@ && q@[3].value@ == "mobi"@,
        q@[4].name@ == "man"@ && q@[4].value@ == "yes"@,
{
    let mut q: Vec<QueryPair> = Vec::new();
    q.push(pair("keyword", String::from_str("%20-%20")));
    q.push(pair("ver", u64_to_string(1)));
    q.push(pair("hash", String::from_str(music_id)));
    q.push(pair("client", String::from_str("mobi")));
    q.push(pair("man", String::from_str("yes")));
    q
}

/// The parameters of a lyric download, given the access key and identifier
/// the search answered with.
pub fn lyric_download_query(accesskey: &str, id: &str) -> (q: Vec<QueryPair>)
    ensures
        q@.len() == 6,
        q@[0].name@ == "charset"@ && q@[0].value@ == "utf8"@,
        q@[1].name@ == "accesskey"@ && q@[1].value@ == accesskey@,
        q@[2].name@ == "id"@ && q@[2].value@ == id@,
        q@[3].name@ == "client"@ && q@[3].value@ == "mobi"@,
        q@[4].name@ == "fmt"@ && q@[4].value@ == "lrc"@,
        q@[5].name@ == "ver"@ && q@[5].value@ == spec_digits(1),
{
    let mut q: Vec<QueryPair> = Vec::new();
    q.push(pair("charset", String::from_str("utf8")));
    q.push(pair("accesskey", String::from_str(accesskey)));
    q.push(pair("id", String::from_str(id)));
    q.push(pair("client", String::from_str("mobi")));
    q.push(pair("fmt", String::from_str("lrc")));
    q.push(pair("ver", u64_to_string(1)));
    q
}

/// The identifiers joined with commas, each in decimal.
pub open spec fn spec_ids_joined(ids: Seq<u64>) -> Seq<char>
    decreases ids.len(),
{
    if ids.len() == 0 {
        Seq::empty()
    } else if ids.len() == 1 {
        spec_digits(ids[0] as nat)
    } else {
        spec_ids_joined(ids.drop_last()) + seq![','] + spec_digits(ids.last() as nat)
    }
}

/// Join song identifiers with commas, in decimal.
pub fn join_ids(ids: &Vec<u64>) -> (s: String)
    ensures
        s@ == spec_ids_joined(ids@),
{
    proof {
        reveal_strlit(",");
    }
    let mut s = String::new();
    let mut i: usize = 0;
    while i < ids.len()
        invariant
            i <= ids@.len(),
            s@ =~= spec_ids_joined(ids@.take(i as int)),
            ","@ =~= seq![','],
        decreases ids@.len() - i,
    {
        if i > 0 {
            s.append(",");
        }
        let digits = u64_to_string(ids[i]);
        s.append(digits.as_str());
        proof {
            assert(ids@.take(i + 1).drop_last() =~= ids@.take(i as int));
            assert(ids@.take(i + 1).last() == ids@[i as int]);
            if i > 0 {
                assert(s@ =~= spec_ids_joined(ids@.take(i + 1)));
            } else {
                assert(ids@.take(1).len() == 1);
                assert(s@ =~= spec_ids_joined(ids@.take(1)));
            }
        }
        i += 1;
    }
    proof {
        assert(ids@.take(ids@.len() as int) =~= ids@);
    }
    s
}

/// The two request bodies of a song detail lookup: the identifiers wrapped
/// as the provider's endpoint spells them.
pub fn songs_detail_params(ids: &Vec<u64>) -> (r: (String, String))
    ensures
        r.0@ =~= "\"[{\"id\":"@ + spec_ids_joined(ids@) + "}]\""@,
        r.1@ =~= "\"["@ + spec_ids_joined(ids@) + "]\""@,
{
    let joined = join_ids(ids);
    let mut c = String::from_str("\"[{\"id\":");
    c.append(joined.as_str());
    c.append("}]\"");
    let mut plain = String::from_str("\"[");
    plain.append(joined.as_str());
    plain.append("]\"");
    (c, plain)
}

} // verus!
