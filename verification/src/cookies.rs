//! The session's cookies: what a reply's `Set-Cookie` headers do to the jar,
//! and the `Cookie` header that the jar gives to the next request.
//!
//! The jar itself and the reading of one header are the `cookie` crate's; the
//! merging of a reply's headers and the building of the outgoing header are
//! proved here.

use crate::request::{distinct_keys, pair_views, pairs_map};
use crate::text::lines;
use cookie::ParseError as CookieError;
use cookie::{Cookie, CookieJar};
use vstd::prelude::*;
use vstd::string::StringExecFns;

verus! {

/// The `cookie` crate's jar.
#[verifier::external_type_specification]
#[verifier::external_body]
pub struct ExCookieJar(CookieJar);

/// What a jar holds: the value of each cookie that its iterator yields, by
/// the cookie's name.
pub uninterp spec fn jar_contents(jar: CookieJar) -> Map<Seq<char>, Seq<char>>;

/// The name and value that `Cookie::parse` reads from the text of a
/// `Set-Cookie` header, or `None` where it refuses the text.
pub uninterp spec fn header_pair(text: Seq<char>) -> Option<(Seq<char>, Seq<char>)>;

/// Calls `CookieJar::new`, which makes a jar that holds nothing.
#[verifier::external_body]
pub(crate) fn jar_new() -> (jar: CookieJar)
    ensures
        jar_contents(jar) =~= Map::empty(),
{
    CookieJar::new()
}

/// Calls `CookieJar::add` with a cookie made by `Cookie::new`. The jar keeps
/// one cookie per name, so the new cookie takes the place of one of the same
/// name and the others stay.
#[verifier::external_body]
pub(crate) fn jar_add(jar: &mut CookieJar, name: String, value: String)
    ensures
        jar_contents(*final(jar)) == jar_contents(*old(jar)).insert(name@, value@),
{
    jar.add(Cookie::new(name, value))
}

/// Walks `CookieJar::iter` and hands out each cookie's name and value. The
/// jar is a hash set, so the order is left open: the list holds each cookie
/// of the jar once.
#[verifier::external_body]
pub(crate) fn jar_pairs(jar: &CookieJar) -> (list: Vec<(String, String)>)
    ensures
        distinct_keys(pair_views(list@)),
        pairs_map(pair_views(list@)) == jar_contents(*jar),
{
    jar.iter().map(|c| (c.name().to_owned(), c.value().to_owned())).collect()
}

/// Calls `Cookie::parse` on the text of a `Set-Cookie` header and hands out
/// the cookie's name and value. The contract only names the outcome.
#[verifier::external_body]
pub(crate) fn parse_pair(text: &str) -> (outcome: Result<(String, String), CookieError>)
    ensures
        match outcome {
            Ok(pair) => header_pair(text@) == Some((pair.0@, pair.1@)),
            Err(_) => header_pair(text@) is None,
        },
{
    Cookie::parse(text).map(|c| (c.name().to_owned(), c.value().to_owned()))
}

/// Every header of the list can be read.
pub open spec fn well_formed(headers: Seq<Seq<char>>) -> bool {
    forall|i: int| 0 <= i < headers.len() ==> (#[trigger] header_pair(headers[i])) is Some
}

/// The jar after a reply's `Set-Cookie` headers were merged into it, one
/// after the other: a cookie replaces an earlier one of its name. Merging
/// stops at the first header that cannot be read.
pub open spec fn merged(jar: Map<Seq<char>, Seq<char>>, headers: Seq<Seq<char>>) -> Map<
    Seq<char>,
    Seq<char>,
>
    decreases headers.len(),
{
    if headers.len() == 0 {
        jar
    } else {
        match header_pair(headers[0]) {
            Some(pair) => merged(jar.insert(pair.0, pair.1), headers.drop_first()),
            None => jar,
        }
    }
}

/// The name of the cookie that a header sets; empty for a header that
/// cannot be read.
pub open spec fn header_name(text: Seq<char>) -> Seq<char> {
    match header_pair(text) {
        Some(pair) => pair.0,
        None => Seq::empty(),
    }
}

/// The value of the cookie that a header sets; empty for a header that
/// cannot be read.
pub open spec fn header_value(text: Seq<char>) -> Seq<char> {
    match header_pair(text) {
        Some(pair) => pair.1,
        None => Seq::empty(),
    }
}

/// Merging never drops a cookie: every name of the jar is still in it
/// afterwards.
pub proof fn lemma_merged_never_prunes(
    jar: Map<Seq<char>, Seq<char>>,
    headers: Seq<Seq<char>>,
    name: Seq<char>,
)
    requires
        jar.contains_key(name),
    ensures
        merged(jar, headers).contains_key(name),
    decreases headers.len(),
{
    if headers.len() > 0 {
        match header_pair(headers[0]) {
            Some(pair) => {
                lemma_merged_never_prunes(jar.insert(pair.0, pair.1), headers.drop_first(), name);
            },
            None => {},
        }
    }
}

/// Merging leaves alone every cookie that none of the headers names.
pub proof fn lemma_merged_keeps_others(
    jar: Map<Seq<char>, Seq<char>>,
    headers: Seq<Seq<char>>,
    name: Seq<char>,
)
    requires
        forall|j: int|
            0 <= j < headers.len() ==> (#[trigger] header_pair(headers[j]) matches Some(pair)
                ==> pair.0 != name),
    ensures
        merged(jar, headers).contains_key(name) == jar.contains_key(name),
        jar.contains_key(name) ==> merged(jar, headers)[name] == jar[name],
    decreases headers.len(),
{
    if headers.len() > 0 {
        let rest = headers.drop_first();
        assert forall|j: int| 0 <= j < rest.len() implies (#[trigger] header_pair(
            rest[j],
        ) matches Some(pair) ==> pair.0 != name) by {
            assert(rest[j] == headers[j + 1]);
        }
        match header_pair(headers[0]) {
            Some(pair) => {
                lemma_merged_keeps_others(jar.insert(pair.0, pair.1), rest, name);
            },
            None => {},
        }
    }
}

/// Cookies are merged by name, and the later one wins: after a reply whose
/// headers can all be read, the jar holds the value of each header's
/// cookie, unless a later header of the reply set that cookie again.
pub proof fn lemma_merged_later_wins(
    jar: Map<Seq<char>, Seq<char>>,
    headers: Seq<Seq<char>>,
    i: int,
)
    requires
        well_formed(headers),
        0 <= i < headers.len(),
        forall|j: int|
            i < j < headers.len() ==> (#[trigger] header_name(headers[j])) != header_name(
                headers[i],
            ),
    ensures
        merged(jar, headers).contains_key(header_name(headers[i])),
        merged(jar, headers)[header_name(headers[i])] == header_value(headers[i]),
    decreases headers.len(),
{
    let rest = headers.drop_first();
    assert(header_pair(headers[0]) is Some);
    let first = (header_name(headers[0]), header_value(headers[0]));
    let after = jar.insert(first.0, first.1);
    assert forall|j: int| 0 <= j < rest.len() implies (#[trigger] header_pair(rest[j])) is Some by {
        assert(rest[j] == headers[j + 1]);
    }
    if i == 0 {
        assert forall|j: int| 0 <= j < rest.len() implies (#[trigger] header_pair(
            rest[j],
        ) matches Some(pair) ==> pair.0 != first.0) by {
            assert(rest[j] == headers[j + 1]);
            assert(header_name(headers[j + 1]) != header_name(headers[0]));
        }
        lemma_merged_keeps_others(after, rest, first.0);
    } else {
        assert(rest[i - 1] == headers[i]);
        assert forall|j: int| i - 1 < j < rest.len() implies (#[trigger] header_name(rest[j]))
            != header_name(rest[i - 1]) by {
            assert(rest[j] == headers[j + 1]);
        }
        lemma_merged_later_wins(after, rest, i - 1);
    }
}

/// The text of a `Cookie` header for the given cookies: `name=value` for
/// each, with `; ` between them.
pub open spec fn header_text(pairs: Seq<(Seq<char>, Seq<char>)>) -> Seq<char>
    decreases pairs.len(),
{
    if pairs.len() == 0 {
        Seq::empty()
    } else if pairs.len() == 1 {
        pairs[0].0 + seq!['='] + pairs[0].1
    } else {
        header_text(pairs.drop_last()) + seq![';', ' '] + pairs.last().0 + seq!['=']
            + pairs.last().1
    }
}

/// Merges the `Set-Cookie` headers of one reply into the jar, in their
/// order. Fails on the first header that cannot be read, with the headers
/// before it merged.
pub fn absorb(jar: &mut CookieJar, headers: &Vec<String>) -> (outcome: Result<(), CookieError>)
    ensures
        jar_contents(*final(jar)) == merged(jar_contents(*old(jar)), lines(headers@)),
        outcome is Ok <==> well_formed(lines(headers@)),
{
    let ghost all = lines(headers@);
    let ghost start = jar_contents(*jar);
    assert(all.skip(0) =~= all);
    let mut i: usize = 0;
    while i < headers.len()
        invariant
            i <= headers.len(),
            all == lines(headers@),
            start == jar_contents(*old(jar)),
            merged(start, all) == merged(jar_contents(*jar), all.skip(i as int)),
            forall|k: int| 0 <= k < i ==> (#[trigger] header_pair(all[k])) is Some,
        decreases headers.len() - i,
    {
        assert(all.skip(i as int).drop_first() =~= all.skip(i as int + 1));
        assert(all.skip(i as int)[0] == all[i as int]);
        match parse_pair(headers[i].as_str()) {
            Ok(pair) => {
                jar_add(jar, pair.0, pair.1);
            },
            Err(e) => {
                return Err(e);
            },
        }
        i += 1;
    }
    assert(all.skip(i as int) =~= Seq::empty());
    Ok(())
}

/// The text of the `Cookie` header for the given cookies.
pub fn cookie_header(pairs: &Vec<(String, String)>) -> (header: String)
    ensures
        header@ == header_text(pair_views(pairs@)),
{
    let ghost all = pair_views(pairs@);
    let mut header = String::new();
    let mut i: usize = 0;
    proof {
        reveal_strlit("=");
        reveal_strlit("; ");
        assert(all.take(0) =~= Seq::empty());
    }
    while i < pairs.len()
        invariant
            i <= pairs.len(),
            all == pair_views(pairs@),
            header@ == header_text(all.take(i as int)),
            "="@ == seq!['='],
            "; "@ == seq![';', ' '],
        decreases pairs.len() - i,
    {
        let ghost so_far = header@;
        if i > 0 {
            header.append("; ");
        }
        header.append(pairs[i].0.as_str());
        header.append("=");
        header.append(pairs[i].1.as_str());
        proof {
            let next = all.take(i as int + 1);
            assert(next.drop_last() =~= all.take(i as int));
            assert(next.last() == all[i as int]);
            if i == 0 {
                assert(so_far =~= Seq::empty());
                assert(header@ =~= all[0].0 + seq!['='] + all[0].1);
            } else {
                assert(header@ =~= so_far + seq![';', ' '] + all[i as int].0 + seq!['=']
                    + all[i as int].1);
            }
        }
        i += 1;
    }
    assert(all.take(i as int) =~= all);
    header
}

} // verus!
