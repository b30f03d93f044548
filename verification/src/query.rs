//! List queries that span several pages.
//!
//! The server hands out a list page by page. With each page but the last
//! comes a `continue` object, whose fields, put among the arguments, ask for
//! the next page. A [`Query`] buffers one page, hands out its records in
//! the server's order, and says when the next page has to be fetched.

use crate::call::{advance, Call, Event, Phase, Progress, RetryPolicy};
use crate::error::{Error, ErrorKind};
use crate::exchange::{Encoding, Reply, Verdict};
use crate::json::{field_of, field_views, item_views, Json, JsonValue};
use crate::request::{opt_text, pair_views, with, RequestBuilder};
use crate::session::Mediawiki;
use crate::text::{decimal, u64_to_string};
use vstd::prelude::*;
use vstd::string::StringExecFns;

verus! {

/// The arguments that every list query starts from.
pub open spec fn list_seed() -> Map<Seq<char>, Seq<char>> {
    RequestBuilder::seed().insert("action"@, "query"@).insert("continue"@, ""@)
}

/// One page of a list, as an answer holds it.
pub struct Page {
    /// The records, in the server's order.
    pub records: Seq<JsonValue>,
    /// The fields of the `continue` object; `None` on the last page.
    pub next: Option<Seq<(Seq<char>, Seq<char>)>>,
}

/// Every field holds a string.
pub open spec fn all_text(fields: Seq<(Seq<char>, JsonValue)>) -> bool {
    forall|i: int| 0 <= i < fields.len() ==> (#[trigger] fields[i]).1 is String
}

/// The fields, each with the characters of its string.
pub open spec fn text_pairs(fields: Seq<(Seq<char>, JsonValue)>) -> Seq<(Seq<char>, Seq<char>)> {
    Seq::new(fields.len(), |i: int| (fields[i].0, fields[i].1->String_0))
}

/// The page of the list `list` that an answer holds: the array at
/// `query.<list>`, and the `continue` object where there is one. `None`
/// where that array is missing or the `continue` field is anything but an
/// object of strings.
pub open spec fn page_of(answer: JsonValue, list: Seq<char>) -> Option<Page> {
    match field_of(answer.field("query"@), list) {
        Some(JsonValue::Array(records)) => match answer.field("continue"@) {
            None => Some(Page { records, next: None }),
            Some(JsonValue::Object(fields)) => if all_text(fields) {
                Some(Page { records, next: Some(text_pairs(fields)) })
            } else {
                None
            },
            Some(_) => None,
        },
        _ => None,
    }
}

/// Where the shape of an answer is wrong: at the list, or else at the
/// `continue` object.
pub open spec fn fault_path(answer: JsonValue, list: Seq<char>) -> Seq<char> {
    if field_of(answer.field("query"@), list) is Some && field_of(
        answer.field("query"@),
        list,
    )->0 is Array {
        "continue"@
    } else {
        "query."@ + list
    }
}

/// The arguments after each of `pairs` was set among them, in order: a
/// pair overwrites an argument of its name.
pub open spec fn applied(
    args: Map<Seq<char>, Seq<char>>,
    pairs: Seq<(Seq<char>, Seq<char>)>,
) -> Map<Seq<char>, Seq<char>>
    decreases pairs.len(),
{
    if pairs.len() == 0 {
        args
    } else {
        applied(args, pairs.drop_last()).insert(pairs.last().0, pairs.last().1)
    }
}

/// The arguments for the page after `page`.
pub open spec fn next_args(args: Map<Seq<char>, Seq<char>>, page: Page) -> Map<
    Seq<char>,
    Seq<char>,
> {
    match page.next {
        Some(pairs) => applied(args, pairs),
        None => args,
    }
}

/// After the fields of a `continue` object were applied, the arguments hold
/// each of them: the value of a field is the value of the argument of its
/// name, unless a later field of the same name replaced it.
pub proof fn lemma_applied_holds_each(
    args: Map<Seq<char>, Seq<char>>,
    pairs: Seq<(Seq<char>, Seq<char>)>,
    i: int,
)
    requires
        0 <= i < pairs.len(),
        forall|j: int| i < j < pairs.len() ==> pairs[j].0 != pairs[i].0,
    ensures
        applied(args, pairs).contains_key(pairs[i].0),
        applied(args, pairs)[pairs[i].0] == pairs[i].1,
    decreases pairs.len(),
{
    if i < pairs.len() - 1 {
        let shorter = pairs.drop_last();
        assert(shorter[i] == pairs[i]);
        assert forall|j: int| i < j < shorter.len() implies shorter[j].0 != shorter[i].0 by {
            assert(shorter[j] == pairs[j]);
        }
        lemma_applied_holds_each(args, shorter, i);
        assert(pairs.last().0 != pairs[i].0);
    }
}

/// Applying the fields of a `continue` object keeps every argument that
/// none of them names.
pub proof fn lemma_applied_keeps_others(
    args: Map<Seq<char>, Seq<char>>,
    pairs: Seq<(Seq<char>, Seq<char>)>,
    key: Seq<char>,
)
    requires
        forall|j: int| 0 <= j < pairs.len() ==> pairs[j].0 != key,
    ensures
        applied(args, pairs).contains_key(key) == args.contains_key(key),
        args.contains_key(key) ==> applied(args, pairs)[key] == args[key],
    decreases pairs.len(),
{
    if pairs.len() > 0 {
        let shorter = pairs.drop_last();
        assert forall|j: int| 0 <= j < shorter.len() implies shorter[j].0 != key by {
            assert(shorter[j] == pairs[j]);
        }
        lemma_applied_keeps_others(args, shorter, key);
        assert(pairs.last() == pairs[pairs.len() - 1]);
    }
}

/// An answer of the wrong shape is no business of the retries: the call
/// that brought it has ended in success, and is not sent again. The fault
/// shows only when the page is taken out of the answer, as an error of the
/// parse class, which is not a transient one.
pub proof fn lemma_shape_failure_is_not_retried(
    policy: RetryPolicy,
    now: Progress,
    reply: Reply,
    list: Seq<char>,
    path: String,
    answer: Json,
)
    requires
        now.phase == Phase::Sending,
        reply.verdict() == Verdict::Success(answer@),
        page_of(answer@, list) is None,
    ensures
        advance(policy, now, Event::Replied(reply)).phase == Phase::Success,
        advance(policy, now, Event::Replied(reply)).attempts == now.attempts,
        Error::Shape(path, answer).spec_kind() == ErrorKind::Parse,
        !Error::Shape(path, answer).spec_is_transient(),
{
}

/// A list query that is still being put together.
#[derive(Debug)]
pub struct QueryBuilder {
    req: RequestBuilder,
    list: String,
}

impl Clone for QueryBuilder {
    fn clone(&self) -> (copy: QueryBuilder)
        ensures
            copy.args() == self.args(),
            copy.list() == self.list(),
    {
        QueryBuilder { req: self.req.clone(), list: self.list.clone() }
    }
}

impl QueryBuilder {
    /// The arguments of the query.
    pub closed spec fn args(&self) -> Map<Seq<char>, Seq<char>> {
        self.req@
    }

    /// The name of the field under `query` that holds the records.
    pub closed spec fn list(&self) -> Seq<char> {
        self.list@
    }

    /// A query for the records under `query.<list>`, with the given
    /// arguments.
    pub fn new(req: RequestBuilder, list: &str) -> (query: QueryBuilder)
        ensures
            query.args() == req@,
            query.list() == list@,
    {
        QueryBuilder { req, list: list.to_owned() }
    }

    /// Sets the argument `key` to `val`, replacing any value it had.
    pub fn arg(&mut self, key: &str, val: &str) -> (this: &mut Self)
        ensures
            this.args() == old(self).args().insert(key@, val@),
            this.list() == old(self).list(),
            *final(self) == *final(this),
    {
        self.req.arg(key, val);
        self
    }

    /// Sets the argument `key` to `val` where there is one; an absent value
    /// leaves the query as it is.
    pub fn argo(&mut self, key: &str, val: Option<&str>) -> (this: &mut Self)
        ensures
            this.args() == with(old(self).args(), key@, opt_text(val)),
            this.list() == old(self).list(),
            *final(self) == *final(this),
    {
        self.req.argo(key, val);
        self
    }

    /// Starts the query: nothing is buffered, and the first page is still
    /// to be fetched.
    pub fn into_iter(self) -> (query: Query)
        ensures
            query.args() == self.args(),
            query.list() == self.list(),
            query.pending() == Seq::<JsonValue>::empty(),
            !query.finished(),
    {
        let query = Query { req: self.req, list: self.list, buf: Vec::new(), done: false };
        assert(query.pending() =~= Seq::<JsonValue>::empty());
        query
    }
}

/// What a query hands out when asked for the next record.
#[derive(Debug)]
pub enum Pull {
    /// The next record.
    Record(Json),
    /// The buffer is empty and more pages exist: run this call and give
    /// its result to [`Query::fill`].
    Fetch(Call),
    /// The list has ended.
    End,
}

/// A running list query.
#[derive(Debug)]
pub struct Query {
    req: RequestBuilder,
    list: String,
    /// The records of the current page that were not handed out yet, the
    /// next one last.
    buf: Vec<Json>,
    done: bool,
}

impl Query {
    /// The arguments that the next page is asked for with.
    pub closed spec fn args(&self) -> Map<Seq<char>, Seq<char>> {
        self.req@
    }

    /// The name of the field under `query` that holds the records.
    pub closed spec fn list(&self) -> Seq<char> {
        self.list@
    }

    /// The records of the current page that were not handed out yet, the
    /// next one first.
    pub closed spec fn pending(&self) -> Seq<JsonValue> {
        Seq::new(self.buf@.len(), |i: int| self.buf@[self.buf@.len() - 1 - i]@)
    }

    /// Whether no page is left to fetch.
    pub closed spec fn finished(&self) -> bool {
        self.done
    }

    /// Hands out the next record, or says what stands in its way.
    ///
    /// While the buffer holds records, they come out in the order of the
    /// page. With the buffer empty, a finished query ends; any other asks
    /// for its next page with a GET of its arguments.
    pub fn next(&mut self) -> (pull: Pull)
        ensures
            final(self).args() == old(self).args(),
            final(self).list() == old(self).list(),
            final(self).finished() == old(self).finished(),
            match pull {
                Pull::Record(record) => {
                    &&& old(self).pending().len() > 0
                    &&& record@ == old(self).pending()[0]
                    &&& final(self).pending() == old(self).pending().drop_first()
                },
                Pull::Fetch(call) => {
                    &&& old(self).pending().len() == 0
                    &&& !old(self).finished()
                    &&& final(self).pending() == old(self).pending()
                    &&& call.fresh(old(self).args(), Encoding::Query)
                },
                Pull::End => {
                    &&& old(self).pending().len() == 0
                    &&& old(self).finished()
                    &&& final(self).pending() == old(self).pending()
                },
            },
    {
        let ghost before = self.pending();
        match self.buf.pop() {
            Some(record) => {
                assert(self.pending() =~= before.drop_first());
                Pull::Record(record)
            },
            None => {
                assert(self.pending() =~= before);
                if self.done {
                    Pull::End
                } else {
                    Pull::Fetch(self.req.get())
                }
            },
        }
    }

    /// Takes in the result of the call that [`Query::next`] asked for.
    ///
    /// An answer that holds a page fills the buffer with the page's
    /// records, puts the fields of its `continue` object among the
    /// arguments, and reports whether more pages exist; without a `continue`
    /// object the query is finished. A call that failed, and an answer of
    /// the wrong shape, end the query: the error comes back, nothing is
    /// buffered and no page is asked for again.
    pub fn fill(&mut self, result: Result<Json, Error>) -> (outcome: Result<bool, Error>)
        ensures
            final(self).list() == old(self).list(),
            match result {
                Err(cause) => {
                    &&& outcome == Err::<bool, Error>(cause)
                    &&& final(self).finished()
                    &&& final(self).pending() == Seq::<JsonValue>::empty()
                    &&& final(self).args() == old(self).args()
                },
                Ok(answer) => match page_of(answer@, old(self).list()) {
                    None => {
                        &&& outcome matches Err(Error::Shape(path, json))
                        &&& path@ == fault_path(answer@, old(self).list())
                        &&& json@ == answer@
                        &&& final(self).finished()
                        &&& final(self).pending() == Seq::<JsonValue>::empty()
                        &&& final(self).args() == old(self).args()
                    },
                    Some(page) => {
                        &&& outcome == Ok::<bool, Error>(page.next is Some)
                        &&& final(self).finished() == (page.next is None)
                        &&& final(self).pending() == page.records
                        &&& final(self).args() == next_args(old(self).args(), page)
                    },
                },
            },
    {
        let answer = match result {
            Ok(answer) => answer,
            Err(cause) => {
                self.buf = Vec::new();
                self.done = true;
                assert(self.pending() =~= Seq::<JsonValue>::empty());
                return Err(cause);
            },
        };
        let records = match answer.get("query") {
            Some(query) => match query.get(self.list.as_str()) {
                Some(list) => list.as_array(),
                None => None,
            },
            None => None,
        };
        let records = match records {
            Some(records) => records,
            None => {
                let mut path = "query.".to_owned();
                path.append(self.list.as_str());
                self.buf = Vec::new();
                self.done = true;
                assert(self.pending() =~= Seq::<JsonValue>::empty());
                return Err(Error::Shape(path, answer.clone()));
            },
        };
        let next = match answer.get("continue") {
            None => Some(None),
            Some(object) => match object.as_object() {
                Some(fields) => match text_fields(fields) {
                    Some(pairs) => Some(Some(pairs)),
                    None => None,
                },
                None => None,
            },
        };
        let next = match next {
            Some(next) => next,
            None => {
                self.buf = Vec::new();
                self.done = true;
                assert(self.pending() =~= Seq::<JsonValue>::empty());
                return Err(Error::Shape("continue".to_owned(), answer.clone()));
            },
        };
        let ghost page = page_of(answer@, self.list@)->0;
        let mut buf: Vec<Json> = Vec::new();
        let mut i: usize = records.len();
        while i > 0
            invariant
                i <= records.len(),
                buf@.len() == records.len() - i,
                forall|k: int| 0 <= k < buf@.len() ==> buf@[k]@ == records@[records.len() - 1 - k]@,
            decreases i,
        {
            i -= 1;
            buf.push(records[i].clone());
        }
        self.buf = buf;
        assert(self.pending() =~= item_views(records@));
        match next {
            None => {
                self.done = true;
                Ok(false)
            },
            Some(pairs) => {
                let ghost start = self.req@;
                let ghost all = pair_views(pairs@);
                assert(all.take(0) =~= Seq::empty());
                let mut k: usize = 0;
                while k < pairs.len()
                    invariant
                        k <= pairs.len(),
                        all == pair_views(pairs@),
                        self.req@ == applied(start, all.take(k as int)),
                        self.list == old(self).list,
                        self.buf@ == buf@,
                    decreases pairs.len() - k,
                {
                    self.req.arg(pairs[k].0.as_str(), pairs[k].1.as_str());
                    proof {
                        let grown = all.take(k as int + 1);
                        assert(grown.drop_last() =~= all.take(k as int));
                        assert(grown.last() == all[k as int]);
                    }
                    k += 1;
                }
                assert(all.take(k as int) =~= all);
                self.done = false;
                Ok(true)
            },
        }
    }
}

/// The fields of a `continue` object as pairs of strings; `None` where a
/// field holds anything but a string.
fn text_fields(fields: &Vec<(String, Json)>) -> (found: Option<Vec<(String, String)>>)
    ensures
        match found {
            Some(pairs) => all_text(field_views(fields@)) && pair_views(pairs@) == text_pairs(
                field_views(fields@),
            ),
            None => !all_text(field_views(fields@)),
        },
{
    let ghost all = field_views(fields@);
    let mut pairs: Vec<(String, String)> = Vec::new();
    let mut i: usize = 0;
    while i < fields.len()
        invariant
            i <= fields.len(),
            all == field_views(fields@),
            pairs@.len() == i,
            forall|k: int| 0 <= k < i ==> (#[trigger] all[k]).1 is String,
            forall|k: int|
                0 <= k < i ==> (#[trigger] pairs@[k]).0@ == all[k].0 && pairs@[k].1@
                    == all[k].1->String_0,
        decreases fields.len() - i,
    {
        match fields[i].1.as_str() {
            Some(text) => {
                pairs.push((fields[i].0.clone(), text.to_owned()));
            },
            None => {
                assert(!(all[i as int].1 is String));
                return None;
            },
        }
        i += 1;
    }
    assert(pair_views(pairs@) =~= text_pairs(all));
    Some(pairs)
}

impl Mediawiki {
    /// A query for the list whose records the server puts under
    /// `query.<list>`. It starts from `action=query` and an empty
    /// `continue`; which list is asked for, and how, is for the caller to
    /// add.
    pub fn query(&self, list: &str) -> (query: QueryBuilder)
        ensures
            query.args() == list_seed(),
            query.list() == list@,
    {
        let mut request = self.request();
        request.arg("action", "query").arg("continue", "");
        QueryBuilder::new(request, list)
    }

    /// A query for the recent changes, newest first, at most `limit` of
    /// them to a page, with every property of a change that the server
    /// offers.
    pub fn query_recentchanges(&self, limit: u32) -> (query: QueryBuilder)
        ensures
            query.list() == "recentchanges"@,
            query.args() == recentchanges_args(limit),
    {
        let mut query = self.query("recentchanges");
        let limit = u64_to_string(limit as u64);
        query.arg("list", "recentchanges").arg("rcdir", "older").arg(
            "rcprop",
            "user|userid|comment|timestamp|title|ids|sha1|sizes|redirect|loginfo|tags|flags",
        ).arg("limit", limit.as_str());
        query
    }
}

/// The arguments of a query for the recent changes.
pub open spec fn recentchanges_args(limit: u32) -> Map<Seq<char>, Seq<char>> {
    list_seed().insert("list"@, "recentchanges"@).insert("rcdir"@, "older"@).insert(
        "rcprop"@,
        "user|userid|comment|timestamp|title|ids|sha1|sizes|redirect|loginfo|tags|flags"@,
    ).insert("limit"@, decimal(limit as nat))
}

} // verus!
