//! The ore dictionary: its list query and the calls that change it.

use crate::call::Call;
use crate::exchange::Encoding;
use crate::query::{list_seed, QueryBuilder};
use crate::request::{opt_text, with, RequestBuilder};
use crate::session::Mediawiki;
use crate::text::{i64_to_string, signed_decimal};
use crate::token::{Csrf, Token};
use vstd::prelude::*;

verus! {

/// The arguments of a query for the entries of the dictionary.
pub open spec fn ores_args(odmod: Option<Seq<char>>) -> Map<Seq<char>, Seq<char>> {
    with(list_seed().insert("list"@, "oredictsearch"@).insert("odlimit"@, "5000"@), "odmod"@, odmod)
}

/// The arguments that delete entries.
pub open spec fn delete_ores_args(token: Seq<char>, ids: Seq<char>) -> Map<Seq<char>, Seq<char>> {
    RequestBuilder::seed().insert("action"@, "deleteoredict"@).insert("odtoken"@, token).insert(
        "odids"@,
        ids,
    )
}

/// The arguments that change an entry.
pub open spec fn edit_ore_args(
    token: Seq<char>,
    odid: i64,
    odmod: Option<Seq<char>>,
    odtag: Option<Seq<char>>,
    oditem: Option<Seq<char>>,
    odparams: Option<Seq<char>>,
) -> Map<Seq<char>, Seq<char>> {
    with(
        with(
            with(
                with(
                    RequestBuilder::seed().insert("action"@, "editoredict"@).insert(
                        "odtoken"@,
                        token,
                    ).insert("odid"@, signed_decimal(odid as int)),
                    "odmod"@,
                    odmod,
                ),
                "odtag"@,
                odtag,
            ),
            "oditem"@,
            oditem,
        ),
        "odparams"@,
        odparams,
    )
}

/// The operations on the ore dictionary.
pub trait Oredict {
    /// A query for the entries of the dictionary, those of one mod where
    /// `odmod` names it, 5000 to a page.
    fn query_ores(&self, odmod: Option<&str>) -> (query: QueryBuilder)
        ensures
            query.list() == "oredictentries"@,
            query.args() == ores_args(opt_text(odmod)),
    ;

    /// The call that deletes the entries whose ids `ids` lists.
    fn delete_ores(&self, token: &Token<Csrf>, ids: &str) -> (call: Call)
        ensures
            call.fresh(delete_ores_args(token@, ids@), Encoding::Form),
    ;

    /// The call that changes the entry `odid`; an absent value leaves that
    /// part of the entry as it is.
    fn edit_ore(
        &self,
        token: &Token<Csrf>,
        odid: i64,
        odmod: Option<&str>,
        odtag: Option<&str>,
        oditem: Option<&str>,
        odparams: Option<&str>,
    ) -> (call: Call)
        ensures
            call.fresh(
                edit_ore_args(
                    token@,
                    odid,
                    opt_text(odmod),
                    opt_text(odtag),
                    opt_text(oditem),
                    opt_text(odparams),
                ),
                Encoding::Form,
            ),
    ;
}

impl Oredict for Mediawiki {
    fn query_ores(&self, odmod: Option<&str>) -> (query: QueryBuilder) {
        let mut query = self.query("oredictentries");
        query.arg("list", "oredictsearch").arg("odlimit", "5000").argo("odmod", odmod);
        query
    }

    fn delete_ores(&self, token: &Token<Csrf>, ids: &str) -> (call: Call) {
        let mut request = self.request();
        request.arg("action", "deleteoredict").arg("odtoken", token.value()).arg("odids", ids);
        request.post()
    }

    fn edit_ore(
        &self,
        token: &Token<Csrf>,
        odid: i64,
        odmod: Option<&str>,
        odtag: Option<&str>,
        oditem: Option<&str>,
        odparams: Option<&str>,
    ) -> (call: Call) {
        let id = i64_to_string(odid);
        let mut request = self.request();
        request.arg("action", "editoredict").arg("odtoken", token.value()).arg(
            "odid",
            id.as_str(),
        ).argo("odmod", odmod).argo("odtag", odtag).argo("oditem", oditem).argo(
            "odparams",
            odparams,
        );
        request.post()
    }
}

} // verus!
