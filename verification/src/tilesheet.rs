//! Tilesheets: their list queries and the calls that change them.

use crate::call::Call;
use crate::exchange::Encoding;
use crate::query::{list_seed, QueryBuilder};
use crate::request::{opt_text, with, RequestBuilder};
use crate::session::Mediawiki;
use crate::text::{i64_to_string, signed_decimal};
use crate::token::{Csrf, Token};
use vstd::prelude::*;

verus! {

/// The arguments of a query for tiles.
pub open spec fn tiles_args(tsmod: Option<Seq<char>>) -> Map<Seq<char>, Seq<char>> {
    with(list_seed().insert("list"@, "tiles"@).insert("tslimit"@, "5000"@), "tsmod"@, tsmod)
}

/// The arguments of a query for sheets.
pub open spec fn sheets_args() -> Map<Seq<char>, Seq<char>> {
    list_seed().insert("list"@, "tilesheets"@).insert("tslimit"@, "5000"@)
}

/// The arguments of a query for the translations of a tile.
pub open spec fn translations_args(tsid: i64) -> Map<Seq<char>, Seq<char>> {
    list_seed().insert("list"@, "tiletranslations"@).insert("tsid"@, signed_decimal(tsid as int))
}

/// The arguments that start a call of the action `action` under a token.
pub open spec fn tile_call(action: Seq<char>, token: Seq<char>) -> Map<Seq<char>, Seq<char>> {
    RequestBuilder::seed().insert("action"@, action).insert("tstoken"@, token)
}

/// The arguments that add tiles to a sheet.
pub open spec fn add_tiles_args(
    token: Seq<char>,
    tsmod: Seq<char>,
    tsimport: Seq<char>,
    summary: Option<Seq<char>>,
) -> Map<Seq<char>, Seq<char>> {
    with(
        tile_call("addtiles"@, token).insert("tsmod"@, tsmod).insert("tsimport"@, tsimport),
        "tssummary"@,
        summary,
    )
}

/// The arguments that delete sheets.
pub open spec fn delete_sheet_args(
    token: Seq<char>,
    tsmods: Seq<char>,
    summary: Option<Seq<char>>,
) -> Map<Seq<char>, Seq<char>> {
    with(tile_call("deletesheet"@, token).insert("tsmods"@, tsmods), "tssummary"@, summary)
}

/// The arguments that delete tiles.
pub open spec fn delete_tiles_args(
    token: Seq<char>,
    tsids: Seq<char>,
    summary: Option<Seq<char>>,
) -> Map<Seq<char>, Seq<char>> {
    with(tile_call("deletetiles"@, token).insert("tsids"@, tsids), "tssummary"@, summary)
}

/// The arguments that create a sheet.
pub open spec fn create_sheet_args(token: Seq<char>, tsmod: Seq<char>, tssizes: Seq<char>) -> Map<
    Seq<char>,
    Seq<char>,
> {
    tile_call("createsheet"@, token).insert("tsmod"@, tsmod).insert("tssizes"@, tssizes)
}

/// The arguments that change a tile.
pub open spec fn edit_tile_args(
    token: Seq<char>,
    id: Seq<char>,
    summary: Option<Seq<char>>,
    toname: Option<Seq<char>>,
    tomod: Option<Seq<char>>,
    tox: Option<Seq<char>>,
    toy: Option<Seq<char>>,
    toz: Option<Seq<char>>,
) -> Map<Seq<char>, Seq<char>> {
    with(
        with(
            with(
                with(
                    with(
                        with(
                            tile_call("edittile"@, token).insert("tsid"@, id),
                            "tssummary"@,
                            summary,
                        ),
                        "tstoname"@,
                        toname,
                    ),
                    "tstomod"@,
                    tomod,
                ),
                "tstox"@,
                tox,
            ),
            "tstoy"@,
            toy,
        ),
        "tstoz"@,
        toz,
    )
}

/// The operations on tilesheets.
pub trait Tilesheet {
    /// A query for the tiles, those of one mod where `tsmod` names it, 5000
    /// to a page.
    fn query_tiles(&self, tsmod: Option<&str>) -> (query: QueryBuilder)
        ensures
            query.list() == "tiles"@,
            query.args() == tiles_args(opt_text(tsmod)),
    ;

    /// A query for the translations of the tile `tsid`.
    fn query_tile_translations(&self, tsid: i64) -> (query: QueryBuilder)
        ensures
            query.list() == "tiles"@,
            query.args() == translations_args(tsid),
    ;

    /// The call that adds the tiles that `tsimport` lists to the sheet of
    /// `tsmod`.
    fn add_tiles(&self, token: &Token<Csrf>, tsmod: &str, tsimport: &str, summary: Option<&str>) -> (call:
        Call)
        ensures
            call.fresh(
                add_tiles_args(token@, tsmod@, tsimport@, opt_text(summary)),
                Encoding::Form,
            ),
    ;

    /// The call that deletes the sheets of the mods that `tsmods` lists.
    fn delete_sheet(&self, token: &Token<Csrf>, tsmods: &str, tssummary: Option<&str>) -> (call:
        Call)
        ensures
            call.fresh(delete_sheet_args(token@, tsmods@, opt_text(tssummary)), Encoding::Form),
    ;

    /// The call that deletes the tiles whose ids `tsids` lists.
    fn delete_tiles(&self, token: &Token<Csrf>, tsids: &str, summary: Option<&str>) -> (call: Call)
        ensures
            call.fresh(delete_tiles_args(token@, tsids@, opt_text(summary)), Encoding::Form),
    ;

    /// A query for the sheets, 5000 to a page.
    fn query_sheets(&self) -> (query: QueryBuilder)
        ensures
            query.list() == "tilesheets"@,
            query.args() == sheets_args(),
    ;

    /// The call that creates a sheet for `tsmod` in the sizes that
    /// `tssizes` lists.
    fn create_sheet(&self, token: &Token<Csrf>, tsmod: &str, tssizes: &str) -> (call: Call)
        ensures
            call.fresh(create_sheet_args(token@, tsmod@, tssizes@), Encoding::Form),
    ;

    /// The call that changes the tile `id`; an absent value leaves that
    /// part of the tile as it is.
    fn edit_tile(
        &self,
        token: &Token<Csrf>,
        id: &str,
        summary: Option<&str>,
        toname: Option<&str>,
        tomod: Option<&str>,
        tox: Option<&str>,
        toy: Option<&str>,
        toz: Option<&str>,
    ) -> (call: Call)
        ensures
            call.fresh(
                edit_tile_args(
                    token@,
                    id@,
                    opt_text(summary),
                    opt_text(toname),
                    opt_text(tomod),
                    opt_text(tox),
                    opt_text(toy),
                    opt_text(toz),
                ),
                Encoding::Form,
            ),
    ;
}

impl Tilesheet for Mediawiki {
    fn query_tiles(&self, tsmod: Option<&str>) -> (query: QueryBuilder) {
        let mut query = self.query("tiles");
        query.arg("list", "tiles").arg("tslimit", "5000").argo("tsmod", tsmod);
        query
    }

    fn query_sheets(&self) -> (query: QueryBuilder) {
        let mut query = self.query("tilesheets");
        query.arg("list", "tilesheets").arg("tslimit", "5000");
        query
    }

    fn query_tile_translations(&self, tsid: i64) -> (query: QueryBuilder) {
        let id = i64_to_string(tsid);
        let mut query = self.query("tiles");
        query.arg("list", "tiletranslations").arg("tsid", id.as_str());
        query
    }

    fn delete_sheet(&self, token: &Token<Csrf>, tsmods: &str, tssummary: Option<&str>) -> (call:
        Call) {
        let mut request = self.request();
        request.arg("action", "deletesheet").arg("tstoken", token.value()).arg(
            "tsmods",
            tsmods,
        ).argo("tssummary", tssummary);
        request.post()
    }

    fn delete_tiles(&self, token: &Token<Csrf>, tsids: &str, summary: Option<&str>) -> (call:
        Call) {
        let mut request = self.request();
        request.arg("action", "deletetiles").arg("tstoken", token.value()).arg(
            "tsids",
            tsids,
        ).argo("tssummary", summary);
        request.post()
    }

    fn add_tiles(&self, token: &Token<Csrf>, tsmod: &str, tsimport: &str, summary: Option<&str>) -> (call:
        Call) {
        let mut request = self.request();
        request.arg("action", "addtiles").arg("tstoken", token.value()).arg("tsmod", tsmod).arg(
            "tsimport",
            tsimport,
        ).argo("tssummary", summary);
        request.post()
    }

    fn create_sheet(&self, token: &Token<Csrf>, tsmod: &str, tssizes: &str) -> (call: Call) {
        let mut request = self.request();
        request.arg("action", "createsheet").arg("tstoken", token.value()).arg("tsmod", tsmod).arg(
            "tssizes",
            tssizes,
        );
        request.post()
    }

    fn edit_tile(
        &self,
        token: &Token<Csrf>,
        id: &str,
        summary: Option<&str>,
        toname: Option<&str>,
        tomod: Option<&str>,
        tox: Option<&str>,
        toy: Option<&str>,
        toz: Option<&str>,
    ) -> (call: Call) {
        let mut request = self.request();
        request.arg("action", "edittile").arg("tstoken", token.value()).arg("tsid", id).argo(
            "tssummary",
            summary,
        ).argo("tstoname", toname).argo("tstomod", tomod).argo("tstox", tox).argo(
            "tstoy",
            toy,
        ).argo("tstoz", toz);
        request.post()
    }
}

} // verus!
