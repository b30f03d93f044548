//! Files of the wiki: finding the address of one to download, and the call
//! that uploads one.

use crate::call::Call;
use crate::error::Error;
use crate::exchange::Encoding;
use crate::json::{field_of, text_of, Json, JsonValue};
use crate::request::RequestBuilder;
use crate::session::Mediawiki;
use crate::token::{Csrf, Token};
use vstd::prelude::*;
use vstd::string::StringExecFns;

verus! {

/// The arguments that ask where the file `name` is stored.
pub open spec fn download_args(name: Seq<char>) -> Map<Seq<char>, Seq<char>> {
    RequestBuilder::seed().insert("action"@, "query"@).insert("prop"@, "imageinfo"@).insert(
        "titles"@,
        "File:"@ + name,
    ).insert("iiprop"@, "url"@)
}

/// The page that an answer describes: the first field of the object at
/// `query.pages`.
pub open spec fn first_page(answer: JsonValue) -> Option<JsonValue> {
    match field_of(answer.field("query"@), "pages"@) {
        Some(JsonValue::Object(pages)) => if pages.len() > 0 {
            Some(pages[0].1)
        } else {
            None
        },
        _ => None,
    }
}

/// The address in a page's description: the string at `imageinfo[0].url`.
pub open spec fn file_url(page: JsonValue) -> Option<Seq<char>> {
    match page.field("imageinfo"@) {
        Some(info) => text_of(field_of(info.item(0), "url"@)),
        None => None,
    }
}

/// Where the file is, as far as an answer says: `Some(None)` for a file
/// that the wiki does not have, `None` for an answer of the wrong shape.
pub open spec fn file_location(answer: JsonValue) -> Option<Option<Seq<char>>> {
    match first_page(answer) {
        None => None,
        Some(page) => if page.field("missing"@) is Some {
            Some(None)
        } else {
            match file_url(page) {
                Some(url) => Some(Some(url)),
                None => None,
            }
        },
    }
}

/// The path that an error names for an answer without a location.
pub open spec fn location_fault(answer: JsonValue) -> Seq<char> {
    if first_page(answer) is None {
        "query.pages"@
    } else {
        "imageinfo.0.url"@
    }
}

/// The arguments that upload a file under the name `name`.
pub open spec fn upload_args(name: Seq<char>, token: Seq<char>) -> Map<Seq<char>, Seq<char>> {
    RequestBuilder::seed().insert("action"@, "upload"@).insert("filename"@, name).insert(
        "token"@,
        token,
    )
}

/// What to do with the reply to the download of a file.
#[derive(Debug, Clone, Copy, PartialEq, Eq, Structural)]
pub enum Fetched {
    /// The body is the file.
    Keep,
    /// Ask again after this many seconds.
    Again(u64),
}

/// Judges the status of a reply to the download of a file: only status 200
/// brings the file; after any other the download is tried again in five
/// seconds.
pub fn judge_download(status: u16) -> (next: Fetched)
    ensures
        next == if status == 200 {
            Fetched::Keep
        } else {
            Fetched::Again(5)
        },
{
    if status == 200 {
        Fetched::Keep
    } else {
        Fetched::Again(5)
    }
}

impl Mediawiki {
    /// The arguments that ask where the file `name` is stored.
    pub fn download_request(&self, name: &str) -> (request: RequestBuilder)
        ensures
            request@ == download_args(name@),
    {
        let mut title = "File:".to_owned();
        title.append(name);
        let mut request = self.request();
        request.arg("action", "query").arg("prop", "imageinfo").arg("titles", title.as_str()).arg(
            "iiprop",
            "url",
        );
        request
    }

    /// Reads the address of a file out of the answer to a
    /// [`Mediawiki::download_request`]: `None` where the wiki does not have
    /// the file.
    pub fn download_file(&self, answer: &Json) -> (outcome: Result<Option<String>, Error>)
        ensures
            match file_location(answer@) {
                Some(Some(url)) => outcome matches Ok(Some(found)) && found@ == url,
                Some(None) => outcome matches Ok(None),
                None => outcome matches Err(Error::Shape(path, json)) && path@ == location_fault(
                    answer@,
                ) && json@ == answer@,
            },
    {
        let pages = match answer.get("query") {
            Some(query) => match query.get("pages") {
                Some(pages) => pages.as_object(),
                None => None,
            },
            None => None,
        };
        let page = match pages {
            Some(pages) => if pages.len() > 0 {
                Some(&pages[0].1)
            } else {
                None
            },
            None => None,
        };
        let page = match page {
            Some(page) => page,
            None => {
                return Err(Error::Shape("query.pages".to_owned(), answer.clone()));
            },
        };
        if page.get("missing").is_some() {
            return Ok(None);
        }
        let url = match page.get("imageinfo") {
            Some(info) => match info.at(0) {
                Some(first) => match first.get("url") {
                    Some(url) => url.as_str(),
                    None => None,
                },
                None => None,
            },
            None => None,
        };
        match url {
            Some(url) => Ok(Some(url.to_owned())),
            None => Err(Error::Shape("imageinfo.0.url".to_owned(), answer.clone())),
        }
    }

    /// The call that uploads a file under the name `name`: a multipart POST
    /// whose text parts are these arguments. The transport adds the file's
    /// content as the part `file`.
    pub fn upload_file(&self, name: &str, token: &Token<Csrf>) -> (call: Call)
        ensures
            call.fresh(upload_args(name@, token@), Encoding::Multipart),
    {
        let mut request = self.request();
        request.arg("action", "upload").arg("filename", name).arg("token", token.value());
        request.multipart()
    }
}

} // verus!
