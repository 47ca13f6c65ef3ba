//! The archive.org search and media endpoints: the records they return and
//! the URLs they are reached at.
use crate::text::{concat_text, decimal, decimal_text, push_str};
use vstd::prelude::*;

verus! {

/// An item found by the audio collection search.
#[derive(Debug, Clone)]
pub struct ArchiveOrgItem {
    pub identifier: String,
    pub title: Option<String>,
    pub creator: Option<String>,
    pub date: Option<String>,
    pub mediatype: Option<String>,
    pub downloads: Option<i32>,
    pub item_size: Option<i64>,
    pub publicdate: Option<String>,
    pub description: Option<String>,
}

/// The reply of the search endpoint.
#[derive(Debug)]
pub struct SearchResponse {
    pub response: SearchResponseInner,
}

/// The `response` member of a search reply.
#[allow(non_snake_case)]
#[derive(Debug)]
pub struct SearchResponseInner {
    pub docs: Vec<ArchiveOrgItem>,
    pub numFound: i64,
    pub start: i64,
}

/// Where the archive.org endpoints are reached.
pub struct ArchiveOrgClient {
    base_url: String,
}

/// The fields asked for by the audio collection search.
pub open spec fn search_fields() -> Seq<char> {
    "identifier,title,creator,date,mediatype,downloads,item_size,publicdate,description"@
}

/// The URL of page `page` of the audio collection search, `per_page` rows a page.
pub open spec fn search_url(base: Seq<char>, page: nat, per_page: nat) -> Seq<char> {
    base + "/advancedsearch.php?q=mediatype:audio+AND+collection:*&fl="@ + search_fields()
        + "&output=json&rows="@ + decimal(per_page) + "&page="@ + decimal(page)
}

impl ArchiveOrgClient {
    /// The base URL of the endpoints.
    pub closed spec fn base(&self) -> Seq<char> {
        self.base_url@
    }

    /// A client of archive.org itself.
    pub fn new() -> (r: Self)
        ensures
            r.base() == "https://archive.org"@,
    {
        ArchiveOrgClient { base_url: String::from_str("https://archive.org") }
    }

    /// The URL of page `page` of the audio collection search.
    pub fn search_audio_collections_url(&self, page: usize, per_page: usize) -> (r: String)
        ensures
            r@ == search_url(self.base(), page as nat, per_page as nat),
    {
        let mut url = concat_text(self.base_url.as_str(), "/advancedsearch.php?q=mediatype:audio+AND+collection:*&fl=");
        push_str(&mut url, "identifier,title,creator,date,mediatype,downloads,item_size,publicdate,description");
        push_str(&mut url, "&output=json&rows=");
        let rows = decimal_text(per_page as u64);
        push_str(&mut url, rows.as_str());
        push_str(&mut url, "&page=");
        let p = decimal_text(page as u64);
        push_str(&mut url, p.as_str());
        url
    }

    /// The URL of the metadata of item `identifier`.
    pub fn item_metadata_url(&self, identifier: &str) -> (r: String)
        ensures
            r@ == self.base() + "/metadata/"@ + identifier@,
    {
        let mut url = concat_text(self.base_url.as_str(), "/metadata/");
        push_str(&mut url, identifier);
        url
    }

    /// The URL of the thumbnail of item `identifier`.
    pub fn get_thumbnail_url(&self, identifier: &str) -> (r: String)
        ensures
            r@ == self.base() + "/services/img/"@ + identifier@,
    {
        let mut url = concat_text(self.base_url.as_str(), "/services/img/");
        push_str(&mut url, identifier);
        url
    }
}

} // verus!
