//! The records that the archive.org API replies are turned into, and the
//! decisions taken while fetching them.
use crate::text::{clone_opt, concat_text, decimal, decimal_text, push_str, same_text};
use vstd::prelude::*;
use vstd::string::StrSliceExecFns;
use vstd::string::StringExecFns;

verus! {

/// One item of a collection, as listed by the search API.
#[derive(Debug)]
pub struct ArchiveDoc {
    pub identifier: String,
}

impl Clone for ArchiveDoc {
    fn clone(&self) -> (r: Self)
        ensures
            r == *self,
    {
        ArchiveDoc { identifier: self.identifier.clone() }
    }
}

/// A file of an item.
#[derive(Debug, Default)]
pub struct FileDetails {
    /// The file name.
    pub name: String,
    pub source: Option<String>,
    pub format: Option<String>,
    pub size: Option<String>,
    pub md5: Option<String>,
}

impl Clone for FileDetails {
    fn clone(&self) -> (r: Self)
        ensures
            r == *self,
    {
        FileDetails {
            name: self.name.clone(),
            source: clone_opt(&self.source),
            format: clone_opt(&self.format),
            size: clone_opt(&self.size),
            md5: clone_opt(&self.md5),
        }
    }
}

/// The details of an item shown in the item view.
#[derive(Debug, Default)]
pub struct ItemDetails {
    pub identifier: String,
    pub title: Option<String>,
    pub creator: Option<String>,
    pub description: Option<String>,
    pub date: Option<String>,
    pub uploader: Option<String>,
    pub collections: Vec<String>,
    pub mediatype: Option<String>,
    pub files: Vec<FileDetails>,
    /// Base URL that the files are downloaded from.
    pub download_base_url: Option<String>,
}

/// Base URL of the advanced search API.
pub const ADVANCED_SEARCH_URL: &'static str = "https://archive.org/advancedsearch.php";

/// Base URL of the item metadata API.
pub const METADATA_URL_BASE: &'static str = "https://archive.org/metadata/";

/// Number of rows asked for in one bulk search: enough for any collection.
pub const BULK_ROWS: u64 = 1000000;

/// Attempts made at a bulk search before giving up.
pub const MAX_FETCH_RETRIES: u32 = 3;

// --- Replies of the metadata API ---

/// A JSON value, as the metadata API sends it for fields that may hold a
/// text or a list of texts. Numbers keep their JSON text.
#[derive(Debug)]
pub enum JsonValue {
    Null,
    Bool(bool),
    Number(String),
    Text(String),
    Array(Vec<JsonValue>),
    Object(Vec<(String, JsonValue)>),
}

/// The `metadata` object of a metadata reply.
#[derive(Debug)]
pub struct MetadataDetails {
    pub identifier: String,
    pub title: Option<JsonValue>,
    pub creator: Option<JsonValue>,
    pub description: Option<JsonValue>,
    pub date: Option<String>,
    pub publicdate: Option<String>,
    pub mediatype: Option<String>,
    pub uploader: Option<String>,
    pub collection: Option<JsonValue>,
}

/// The fields of a file record in a metadata reply.
#[derive(Debug)]
pub struct FileDetailsInternal {
    pub source: Option<String>,
    pub format: Option<String>,
    pub size: Option<String>,
    pub md5: Option<String>,
}

/// A file record of a `files` array, which names its file.
#[derive(Debug)]
pub struct NamedFile {
    pub name: String,
    pub details: FileDetailsInternal,
}

/// The `files` member of a metadata reply, each entry already read as a
/// file record where it has the shape of one (`None` where it has not).
#[derive(Debug)]
pub enum FilesField {
    /// A JSON array of file records.
    Array(Vec<Option<NamedFile>>),
    /// A JSON object from file name to file record, in the order of its keys.
    Object(Vec<(String, Option<FileDetailsInternal>)>),
    /// Any other JSON value.
    Other,
}

/// The reply of the metadata endpoint (`metadata/{identifier}`).
#[derive(Debug)]
pub struct ItemMetadataResponse {
    pub metadata: Option<MetadataDetails>,
    pub files: Option<FilesField>,
    /// Server hosting the files.
    pub server: Option<String>,
    /// Directory path on the server.
    pub dir: Option<String>,
}

/// The first text of a field holding a text or a list: the text itself, or
/// the first element of the list when that is a text.
pub open spec fn first_text(v: Option<JsonValue>) -> Option<String> {
    match v {
        Some(JsonValue::Text(s)) => Some(s),
        Some(JsonValue::Array(a)) => if a@.len() > 0 && a@[0] is Text {
            Some(a@[0]->Text_0)
        } else {
            None
        },
        _ => None,
    }
}

/// The texts among `a`, in order.
pub open spec fn texts_in(a: Seq<JsonValue>) -> Seq<String>
    decreases a.len(),
{
    if a.len() == 0 {
        Seq::empty()
    } else {
        let r = texts_in(a.drop_last());
        match a.last() {
            JsonValue::Text(s) => r.push(s),
            _ => r,
        }
    }
}

/// The texts of a field holding a text or a list: the text alone, or the
/// texts of the list.
pub open spec fn text_list(v: Option<JsonValue>) -> Seq<String> {
    match v {
        Some(JsonValue::Text(s)) => seq![s],
        Some(JsonValue::Array(a)) => texts_in(a@),
        _ => Seq::empty(),
    }
}

/// The file of a named record of a `files` array.
pub open spec fn listed_file(f: NamedFile) -> FileDetails {
    FileDetails {
        name: f.name,
        source: f.details.source,
        format: f.details.format,
        size: f.details.size,
        md5: f.details.md5,
    }
}

/// The files of a `files` array: those entries that are file records.
pub open spec fn listed_files(v: Seq<Option<NamedFile>>) -> Seq<FileDetails>
    decreases v.len(),
{
    if v.len() == 0 {
        Seq::empty()
    } else {
        let r = listed_files(v.drop_last());
        match v.last() {
            Some(f) => r.push(listed_file(f)),
            None => r,
        }
    }
}

/// A file name from a `files` object key: one leading `/` dropped.
pub open spec fn file_name_from_key(key: Seq<char>) -> Seq<char> {
    if key.len() > 0 && key[0] == '/' {
        key.drop_first()
    } else {
        key
    }
}

/// `f` is the file of the entry `key` with record `d` of a `files` object.
pub open spec fn is_mapped_file(key: String, d: FileDetailsInternal, f: FileDetails) -> bool {
    &&& f.name@ == file_name_from_key(key@)
    &&& f.source == d.source
    &&& f.format == d.format
    &&& f.size == d.size
    &&& f.md5 == d.md5
}

/// `files` are the files of the entries `v` of a `files` object: those
/// entries whose value is a file record, in order.
pub open spec fn mapped_files(v: Seq<(String, Option<FileDetailsInternal>)>, files: Seq<FileDetails>) -> bool
    decreases v.len(),
{
    if v.len() == 0 {
        files.len() == 0
    } else {
        match v.last().1 {
            Some(d) => files.len() > 0 && is_mapped_file(v.last().0, d, files.last())
                && mapped_files(v.drop_last(), files.drop_last()),
            None => mapped_files(v.drop_last(), files),
        }
    }
}

/// `files` are the files that the `files` member of a reply lists.
pub open spec fn files_of(field: Option<FilesField>, files: Seq<FileDetails>) -> bool {
    match field {
        Some(FilesField::Array(v)) => files == listed_files(v@),
        Some(FilesField::Object(v)) => mapped_files(v@, files),
        _ => files.len() == 0,
    }
}

/// The URL that the files of an item are downloaded from.
pub open spec fn base_url(server: Seq<char>, dir: Seq<char>) -> Seq<char> {
    "https://"@ + server + "/"@ + dir
}

/// `d` holds the details of item `identifier` that the reply `raw` gives.
pub open spec fn details_of(identifier: Seq<char>, raw: ItemMetadataResponse, d: ItemDetails) -> bool {
    &&& d.identifier@ == identifier
    &&& match raw.metadata {
        Some(m) => {
            &&& d.title == first_text(m.title)
            &&& d.creator == first_text(m.creator)
            &&& d.description == first_text(m.description)
            &&& d.date == m.date
            &&& d.uploader == m.uploader
            &&& d.collections@ == text_list(m.collection)
            &&& d.mediatype == m.mediatype
        },
        None => {
            &&& d.title is None
            &&& d.creator is None
            &&& d.description is None
            &&& d.date is None
            &&& d.uploader is None
            &&& d.collections@.len() == 0
            &&& d.mediatype is None
        },
    }
    &&& files_of(raw.files, d.files@)
    &&& match (raw.server, raw.dir) {
        (Some(server), Some(dir)) => d.download_base_url matches Some(u) && u@ == base_url(server@, dir@),
        _ => d.download_base_url is None,
    }
}

/// Specific errors that can occur when fetching item details.
#[derive(Debug, PartialEq, Eq, Structural)]
pub enum FetchDetailsErrorKind {
    /// Item not found (e.g., HTTP 404). Considered permanent.
    NotFound,
    /// Failed to parse the JSON response. Considered permanent.
    ParseError,
    /// Network-related error during the request (e.g., timeout, DNS). Potentially transient.
    NetworkError,
    /// Server-side error (HTTP 5xx). Potentially transient.
    ServerError(u16),
    /// Client-side error other than 404 and 429 (e.g., 400, 403). Considered permanent.
    ClientError(u16),
    /// Too many requests (HTTP 429). Potentially transient.
    RateLimitExceeded,
    /// Any other unexpected error. Potentially transient.
    Other,
}

/// What went wrong when fetching item details.
#[derive(Debug)]
pub enum DetailsFailure {
    /// The server answered with this status, which is not a success.
    Status(u16),
    /// The reply held neither metadata nor files.
    MissingMetadataAndFiles,
    /// The reply was not the expected JSON; the parser's message.
    Parse(String),
    /// The request could not be sent; the client's message.
    Send(String),
}

/// Error of fetching item details.
#[derive(Debug)]
pub struct FetchDetailsError {
    pub kind: FetchDetailsErrorKind,
    pub source: DetailsFailure,
    /// The identifier whose details were asked for.
    pub identifier: String,
}

/// Why sending a request failed, as far as the decisions need it.
#[derive(Debug)]
pub struct SendFailure {
    pub is_timeout: bool,
    pub is_connect_or_request: bool,
    pub message: String,
}

/// Whether `status` is a success (2xx).
pub open spec fn is_success(status: u16) -> bool {
    200 <= status <= 299
}

/// Whether `status` is a server error (5xx).
pub open spec fn is_server_error(status: u16) -> bool {
    500 <= status <= 599
}

/// Whether `status` is a client error (4xx).
pub open spec fn is_client_error(status: u16) -> bool {
    400 <= status <= 499
}

/// The kind of error that a status which is not a success stands for.
pub open spec fn status_error_kind(status: u16) -> FetchDetailsErrorKind {
    if status == 404 {
        FetchDetailsErrorKind::NotFound
    } else if status == 429 {
        FetchDetailsErrorKind::RateLimitExceeded
    } else if is_client_error(status) {
        FetchDetailsErrorKind::ClientError(status)
    } else if is_server_error(status) {
        FetchDetailsErrorKind::ServerError(status)
    } else {
        FetchDetailsErrorKind::Other
    }
}

/// The kind of error that a failed send stands for.
pub open spec fn send_error_kind(f: SendFailure) -> FetchDetailsErrorKind {
    if f.is_timeout || f.is_connect_or_request {
        FetchDetailsErrorKind::NetworkError
    } else {
        FetchDetailsErrorKind::Other
    }
}

/// Whether `status` is a success (2xx), as `StatusCode::is_success`.
pub fn status_is_success(status: u16) -> (r: bool)
    ensures
        r == is_success(status),
{
    200 <= status && status <= 299
}

/// The kind of error for a status that is not a success.
pub fn classify_status(status: u16) -> (r: FetchDetailsErrorKind)
    ensures
        r == status_error_kind(status),
{
    if status == 404 {
        FetchDetailsErrorKind::NotFound
    } else if status == 429 {
        FetchDetailsErrorKind::RateLimitExceeded
    } else if 400 <= status && status <= 499 {
        FetchDetailsErrorKind::ClientError(status)
    } else if 500 <= status && status <= 599 {
        FetchDetailsErrorKind::ServerError(status)
    } else {
        FetchDetailsErrorKind::Other
    }
}

/// The URL of the metadata of item `identifier`.
pub fn metadata_url(identifier: &str) -> (r: String)
    ensures
        r@ == METADATA_URL_BASE@ + identifier@,
{
    concat_text(METADATA_URL_BASE, identifier)
}

/// `r` is what the response `response` to the details request for item
/// `identifier` means: `Ok` for a success status, else the error for the
/// status or for the failed send.
pub open spec fn response_result(
    identifier: Seq<char>,
    response: Result<u16, SendFailure>,
    r: Result<(), FetchDetailsError>,
) -> bool {
    match response {
        Ok(status) => if is_success(status) {
            r is Ok
        } else {
            r matches Err(e) && e.kind == status_error_kind(status) && e.source == DetailsFailure::Status(
                status,
            ) && e.identifier@ == identifier
        },
        Err(f) => r matches Err(e) && e.kind == send_error_kind(f) && e.source == DetailsFailure::Send(
            f.message,
        ) && e.identifier@ == identifier,
    }
}

/// What the response to the details request means before its body is
/// read: `Ok` when the body is to be read (the status is a success), else
/// the error for the failed send or the status.
pub fn check_details_response(identifier: &str, response: Result<u16, SendFailure>) -> (r: Result<
    (),
    FetchDetailsError,
>)
    ensures
        response_result(identifier@, response, r),
{
    match response {
        Ok(status) => {
            if status_is_success(status) {
                Ok(())
            } else {
                Err(
                    FetchDetailsError {
                        kind: classify_status(status),
                        source: DetailsFailure::Status(status),
                        identifier: String::from_str(identifier),
                    },
                )
            }
        },
        Err(f) => {
            let kind = if f.is_timeout || f.is_connect_or_request {
                FetchDetailsErrorKind::NetworkError
            } else {
                FetchDetailsErrorKind::Other
            };
            Err(FetchDetailsError { kind, source: DetailsFailure::Send(f.message), identifier: String::from_str(identifier) })
        },
    }
}

/// The first text of a field holding a text or a list of texts.
pub fn get_first_string(v: &Option<JsonValue>) -> (r: Option<String>)
    ensures
        r == first_text(*v),
{
    match v {
        Some(JsonValue::Text(s)) => Some(s.clone()),
        Some(JsonValue::Array(arr)) => {
            if arr.len() > 0 {
                match &arr[0] {
                    JsonValue::Text(s) => Some(s.clone()),
                    _ => None,
                }
            } else {
                None
            }
        },
        _ => None,
    }
}

/// The texts of a field holding a text or a list of texts.
pub fn get_string_array(v: &Option<JsonValue>) -> (r: Vec<String>)
    ensures
        r@ == text_list(*v),
{
    match v {
        Some(JsonValue::Text(s)) => {
            let mut r = Vec::new();
            r.push(s.clone());
            assert(r@ =~= seq![*s]);
            r
        },
        Some(JsonValue::Array(arr)) => {
            let mut r: Vec<String> = Vec::new();
            let mut i: usize = 0;
            while i < arr.len()
                invariant
                    i <= arr@.len(),
                    r@ == texts_in(arr@.take(i as int)),
                decreases arr.len() - i,
            {
                assert(arr@.take(i + 1).drop_last() =~= arr@.take(i as int));
                match &arr[i] {
                    JsonValue::Text(s) => r.push(s.clone()),
                    _ => {},
                }
                i = i + 1;
            }
            assert(arr@.take(arr@.len() as int) =~= arr@);
            r
        },
        _ => Vec::new(),
    }
}

/// The file name of a `files` object key.
pub fn file_name_of_key(key: &String) -> (r: String)
    ensures
        r@ == file_name_from_key(key@),
{
    let n = key.as_str().unicode_len();
    if n > 0 && key.as_str().get_char(0) == '/' {
        String::from_str(key.as_str().substring_char(1, n))
    } else {
        key.clone()
    }
}

/// The files that the `files` member of a reply lists.
pub fn collect_files(field: Option<FilesField>) -> (r: Vec<FileDetails>)
    ensures
        files_of(field, r@),
{
    match field {
        Some(FilesField::Array(v)) => {
            let ghost all = v@;
            let mut v = v;
            let mut out: Vec<FileDetails> = Vec::new();
            let mut i: usize = 0;
            let n = v.len();
            assert(all.skip(0) =~= all);
            while i < n
                invariant
                    n == all.len(),
                    i <= n,
                    out@ == listed_files(all.take(i as int)),
                    v@ == all.skip(i as int),
                decreases n - i,
            {
                assert(all.take(i + 1).drop_last() =~= all.take(i as int));
                let entry = v.remove(0);
                assert(v@ =~= all.skip(i + 1));
                match entry {
                    Some(f) => out.push(
                        FileDetails {
                            name: f.name,
                            source: f.details.source,
                            format: f.details.format,
                            size: f.details.size,
                            md5: f.details.md5,
                        },
                    ),
                    None => {},
                }
                i = i + 1;
            }
            assert(all.take(n as int) =~= all);
            out
        },
        Some(FilesField::Object(v)) => {
            let ghost all = v@;
            let mut out: Vec<FileDetails> = Vec::new();
            let mut i: usize = 0;
            let n = v.len();
            while i < n
                invariant
                    n == all.len(),
                    v@ == all,
                    i <= n,
                    mapped_files(all.take(i as int), out@),
                decreases n - i,
            {
                assert(all.take(i + 1).drop_last() =~= all.take(i as int));
                let (key, rec) = &v[i];
                match rec {
                    Some(d) => {
                        let f = FileDetails {
                            name: file_name_of_key(key),
                            source: clone_opt(&d.source),
                            format: clone_opt(&d.format),
                            size: clone_opt(&d.size),
                            md5: clone_opt(&d.md5),
                        };
                        let ghost before = out@;
                        out.push(f);
                        assert(out@.drop_last() =~= before);
                    },
                    None => {},
                }
                i = i + 1;
            }
            assert(all.take(n as int) =~= all);
            out
        },
        _ => Vec::new(),
    }
}

/// `r` is what the body `body` of a successful details reply for item
/// `identifier` gives: the parse error, or `NotFound` when the reply holds
/// neither metadata nor files, or the details that the reply gives.
pub open spec fn details_result(
    identifier: Seq<char>,
    body: Result<ItemMetadataResponse, String>,
    r: Result<ItemDetails, FetchDetailsError>,
) -> bool {
    match body {
        Err(msg) => r matches Err(e) && e.kind == FetchDetailsErrorKind::ParseError && e.source
            == DetailsFailure::Parse(msg) && e.identifier@ == identifier,
        Ok(raw) => if raw.metadata is None && raw.files is None {
            r matches Err(e) && e.kind == FetchDetailsErrorKind::NotFound && e.source
                == DetailsFailure::MissingMetadataAndFiles && e.identifier@ == identifier
        } else {
            r matches Ok(d) && details_of(identifier, raw, d)
        },
    }
}

/// The details of item `identifier` from the body of a successful details
/// reply: the parse error, or `NotFound` when the reply holds neither
/// metadata nor files, or the details that the reply gives.
pub fn fetch_item_details(identifier: &str, body: Result<ItemMetadataResponse, String>) -> (r: Result<
    ItemDetails,
    FetchDetailsError,
>)
    ensures
        details_result(identifier@, body, r),
{
    let raw = match body {
        Err(msg) => {
            return Err(
                FetchDetailsError {
                    kind: FetchDetailsErrorKind::ParseError,
                    source: DetailsFailure::Parse(msg),
                    identifier: String::from_str(identifier),
                },
            );
        },
        Ok(raw) => raw,
    };
    if raw.metadata.is_none() && raw.files.is_none() {
        return Err(
            FetchDetailsError {
                kind: FetchDetailsErrorKind::NotFound,
                source: DetailsFailure::MissingMetadataAndFiles,
                identifier: String::from_str(identifier),
            },
        );
    }
    let (title, creator, description, date, uploader, collections, mediatype) = match &raw.metadata {
        Some(metadata) => (
            get_first_string(&metadata.title),
            get_first_string(&metadata.creator),
            get_first_string(&metadata.description),
            clone_opt(&metadata.date),
            clone_opt(&metadata.uploader),
            get_string_array(&metadata.collection),
            clone_opt(&metadata.mediatype),
        ),
        None => (None, None, None, None, None, Vec::new(), None),
    };
    let download_base_url = match (&raw.server, &raw.dir) {
        (Some(server), Some(dir)) => {
            let mut u = concat_text("https://", server.as_str());
            push_str(&mut u, "/");
            push_str(&mut u, dir.as_str());
            Some(u)
        },
        _ => None,
    };
    let ghost raw_files = raw.files;
    let files = collect_files(raw.files);
    Ok(ItemDetails {
        identifier: String::from_str(identifier),
        title,
        creator,
        description,
        date,
        uploader,
        collections,
        mediatype,
        files,
        download_base_url,
    })
}

// --- Bulk search of a collection ---

/// The search query for the items of collection `name`.
pub open spec fn collection_query(name: Seq<char>) -> Seq<char> {
    "collection:\""@ + name + "\""@
}

/// The query parameters of the bulk search for collection `name`: the
/// query, only the identifier field, `BULK_ROWS` rows, JSON output wrapped
/// in a `callback(...)` call.
pub open spec fn bulk_search_params(name: Seq<char>, params: Seq<(String, String)>) -> bool {
    &&& params.len() == 5
    &&& params[0].0@ == "q"@ && params[0].1@ == collection_query(name)
    &&& params[1].0@ == "fl[]"@ && params[1].1@ == "identifier"@
    &&& params[2].0@ == "rows"@ && params[2].1@ == decimal(BULK_ROWS as nat)
    &&& params[3].0@ == "output"@ && params[3].1@ == "json"@
    &&& params[4].0@ == "callback"@ && params[4].1@ == "callback"@
}

/// The query parameters of the bulk search for collection `collection_name`.
pub fn bulk_search_query(collection_name: &str) -> (r: Vec<(String, String)>)
    ensures
        bulk_search_params(collection_name@, r@),
{
    let mut q = concat_text("collection:\"", collection_name);
    push_str(&mut q, "\"");
    let mut r: Vec<(String, String)> = Vec::new();
    r.push((String::from_str("q"), q));
    r.push((String::from_str("fl[]"), String::from_str("identifier")));
    r.push((String::from_str("rows"), decimal_text(BULK_ROWS)));
    r.push((String::from_str("output"), String::from_str("json")));
    r.push((String::from_str("callback"), String::from_str("callback")));
    r
}

/// The JSON inside a `callback(...)` reply; a reply of another shape is
/// taken as it is.
pub open spec fn jsonp_payload(body: Seq<char>) -> Seq<char> {
    let prefix = "callback("@;
    if body.len() > prefix.len() && body.take(prefix.len() as int) == prefix && body.last() == ')' {
        body.subrange(prefix.len() as int, body.len() - 1)
    } else {
        body
    }
}

/// The JSON inside a `callback(...)` reply (the reply itself if it has
/// another shape).
pub fn trim_jsonp(body: &str) -> (r: String)
    ensures
        r@ == jsonp_payload(body@),
{
    let prefix = "callback(";
    proof {
        reveal_strlit("callback(");
    }
    let n = body.unicode_len();
    let p = prefix.unicode_len();
    if n > p && body.get_char(n - 1) == ')' {
        let head = String::from_str(body.substring_char(0, p));
        if same_text(&head, &String::from_str(prefix)) {
            return String::from_str(body.substring_char(p, n - 1));
        }
    }
    String::from_str(body)
}

/// The outcome of one attempt at the bulk search.
#[derive(Debug)]
pub enum BulkAttempt {
    /// The request could not be prepared for sending.
    NotClonable,
    /// Sending failed; the client's message.
    SendFailed(String),
    /// The server answered with this status, which is not a success.
    Status(u16),
    /// The body of a successful reply could not be read; the client's message.
    BodyUnreadable(String),
    /// The reply held these items and this reported total.
    Parsed(Vec<ArchiveDoc>, usize),
    /// The reply was not the expected JSON; the parser's message.
    Malformed(String),
}

/// What made the bulk search fail.
#[derive(Debug, PartialEq, Eq)]
pub enum BulkFailure {
    NotClonable,
    Send(String),
    Status(u16),
    Body(String),
    Parse(String),
}

/// Error of the bulk search: the failure of the last attempt made.
#[derive(Debug, PartialEq, Eq)]
pub struct BulkFetchError {
    /// Number of the attempt (from 1) that failed last.
    pub attempt: u32,
    pub failure: BulkFailure,
}

/// What the bulk search does after an attempt.
#[derive(Debug)]
pub enum BulkStep {
    /// Wait this many seconds and try again.
    RetryAfter(u64),
    /// Stop with this result: the items and the reported total, or the error.
    Finished(Result<(Vec<ArchiveDoc>, usize), BulkFetchError>),
}

/// The state of a bulk search: the number of the current attempt.
pub struct BulkFetch {
    attempt: u32,
}

/// The wait before attempt `attempt + 1`: 1 s, then 2 s, doubling.
pub open spec fn backoff_secs(attempt: nat) -> nat
    decreases attempt,
{
    if attempt <= 1 {
        1
    } else {
        2 * backoff_secs((attempt - 1) as nat)
    }
}

/// Whether an attempt with this outcome is followed by another one, given
/// that it was attempt number `attempt`: only failed sends and server errors
/// are retried, and only before the last attempt.
pub open spec fn is_retried(attempt: u32, outcome: BulkAttempt) -> bool {
    attempt < MAX_FETCH_RETRIES && match outcome {
        BulkAttempt::SendFailed(_) => true,
        BulkAttempt::Status(s) => is_server_error(s),
        _ => false,
    }
}

/// The failure that an attempt with this outcome ends in.
pub open spec fn attempt_failure(outcome: BulkAttempt) -> Option<BulkFailure> {
    match outcome {
        BulkAttempt::NotClonable => Some(BulkFailure::NotClonable),
        BulkAttempt::SendFailed(m) => Some(BulkFailure::Send(m)),
        BulkAttempt::Status(s) => Some(BulkFailure::Status(s)),
        BulkAttempt::BodyUnreadable(m) => Some(BulkFailure::Body(m)),
        BulkAttempt::Parsed(_, _) => None,
        BulkAttempt::Malformed(m) => Some(BulkFailure::Parse(m)),
    }
}

/// After attempt `attempt` ended with `outcome`, the search goes on with
/// attempt `next` and does `step`: a retried attempt waits its back-off and
/// moves to the next attempt; otherwise the search finishes with the items
/// or with the failure of this attempt.
pub open spec fn bulk_step(attempt: u32, outcome: BulkAttempt, next: u32, step: BulkStep) -> bool {
    if is_retried(attempt, outcome) {
        &&& step matches BulkStep::RetryAfter(secs) && secs == backoff_secs(attempt as nat)
        &&& next == attempt + 1
    } else {
        &&& next == attempt
        &&& match outcome {
            BulkAttempt::Parsed(docs, total) => step == BulkStep::Finished(Ok((docs, total))),
            _ => step == BulkStep::Finished(
                Err(BulkFetchError { attempt: attempt, failure: attempt_failure(outcome)->0 }),
            ),
        }
    }
}

impl BulkFetch {
    /// The number of the current attempt.
    pub closed spec fn attempt_number(&self) -> u32 {
        self.attempt
    }

    #[verifier::type_invariant]
    closed spec fn wf(&self) -> bool {
        1 <= self.attempt <= MAX_FETCH_RETRIES
    }

    /// A bulk search before its first attempt.
    pub fn new() -> (r: BulkFetch)
        ensures
            r.attempt_number() == 1,
    {
        BulkFetch { attempt: 1 }
    }

    /// The number of the current attempt, from 1 to `MAX_FETCH_RETRIES`.
    pub fn attempt(&self) -> (r: u32)
        ensures
            r == self.attempt_number(),
            1 <= r <= MAX_FETCH_RETRIES,
    {
        proof {
            use_type_invariant(self);
        }
        self.attempt
    }

    /// Decides what follows the current attempt, given its outcome.
    pub fn step(&mut self, outcome: BulkAttempt) -> (r: BulkStep)
        ensures
            1 <= old(self).attempt_number() <= MAX_FETCH_RETRIES,
            1 <= final(self).attempt_number() <= MAX_FETCH_RETRIES,
            bulk_step(old(self).attempt_number(), outcome, final(self).attempt_number(), r),
    {
        proof {
            use_type_invariant(&*self);
        }
        let attempt = self.attempt;
        let retry = attempt < MAX_FETCH_RETRIES && match &outcome {
            BulkAttempt::SendFailed(_) => true,
            BulkAttempt::Status(s) => 500 <= *s && *s <= 599,
            _ => false,
        };
        if retry {
            let delay = backoff(attempt);
            proof {
                use_type_invariant(&*self);
            }
            self.attempt = attempt + 1;
            return BulkStep::RetryAfter(delay);
        }
        let failure = match outcome {
            BulkAttempt::Parsed(docs, total) => {
                return BulkStep::Finished(Ok((docs, total)));
            },
            BulkAttempt::NotClonable => BulkFailure::NotClonable,
            BulkAttempt::SendFailed(m) => BulkFailure::Send(m),
            BulkAttempt::Status(s) => BulkFailure::Status(s),
            BulkAttempt::BodyUnreadable(m) => BulkFailure::Body(m),
            BulkAttempt::Malformed(m) => BulkFailure::Parse(m),
        };
        BulkStep::Finished(Err(BulkFetchError { attempt, failure }))
    }
}

/// The wait before the attempt after `attempt`, `2^(attempt - 1)` seconds.
pub fn backoff(attempt: u32) -> (r: u64)
    requires
        1 <= attempt <= MAX_FETCH_RETRIES,
    ensures
        r == backoff_secs(attempt as nat),
{
    let mut r: u64 = 1;
    let mut k: u32 = 1;
    while k < attempt
        invariant
            1 <= k <= attempt,
            attempt <= MAX_FETCH_RETRIES,
            r == backoff_secs(k as nat),
            k == 1 ==> r == 1,
            k == 2 ==> r == 2,
            k == 3 ==> r == 4,
        decreases attempt - k,
    {
        r = 2 * r;
        k = k + 1;
    }
    r
}

} // verus!
