//! The JSON-RPC surface: the fixed envelope version, the payload cap, the
//! four methods, and the response shapes. Serialization to bytes is the
//! application shell's concern; every decision about content is made
//! here.

use vstd::prelude::*;

use crate::data_url::base64_of;
use crate::data_url::spec_data_url;
use crate::document::Document;
use crate::errors::error_code;
use crate::errors::Errors;
use crate::moderation::ModerationCategories;
use crate::moderation::ModerationService;
use crate::store::DbModerationRow;
use crate::store::DbReportRow;
use crate::store::copy_categories;
use crate::strings::str_eq;

verus! {

/// The fixed envelope version every request must carry.
pub fn rpc_version() -> (r: &'static str)
    ensures
        r@ == "1.0.0"@,
{
    "1.0.0"
}

/// The RPC payload cap in bytes.
pub fn max_payload_bytes() -> (r: u64)
    ensures
        r == 65536,
{
    65536
}

/// The four recognized methods.
#[allow(non_camel_case_types)]
#[derive(PartialEq, Eq, Structural, Clone, Copy, Debug)]
pub enum RpcMethods {
    img_proxy_fetch,
    img_proxy_describe,
    img_proxy_report,
    img_proxy_describe_report,
}

/// The method a name denotes, if any.
pub open spec fn spec_method_of_name(s: Seq<char>) -> Option<RpcMethods> {
    if s == "img_proxy_fetch"@ {
        Some(RpcMethods::img_proxy_fetch)
    } else if s == "img_proxy_describe"@ {
        Some(RpcMethods::img_proxy_describe)
    } else if s == "img_proxy_report"@ {
        Some(RpcMethods::img_proxy_report)
    } else if s == "img_proxy_describe_report"@ {
        Some(RpcMethods::img_proxy_describe_report)
    } else {
        None
    }
}

/// Recognizes a method name.
pub fn method_of_name(s: &str) -> (r: Option<RpcMethods>)
    ensures
        r == spec_method_of_name(s@),
{
    if str_eq(s, "img_proxy_fetch") {
        Some(RpcMethods::img_proxy_fetch)
    } else if str_eq(s, "img_proxy_describe") {
        Some(RpcMethods::img_proxy_describe)
    } else if str_eq(s, "img_proxy_report") {
        Some(RpcMethods::img_proxy_report)
    } else if str_eq(s, "img_proxy_describe_report") {
        Some(RpcMethods::img_proxy_describe_report)
    } else {
        None
    }
}

/// The envelope header: version literal and method.
pub struct MethodHeader {
    pub jsonrpc: String,
    pub method: RpcMethods,
}

/// What the version gate decides: exactly the fixed literal passes.
pub open spec fn spec_check_version(v: Seq<char>) -> Result<(), Errors> {
    if v == "1.0.0"@ {
        Ok(())
    } else {
        Err(Errors::InvalidRpcVersionError)
    }
}

/// Accepts exactly the fixed version string; anything else is the
/// version error.
pub fn check_version(jsonrpc: &str) -> (r: Result<(), Errors>)
    ensures
        r == spec_check_version(jsonrpc@),
{
    if str_eq(jsonrpc, "1.0.0") {
        Ok(())
    } else {
        Err(Errors::InvalidRpcVersionError)
    }
}

/// Any envelope whose version is not the fixed literal is refused with
/// the version error, and that error's stable code is 100.
pub proof fn lemma_bad_version_gives_code_100(v: Seq<char>)
    requires
        v != "1.0.0"@,
    ensures
        spec_check_version(v) == Err::<(), Errors>(Errors::InvalidRpcVersionError),
        error_code(Errors::InvalidRpcVersionError) == 100,
{
}

/// Accepts bodies up to the payload cap; anything larger is the
/// payload-size error, whose code is 113.
pub fn check_payload_size(size: u64) -> (r: Result<(), Errors>)
    ensures
        size <= 65536 ==> r is Ok,
        size > 65536 ==> r == Err::<(), Errors>(Errors::RpcPayloadTooBigError),
{
    if size > 65536 {
        Err(Errors::RpcPayloadTooBigError)
    } else {
        Ok(())
    }
}

/// How the caller wants the fetched document returned.
#[derive(PartialEq, Eq, Structural, Clone, Copy, Debug)]
pub enum ResponseType {
    Json,
    Raw,
}

/// Parameters of the fetch method.
pub struct FetchRequestParams {
    pub url: String,
    pub force: bool,
    pub response_type: ResponseType,
}

/// The fetch method request.
pub struct FetchRequest {
    pub params: FetchRequestParams,
}

/// Parameters of the describe method.
pub struct DescribeRequestParams {
    pub urls: Vec<String>,
}

/// The describe method request.
pub struct DescribeRequest {
    pub params: DescribeRequestParams,
}

/// Parameters of the report method.
pub struct ReportRequestParams {
    pub url: String,
    pub categories: Vec<ModerationCategories>,
}

/// The report method request.
pub struct ReportRequest {
    pub params: ReportRequestParams,
}

/// The outcome marker of an envelope.
#[derive(PartialEq, Eq, Structural, Clone, Copy, Debug)]
pub enum RpcStatus {
    Success,
    Failure,
}

/// The moderation outcome carried by a fetch response.
#[derive(PartialEq, Eq, Structural, Clone, Copy, Debug)]
pub enum ModerationStatus {
    Allowed,
    Blocked,
    Pending,
}

/// The status of a blocked flag: blocked verdicts block, everything else
/// is allowed.
pub fn status_from_blocked(blocked: bool) -> (r: ModerationStatus)
    ensures
        r == if blocked {
            ModerationStatus::Blocked
        } else {
            ModerationStatus::Allowed
        },
{
    if blocked {
        ModerationStatus::Blocked
    } else {
        ModerationStatus::Allowed
    }
}

/// What the fetch method hands to the responder.
pub struct ModerationResult {
    pub moderation_status: ModerationStatus,
    pub categories: Vec<ModerationCategories>,
    pub data: String,
    pub document: Option<Document>,
}

/// Build information served on the info route.
pub struct Info {
    pub package_version: String,
    pub git_version: String,
}

/// The error envelope.
pub struct ErrorResponse {
    pub jsonrpc: String,
    pub rpc_status: RpcStatus,
    pub error: crate::errors::RpcError,
}

/// An envelope with no result, for transport-level failures.
pub struct ServerError {
    pub jsonrpc: String,
    pub rpc_status: RpcStatus,
}

/// Wraps an error as the error envelope with the fixed version.
pub fn error_response(e: &Errors, request_id: u128) -> (r: ErrorResponse)
    ensures
        r.jsonrpc@ == "1.0.0"@,
        r.rpc_status == RpcStatus::Failure,
        r.error.code == error_code(*e),
        r.error.reason@ == crate::errors::error_reason(*e),
        r.error.request_id == request_id,
{
    ErrorResponse {
        jsonrpc: rpc_version().to_owned(),
        rpc_status: RpcStatus::Failure,
        error: e.to_rpc_error(request_id),
    }
}

/// What goes over the wire for a fetch: raw bytes with their media type,
/// or a JSON result envelope.
pub enum FetchResponsePlan {
    Raw { content_type: String, body: Vec<u8> },
    Json { jsonrpc: String, rpc_status: RpcStatus, result: ModerationResult },
}

/// The response for a fetch outcome. A raw response carries the document
/// bytes under its media type; without a document the plan falls back to
/// JSON. A JSON response carries the status and categories, and its
/// `data` is the document's data URI, or empty when no document is
/// returned.
pub fn plan_fetch_response(
    response_type: &ResponseType,
    document: Option<Document>,
    moderation_status: ModerationStatus,
    categories: Vec<ModerationCategories>,
) -> (r: FetchResponsePlan)
    ensures
        *response_type == ResponseType::Raw && document is Some ==> (r matches
            FetchResponsePlan::Raw {
            content_type,
            body,
        } && content_type@ == document->0.content_type@ && body@ == document->0.bytes@),
        *response_type == ResponseType::Json || document is None ==> (r matches
            FetchResponsePlan::Json { jsonrpc, rpc_status, result } && {
            &&& jsonrpc@ == "1.0.0"@
            &&& rpc_status == RpcStatus::Success
            &&& result.moderation_status == moderation_status
            &&& result.categories@ == categories@
            &&& match document {
                Some(d) => result.data@ == spec_data_url(d.content_type@, base64_of(d.bytes@)),
                None => result.data@.len() == 0,
            }
            &&& result.document is None
        }),
{
    match response_type {
        ResponseType::Raw => {
            match document {
                Some(doc) => FetchResponsePlan::Raw { content_type: doc.content_type, body: doc.bytes },
                Option::None => FetchResponsePlan::Json {
                    jsonrpc: rpc_version().to_owned(),
                    rpc_status: RpcStatus::Success,
                    result: ModerationResult {
                        moderation_status,
                        categories,
                        data: String::new(),
                        document: Option::None,
                    },
                },
            }
        },
        ResponseType::Json => {
            let data = match &document {
                Some(doc) => doc.to_url(),
                Option::None => String::new(),
            };
            FetchResponsePlan::Json {
                jsonrpc: rpc_version().to_owned(),
                rpc_status: RpcStatus::Success,
                result: ModerationResult {
                    moderation_status,
                    categories,
                    data,
                    document: Option::None,
                },
            }
        },
    }
}

/// The per-URL answer of the describe method.
#[derive(PartialEq, Eq, Structural, Clone, Copy, Debug)]
pub enum DocumentStatus {
    Blocked,
    Allowed,
    NeverSeen,
}

/// One describe answer.
pub struct DescribeResult {
    pub url: String,
    pub status: DocumentStatus,
    pub categories: Vec<ModerationCategories>,
    pub provider: ModerationService,
}

/// The describe response envelope.
pub struct DescribeResponse {
    pub jsonrpc: String,
    pub rpc_status: RpcStatus,
    pub result: Vec<DescribeResult>,
}

/// Whether `j` is the first stored row whose URL is `url`.
pub open spec fn row_match(rows: Seq<crate::store::ModRowView>, url: Seq<char>, j: int) -> bool {
    &&& 0 <= j < rows.len()
    &&& rows[j].url == url
    &&& forall|k: int| 0 <= k < j ==> rows[k].url != url
}

/// What one describe answer must say given the fetched rows.
pub open spec fn spec_describe_one(
    rows: Seq<crate::store::ModRowView>,
    url: Seq<char>,
    res: DescribeResult,
) -> bool {
    &&& res.url@ == url
    &&& if exists|j: int| row_match(rows, url, j) {
        let j = choose|j: int| row_match(rows, url, j);
        &&& res.status == if rows[j].blocked {
            DocumentStatus::Blocked
        } else {
            DocumentStatus::Allowed
        }
        &&& res.categories@ == rows[j].categories
        &&& res.provider == rows[j].provider
    } else {
        &&& res.status == DocumentStatus::NeverSeen
        &&& res.categories@.len() == 0
        &&& res.provider == ModerationService::Null
    }
}

/// Two first-match positions are the same position.
pub proof fn lemma_row_match_unique(rows: Seq<crate::store::ModRowView>, url: Seq<char>, i: int, j: int)
    requires
        row_match(rows, url, i),
        row_match(rows, url, j),
    ensures
        i == j,
{
    if i < j {
        assert(rows[i].url != url);
    }
    if j < i {
        assert(rows[j].url != url);
    }
}

/// Answers a describe request from the fetched verdict rows: one answer
/// per URL, in input order; a URL with no row answers `NeverSeen`, one
/// with a row reports that row's verdict.
pub fn describe(urls: &Vec<String>, rows: &Vec<DbModerationRow>) -> (r: Vec<DescribeResult>)
    ensures
        r@.len() == urls@.len(),
        forall|i: int|
            0 <= i < urls@.len() ==> spec_describe_one(
                rows@.map_values(|row: DbModerationRow| row@),
                urls@[i]@,
                #[trigger] r@[i],
            ),
{
    let ghost rv = rows@.map_values(|row: DbModerationRow| row@);
    proof {
        assert(rv.len() == rows@.len());
    }
    let mut out: Vec<DescribeResult> = Vec::new();
    let mut i: usize = 0;
    while i < urls.len()
        invariant
            rv == rows@.map_values(|row: DbModerationRow| row@),
            i <= urls@.len(),
            out@.len() == i,
            forall|k: int| 0 <= k < i ==> spec_describe_one(rv, urls@[k]@, #[trigger] out@[k]),
        decreases urls@.len() - i,
    {
        let url = &urls[i];
        let mut j: usize = 0;
        let mut found: Option<usize> = Option::None;
        while j < rows.len()
            invariant_except_break
                rv == rows@.map_values(|row: DbModerationRow| row@),
                rv.len() == rows@.len(),
                j <= rows@.len(),
                found is None,
                forall|k: int| 0 <= k < j ==> rv[k].url != url@,
            ensures
                rv.len() == rows@.len(),
                match found {
                    Some(f) => row_match(rv, url@, f as int) && f < rows@.len(),
                    None => forall|k: int| 0 <= k < rows@.len() ==> rv[k].url != url@,
                },
            decreases rows@.len() - j,
        {
            if str_eq(rows[j].url.as_str(), url.as_str()) {
                proof {
                    assert(rv[j as int] == rows@[j as int]@);
                    assert(rv[j as int].url == url@);
                    assert(row_match(rv, url@, j as int));
                }
                found = Some(j);
                break;
            }
            proof {
                assert(rv[j as int] == rows@[j as int]@);
            }
            j = j + 1;
        }
        let res = match found {
            Some(f) => {
                proof {
                    assert(exists|w: int| row_match(rv, url@, w)) by {
                        assert(row_match(rv, url@, f as int));
                    }
                    let w = choose|w: int| row_match(rv, url@, w);
                    lemma_row_match_unique(rv, url@, w, f as int);
                    assert(rv[f as int] == rows@[f as int]@);
                }
                let row = &rows[f];
                DescribeResult {
                    url: url.clone(),
                    status: if row.blocked {
                        DocumentStatus::Blocked
                    } else {
                        DocumentStatus::Allowed
                    },
                    categories: copy_categories(&row.categories),
                    provider: row.provider,
                }
            },
            Option::None => {
                proof {
                    assert forall|w: int| !row_match(rv, url@, w) by {
                        if row_match(rv, url@, w) {
                            assert(rv[w].url == url@);
                        }
                    }
                }
                DescribeResult {
                    url: url.clone(),
                    status: DocumentStatus::NeverSeen,
                    categories: Vec::new(),
                    provider: ModerationService::Null,
                }
            },
        };
        out.push(res);
        i = i + 1;
    }
    out
}

/// Builds the describe envelope with the fixed version.
pub fn describe_response(rpc_status: RpcStatus, results: Vec<DescribeResult>) -> (r:
    DescribeResponse)
    ensures
        r.jsonrpc@ == "1.0.0"@,
        r.rpc_status == rpc_status,
        r.result@ == results@,
{
    DescribeResponse { jsonrpc: rpc_version().to_owned(), rpc_status, result: results }
}

/// The result of the report method: the URL it acknowledged and the
/// request that carried it.
pub struct ReportResult {
    pub url: String,
    pub id: u128,
}

/// The report response envelope.
pub struct ReportResponse {
    pub jsonrpc: String,
    pub rpc_status: RpcStatus,
    pub result: ReportResult,
}

/// Builds the report acknowledgement with the fixed version.
pub fn report_response(rpc_status: RpcStatus, url: &str, req_id: u128) -> (r: ReportResponse)
    ensures
        r.jsonrpc@ == "1.0.0"@,
        r.rpc_status == rpc_status,
        r.result.url@ == url@,
        r.result.id == req_id,
{
    ReportResponse {
        jsonrpc: rpc_version().to_owned(),
        rpc_status,
        result: ReportResult { url: url.to_owned(), id: req_id },
    }
}

/// One row of the report listing.
pub struct ReportDescribeResult {
    pub url: String,
    pub categories: Vec<ModerationCategories>,
    pub id: u128,
    pub updated_at: i64,
}

/// The report-listing envelope.
pub struct ReportDescribeResponse {
    pub jsonrpc: String,
    pub rpc_status: RpcStatus,
    pub result: Vec<ReportDescribeResult>,
}

/// Lists all stored reports as describe rows, in stored order.
pub fn describe_report(rows: &Vec<DbReportRow>) -> (r: Vec<ReportDescribeResult>)
    ensures
        r@.len() == rows@.len(),
        forall|i: int|
            0 <= i < rows@.len() ==> {
                &&& (#[trigger] r@[i]).url@ == rows@[i].url@
                &&& r@[i].categories@ == rows@[i].categories@
                &&& r@[i].id == rows@[i].id
                &&& r@[i].updated_at == rows@[i].updated_at
            },
{
    let mut out: Vec<ReportDescribeResult> = Vec::new();
    let mut i: usize = 0;
    while i < rows.len()
        invariant
            i <= rows@.len(),
            out@.len() == i,
            forall|k: int|
                0 <= k < i ==> {
                    &&& (#[trigger] out@[k]).url@ == rows@[k].url@
                    &&& out@[k].categories@ == rows@[k].categories@
                    &&& out@[k].id == rows@[k].id
                    &&& out@[k].updated_at == rows@[k].updated_at
                },
        decreases rows@.len() - i,
    {
        let row = &rows[i];
        out.push(
            ReportDescribeResult {
                url: row.url.clone(),
                categories: copy_categories(&row.categories),
                id: row.id,
                updated_at: row.updated_at,
            },
        );
        i = i + 1;
    }
    out
}

/// Builds the report-listing envelope with the fixed version.
pub fn report_describe_response(rpc_status: RpcStatus, results: Vec<ReportDescribeResult>) -> (r:
    ReportDescribeResponse)
    ensures
        r.jsonrpc@ == "1.0.0"@,
        r.rpc_status == rpc_status,
        r.result@ == results@,
{
    ReportDescribeResponse { jsonrpc: rpc_version().to_owned(), rpc_status, result: results }
}

} // verus!
