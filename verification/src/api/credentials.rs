//! Credential documents and e-signatures: response shapes, request bodies,
//! the checks on the console's forms, and the request paths.
//!
//! Identifiers are UUIDs, held as their 128-bit value and written in paths in
//! the hyphenated lower-case form.

use vstd::prelude::*;
use crate::api::hex_lower;
use crate::api::staffing::page_query;
use crate::text::{nat_digits, non_blank, non_blank_exec, push_u64, trim_ws, trimmed};

verus! {

pub use crate::api::ops::Page;

// ── UUID text ────────────────────────────────────────────────────────────────

/// `16^n`.
pub open spec fn pow16(n: nat) -> nat
    decreases n,
{
    if n == 0 {
        1
    } else {
        16 * pow16((n - 1) as nat)
    }
}

/// The 32 lower-case hexadecimal digits of `v`, most significant first.
pub open spec fn uuid_digits(v: u128) -> Seq<char> {
    Seq::new(32, |i: int| hex_lower((v as int / pow16((31 - i) as nat) as int) % 16))
}

/// The hyphenated form of the UUID whose big-endian value is `v`: its digits
/// in groups of 8, 4, 4, 4 and 12 joined by `-`.
pub open spec fn uuid_text(v: u128) -> Seq<char> {
    let d = uuid_digits(v);
    d.subrange(0, 8) + seq!['-'] + d.subrange(8, 12) + seq!['-'] + d.subrange(12, 16) + seq!['-']
        + d.subrange(16, 20) + seq!['-'] + d.subrange(20, 32)
}

/// `uuid::Uuid::from_u128(id).to_string()`.
///
/// Trusted: `from_u128` takes the value big-endian and `Display` writes the
/// lower-case hyphenated form, so the result is `uuid_text(id)`.
#[verifier::external_body]
pub(crate) fn uuid_string(id: u128) -> (r: String)
    ensures
        r@ == uuid_text(id),
{
    uuid::Uuid::from_u128(id).to_string()
}

// ── Response types ───────────────────────────────────────────────────────────

#[derive(Debug, Clone, PartialEq)]
pub struct CredentialRow {
    pub id: u128,
    pub contractor_id: u128,
    pub document_type: String,
    pub file_name: String,
    pub file_path: String,
    pub file_size_bytes: i32,
    pub mime_type: String,
    pub fingerprint: String,
    pub expires_at: Option<String>,
    pub status: String,
    pub uploaded_by: Option<u128>,
    pub uploaded_at: String,
    pub reviewed_by: Option<u128>,
    pub reviewed_at: Option<String>,
    pub review_notes: Option<String>,
}

#[derive(Debug, Clone, PartialEq)]
pub struct CredentialAuditEntry {
    pub id: i64,
    pub credential_id: u128,
    pub action: String,
    pub performed_by: Option<u128>,
    pub viewer_name: Option<String>,
    pub ip_address: Option<String>,
    /// The entry's JSON payload, as text.
    pub data: Option<String>,
    pub created_at: String,
}

#[derive(Debug, Clone, PartialEq)]
pub struct EsignatureRow {
    pub id: u128,
    pub entity_type: String,
    pub entity_id: u128,
    pub signer_name: String,
    pub signed_date: String,
    pub signature_image_path: Option<String>,
    pub created_at: String,
}

/// A single credential as the backend returns it, with the viewer's
/// watermark.
#[derive(Debug, Clone, PartialEq)]
pub struct CredentialDetail {
    pub credential: CredentialRow,
    pub watermark: String,
}

// ── Request bodies ───────────────────────────────────────────────────────────

#[derive(Debug)]
pub struct ReviewBody {
    pub status: String,
    pub review_notes: Option<String>,
}

impl ReviewBody {
    /// The review of a credential: the chosen status, and the notes trimmed,
    /// left out when blank.
    pub fn new(status: &str, notes: &str) -> (r: ReviewBody)
        ensures
            r.status@ == status@,
            r.review_notes is None <==> non_blank(notes@) is None,
            r.review_notes matches Some(n) ==> non_blank(notes@) == Some(n@),
    {
        ReviewBody { status: status.to_owned(), review_notes: non_blank_exec(notes) }
    }
}

#[derive(Debug)]
pub struct EsignBody {
    pub signer_name: String,
    pub signed_date: String,
}

/// The message when the signer's name or the date is missing.
pub const ESIGN_REQUIRED: &'static str = "Signer name and date are required.";

impl EsignBody {
    /// The e-signature form: both fields trimmed, and both required.
    pub fn from_form(name: &str, date: &str) -> (r: Result<EsignBody, &'static str>)
        ensures
            r is Err <==> (trim_ws(name@).len() == 0 || trim_ws(date@).len() == 0),
            r matches Err(m) ==> m@ == ESIGN_REQUIRED@,
            r matches Ok(b) ==> b.signer_name@ == trim_ws(name@) && b.signed_date@ == trim_ws(date@),
    {
        let n = trimmed(name);
        let d = trimmed(date);
        if n.as_str().is_empty() || d.as_str().is_empty() {
            Err(ESIGN_REQUIRED)
        } else {
            Ok(EsignBody { signer_name: n, signed_date: d })
        }
    }
}

#[derive(Debug)]
pub struct CreateEsignBody {
    pub entity_type: String,
    pub entity_id: u128,
    pub signer_name: String,
    pub signed_date: String,
}

/// The fields of a credential upload, besides the file itself.
#[derive(Debug, Clone, PartialEq)]
pub struct UploadFields {
    pub contractor_id: String,
    pub document_type: String,
    pub expires_at: Option<String>,
}

pub const CONTRACTOR_REQUIRED: &'static str = "Contractor ID is required.";

pub const DOCUMENT_TYPE_REQUIRED: &'static str = "Document type is required.";

/// The message that refuses an upload form, if any: the contractor first,
/// then the document type.
pub open spec fn upload_error(contractor: Seq<char>, doc_type: Seq<char>) -> Option<Seq<char>> {
    if trim_ws(contractor).len() == 0 {
        Some(CONTRACTOR_REQUIRED@)
    } else if trim_ws(doc_type).len() == 0 {
        Some(DOCUMENT_TYPE_REQUIRED@)
    } else {
        None
    }
}

impl UploadFields {
    /// The upload form's fields, trimmed: the contractor and the document
    /// type are required, the expiry date is sent only when given.
    pub fn from_form(contractor: &str, doc_type: &str, expires: &str) -> (r: Result<
        UploadFields,
        &'static str,
    >)
        ensures
            r is Err <==> upload_error(contractor@, doc_type@) is Some,
            r matches Err(m) ==> upload_error(contractor@, doc_type@) == Some(m@),
            r matches Ok(f) ==> f.contractor_id@ == trim_ws(contractor@) && f.document_type@
                == trim_ws(doc_type@),
            r matches Ok(f) ==> (f.expires_at is None <==> non_blank(expires@) is None),
            r matches Ok(f) ==> (f.expires_at matches Some(e) ==> non_blank(expires@) == Some(e@)),
    {
        let c = trimmed(contractor);
        if c.as_str().is_empty() {
            return Err(CONTRACTOR_REQUIRED);
        }
        let d = trimmed(doc_type);
        if d.as_str().is_empty() {
            return Err(DOCUMENT_TYPE_REQUIRED);
        }
        Ok(UploadFields { contractor_id: c, document_type: d, expires_at: non_blank_exec(expires) })
    }
}

// ── Request paths ────────────────────────────────────────────────────────────

/// Path of an upload (`POST`, multipart).
pub const CREDENTIALS_PATH: &'static str = "/api/v1/credentials";

/// Path of the expiry sweep (`POST`).
pub const EXPIRE_PATH: &'static str = "/api/v1/credentials/expire";

/// Path for creating an e-signature on any entity (`POST`).
pub const ESIGNATURES_PATH: &'static str = "/api/v1/esignatures";

/// Path of the credential listing: page, 20 per page, then the contractor
/// and the status when given.
pub open spec fn list_credentials_path_spec(
    contractor_id: Option<u128>,
    status: Option<Seq<char>>,
    page: i64,
) -> Seq<char> {
    "/api/v1/credentials"@ + page_query(page) + match contractor_id {
        Some(c) => "&contractor_id="@ + uuid_text(c),
        None => Seq::empty(),
    } + match status {
        Some(s) => "&status="@ + s,
        None => Seq::empty(),
    }
}

pub fn list_credentials_path(contractor_id: Option<u128>, status: Option<&str>, page: i64) -> (r: String)
    ensures
        r@ == list_credentials_path_spec(
            contractor_id,
            match status {
                Some(s) => Some(s@),
                None => None,
            },
            page,
        ),
{
    let mut s = "/api/v1/credentials".to_owned();
    s.append("?page=");
    crate::text::push_i64(&mut s, page);
    s.append("&per_page=20");
    let ghost base = s@;
    match contractor_id {
        Some(c) => {
            s.append("&contractor_id=");
            let u = uuid_string(c);
            s.append(u.as_str());
        },
        None => {},
    }
    let ghost mid = s@;
    match status {
        Some(x) => {
            s.append("&status=");
            s.append(x);
        },
        None => {},
    }
    assert(s@ =~= list_credentials_path_spec(
        contractor_id,
        match status {
            Some(x) => Some(x@),
            None => None,
        },
        page,
    ));
    s
}

/// `"/api/v1/credentials/" + id + suffix`.
pub open spec fn credential_path_spec(id: u128, suffix: Seq<char>) -> Seq<char> {
    "/api/v1/credentials/"@ + uuid_text(id) + suffix
}

fn credential_path_with(id: u128, suffix: &str) -> (r: String)
    ensures
        r@ == credential_path_spec(id, suffix@),
{
    let mut s = "/api/v1/credentials/".to_owned();
    let u = uuid_string(id);
    s.append(u.as_str());
    s.append(suffix);
    s
}

/// Path of one credential (viewing it is audited).
pub fn credential_path(id: u128) -> (r: String)
    ensures
        r@ == "/api/v1/credentials/"@ + uuid_text(id),
{
    let s = credential_path_with(id, "");
    proof {
        reveal_strlit("");
        assert(s@ =~= "/api/v1/credentials/"@ + uuid_text(id));
    }
    s
}

/// Path of a credential's review (`PATCH`).
pub fn review_path(id: u128) -> (r: String)
    ensures
        r@ == credential_path_spec(id, "/review"@),
{
    credential_path_with(id, "/review")
}

/// Path of a credential's audit trail.
pub fn audit_path(id: u128) -> (r: String)
    ensures
        r@ == credential_path_spec(id, "/audit"@),
{
    credential_path_with(id, "/audit")
}

/// Path of a credential's e-signature (`POST`).
pub fn esign_path(id: u128) -> (r: String)
    ensures
        r@ == credential_path_spec(id, "/esign"@),
{
    credential_path_with(id, "/esign")
}

/// Path of the e-signatures of an entity (credential, order or assignment).
pub fn esignatures_path(entity_type: &str, entity_id: u128) -> (r: String)
    ensures
        r@ == "/api/v1/esignatures/"@ + entity_type@ + seq!['/'] + uuid_text(entity_id),
{
    let mut s = "/api/v1/esignatures/".to_owned();
    s.append(entity_type);
    crate::text::push_char(&mut s, '/');
    let u = uuid_string(entity_id);
    s.append(u.as_str());
    s
}

// ── Expiry sweep ─────────────────────────────────────────────────────────────

/// The `expired_count` number of a JSON body, as `serde_json` reads it.
pub uninterp spec fn json_expired_count(text: Seq<char>) -> Option<u64>;

/// Parses `text` as JSON with `serde_json` and picks `expired_count` as a
/// `u64`.
///
/// Trusted: the result is a function of the text alone, named
/// `json_expired_count`; what that function is is left unsaid.
#[verifier::external_body]
fn expired_count_field(text: &str) -> (r: Option<u64>)
    ensures
        r == json_expired_count(text@),
{
    serde_json::from_str::<serde_json::Value>(text).ok().and_then(|v| v["expired_count"].as_u64())
}

/// `"Sweep complete — <n> credential(s) expired."`.
pub open spec fn sweep_message_spec(n: u64) -> Seq<char> {
    "Sweep complete — "@ + nat_digits(n as nat) + " credential(s) expired."@
}

/// The notice after an expiry sweep that expired `n` credentials.
pub fn sweep_message(n: u64) -> (r: String)
    ensures
        r@ == sweep_message_spec(n),
{
    let mut s = "Sweep complete — ".to_owned();
    push_u64(&mut s, n);
    s.append(" credential(s) expired.");
    s
}

/// The notice for the sweep's response body: its `expired_count`, or 0 when
/// the body has none.
pub fn sweep_message_of_body(body: &str) -> (r: String)
    ensures
        r@ == sweep_message_spec(
            match json_expired_count(body@) {
                Some(n) => n,
                None => 0,
            },
        ),
{
    let n = match expired_count_field(body) {
        Some(n) => n,
        None => 0,
    };
    sweep_message(n)
}

/// Number of pages of 20 for `total` credentials, `(total + 19) / 20` with
/// the quotient rounded toward zero.
pub fn total_pages(total: i64) -> (r: i64)
    requires
        total <= i64::MAX - 19,
    ensures
        total + 19 >= 0 ==> r == (total + 19) / 20,
        total + 19 < 0 ==> r == -((-(total + 19)) / 20),
{
    (total + 19) / 20
}

} // verus!
