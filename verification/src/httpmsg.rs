//! Pure parts of the webhook ingestion endpoint: its configuration, the
//! record it hands to the application, the Content-Type dispatch, and the
//! naming of stored files.

use vstd::prelude::*;
use vstd::string::StringExecFns;

use crate::strutil::dec_str;
use crate::strutil::lower_seq;
use crate::strutil::starts_with_ci;
use crate::strutil::starts_with_spec;
use crate::strutil::u64_to_dec_string;

verus! {

/// Where the ingestion endpoint listens and stores received files.
#[derive(Debug, Clone)]
pub struct HttpServerConfig {
    pub port: u16,
    pub storage_path: String,
}

impl Default for HttpServerConfig {
    fn default() -> (r: Self)
        ensures
            r.port == 9527,
            r.storage_path@ == "./received_files"@,
    {
        HttpServerConfig { port: 9527, storage_path: String::from_str("./received_files") }
    }
}

/// One accepted payload, as returned to the sender and handed to the
/// application's callback.
#[derive(Debug, Clone)]
pub struct ReceivedMessageInfo {
    pub id: String,
    pub request_id: String,
    pub content_type: Option<String>,
    pub file_name: Option<String>,
    pub file_path: Option<String>,
    pub file_size: Option<i64>,
    pub raw_data: Option<String>,
}

/// How a request body is handled, decided by its Content-Type.
#[derive(Debug, Clone, Copy, PartialEq, Eq, Structural)]
pub enum PayloadKind {
    Json,
    Multipart,
    Unsupported,
}

/// The payload kind a Content-Type header denotes, matched on its
/// case-folded prefix.
pub open spec fn payload_kind_spec(ct: Seq<char>) -> PayloadKind {
    if starts_with_spec(lower_seq(ct), lower_seq("application/json"@)) || starts_with_spec(
        lower_seq(ct),
        lower_seq("text/json"@),
    ) {
        PayloadKind::Json
    } else if starts_with_spec(lower_seq(ct), lower_seq("multipart/form-data"@)) {
        PayloadKind::Multipart
    } else {
        PayloadKind::Unsupported
    }
}

pub fn classify_content_type(ct: &str) -> (r: PayloadKind)
    ensures
        r == payload_kind_spec(ct@),
{
    if starts_with_ci(ct, "application/json") || starts_with_ci(ct, "text/json") {
        PayloadKind::Json
    } else if starts_with_ci(ct, "multipart/form-data") {
        PayloadKind::Multipart
    } else {
        PayloadKind::Unsupported
    }
}

/// The seconds-since-epoch label used in stored file names, written in
/// decimal.
pub fn chrono_lite_timestamp(unix_secs: u64) -> (r: String)
    ensures
        r@ == dec_str(unix_secs as nat),
{
    u64_to_dec_string(unix_secs)
}

/// The name under which a received file is stored: timestamp, a short id,
/// and the file extension.
pub fn join_timestamped_name(ts: &str, short_id: &str, ext: &str) -> (r: String)
    ensures
        r@ == ts@ + "_"@ + short_id@ + "."@ + ext@,
{
    let r = ts.to_owned().concat("_").concat(short_id).concat(".").concat(ext);
    proof {
        assert(r@ =~= ts@ + "_"@ + short_id@ + "."@ + ext@);
    }
    r
}

} // verus!
