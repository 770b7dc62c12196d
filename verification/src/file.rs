use vstd::prelude::*;

use crate::error::{fail, failure, Error};
use crate::json::JsonMap;
use crate::text::{has_control, is_blank, scan_text};

verus! {

/// Telegram file object.
#[derive(Debug)]
pub struct File {
    pub file_id: String,
    pub file_unique_id: String,
    pub file_size: Option<u64>,
    pub file_path: Option<String>,
    /// Fields of the response that this model does not name.
    pub extra: JsonMap,
}

/// `getFile` request.
#[derive(Clone, Debug)]
pub struct GetFileRequest {
    pub file_id: String,
}

/// Why a `GetFileRequest` is refused.
pub open spec fn get_file_failure(r: GetFileRequest) -> Option<Seq<char>> {
    if is_blank(r.file_id@) {
        Some("file_id cannot be empty"@)
    } else if has_control(r.file_id@) {
        Some("file_id must not contain control characters"@)
    } else {
        None
    }
}

impl GetFileRequest {
    pub fn new(file_id: String) -> (r: Self)
        ensures
            r.file_id == file_id,
    {
        GetFileRequest { file_id }
    }

    pub fn validate(&self) -> (r: Result<(), Error>)
        ensures
            failure(r) == get_file_failure(*self),
    {
        let scan = scan_text(self.file_id.as_str());
        if scan.blank {
            return fail("file_id cannot be empty");
        }
        if scan.control {
            return fail("file_id must not contain control characters");
        }
        Ok(())
    }
}

} // verus!
