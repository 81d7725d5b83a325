//! Names of the Drive backup files of each organisation.
use vstd::prelude::*;
use crate::orgs::{spec_suffix, suffix};
use crate::text::concat2;

verus! {

/// Drive file name of an organisation's matrix backup; the default organisation
/// keeps the unsuffixed name.
pub fn matrix_file(org_id: &str) -> (r: String)
    ensures
        r@ == spec_suffix("sre_matrix_data.json"@, org_id@),
{
    suffix("sre_matrix_data.json", org_id)
}

/// Drive file name of an organisation's roadmap backup; the default organisation
/// keeps the unsuffixed name.
pub fn roadmap_file(org_id: &str) -> (r: String)
    ensures
        r@ == spec_suffix("sre_roadmap_data.json"@, org_id@),
{
    suffix("sre_roadmap_data.json", org_id)
}

/// The Drive files endpoint.
pub const DRIVE_API: &'static str = "https://www.googleapis.com/drive/v3/files";

/// The Drive upload endpoint.
pub const UPLOAD_API: &'static str = "https://www.googleapis.com/upload/drive/v3/files";

/// The Drive search for the backup file `file_name` in the private app folder,
/// leaving out trashed files.
pub open spec fn spec_search_query(file_name: Seq<char>) -> Seq<char> {
    "name='"@ + file_name + "' and 'appDataFolder' in parents and trashed=false"@
}

/// The Drive search query for the backup file `file_name`.
pub fn search_query(file_name: &str) -> (r: String)
    ensures
        r@ == spec_search_query(file_name@),
{
    let mut q = concat2("name='", file_name);
    q.append("' and 'appDataFolder' in parents and trashed=false");
    q
}

/// Where a backup is written: into the file that the search found, or into a new
/// file created in the app folder first.
#[derive(Clone, Debug, PartialEq)]
pub enum UploadTarget {
    Existing(String),
    Create,
}

/// Where a backup is written, from the id of the first file the search found.
pub fn upload_target(found: Option<String>) -> (r: UploadTarget)
    ensures
        match found {
            Some(id) => r == UploadTarget::Existing(id),
            None => r == UploadTarget::Create,
        },
{
    match found {
        Some(id) => UploadTarget::Existing(id),
        None => UploadTarget::Create,
    }
}

/// The address that replaces the contents of the Drive file `file_id` (a media
/// upload).
pub fn upload_url(file_id: &str) -> (r: String)
    ensures
        r@ == UPLOAD_API@ + "/"@ + file_id@ + "?uploadType=media"@,
{
    let mut u = concat2(UPLOAD_API, "/");
    u.append(file_id);
    u.append("?uploadType=media");
    u
}

/// The address that downloads the contents of the Drive file `file_id`.
pub fn download_url(file_id: &str) -> (r: String)
    ensures
        r@ == DRIVE_API@ + "/"@ + file_id@ + "?alt=media"@,
{
    let mut u = concat2(DRIVE_API, "/");
    u.append(file_id);
    u.append("?alt=media");
    u
}

} // verus!
