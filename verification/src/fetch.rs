use vstd::prelude::*;

use crate::errors::FetchError;
use crate::mrpack::ModpackFile;
use crate::paths::is_safe_rel_path;
use crate::paths::join_path;
use crate::paths::joined_path;
use crate::paths::safe_rel_path;

verus! {

/// Everything the transport needs to fetch one manifest entry: the URL to
/// request and the destination file path under the installation root.
#[derive(Debug, Clone, PartialEq, Eq)]
pub struct FetchPlan {
    pub url: String,
    pub dest: String,
}

pub ghost struct FetchPlanView {
    pub url: Seq<char>,
    pub dest: Seq<char>,
}

impl View for FetchPlan {
    type V = FetchPlanView;

    open spec fn view(&self) -> FetchPlanView {
        FetchPlanView { url: self.url@, dest: self.dest@ }
    }
}

/// Validates one manifest entry and plans its fetch, before any network
/// activity: the entry must list at least one candidate URL, and its
/// declared path must stay within the installation root. The first listed
/// URL is the one fetched.
pub fn plan_fetch(file: &ModpackFile, instance_dir: &str) -> (r: Result<FetchPlan, FetchError>)
    ensures
        r is Ok <==> (file@.downloads.len() > 0 && safe_rel_path(file@.path)),
        r matches Ok(p) ==> p@.url == file@.downloads[0] && p@.dest == joined_path(
            instance_dir@,
            file@.path,
        ),
        r matches Err(e) ==> ((e matches FetchError::NoDownloads(s) && s@ == file@.path
            && file@.downloads.len() == 0) || (e matches FetchError::PathTraversalRejected(s)
            && s@ == file@.path && file@.downloads.len() > 0 && !safe_rel_path(file@.path))),
{
    if file.downloads.len() == 0 {
        return Err(FetchError::NoDownloads(file.path.clone()));
    }
    if !is_safe_rel_path(file.path.as_str()) {
        return Err(FetchError::PathTraversalRejected(file.path.clone()));
    }
    let url = file.downloads[0].clone();
    let dest = join_path(instance_dir, file.path.as_str());
    proof {
        assert(url@ == file@.downloads[0]);
    }
    Ok(FetchPlan { url: url, dest: dest })
}

/// Classifies an HTTP status line: the two-hundreds are success, anything
/// else fails the fetch with the status carried along.
pub fn check_status(status: u16) -> (r: Result<(), FetchError>)
    ensures
        r is Ok <==> 200 <= status < 300,
        r matches Err(e) ==> e == FetchError::HttpStatus(status),
{
    if 200 <= status && status < 300 {
        Ok(())
    } else {
        Err(FetchError::HttpStatus(status))
    }
}

} // verus!
