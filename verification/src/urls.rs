//! The worker's task API addresses.
//!
//! Every task-scoped call is addressed at a fixed local host and port;
//! the task token is spliced into the path (and, for uploads, repeated as
//! a query parameter). Each builder's contract gives the exact character
//! sequence of the address it returns.

use vstd::prelude::*;
use vstd::string::StringExecFns;

verus! {

/// The fixed base address the worker's API is served at.
pub open spec fn base_spec() -> Seq<char> {
    "http://localhost:3000"@
}

/// The address of the task initialize call.
pub open spec fn init_url_spec() -> Seq<char> {
    base_spec() + "/task/new/init"@
}

/// The address of one upload call for the task `token`.
pub open spec fn upload_url_spec(token: Seq<char>) -> Seq<char> {
    base_spec() + "/task/new/upload/"@ + token + "?token="@ + token
}

/// The address of the commit call for the task `token`.
pub open spec fn commit_url_spec(token: Seq<char>) -> Seq<char> {
    base_spec() + "/task/new/commit/"@ + token
}

/// The address of the status poll call for the task `token`.
pub open spec fn info_url_spec(token: Seq<char>) -> Seq<char> {
    base_spec() + "/task/"@ + token + "/info"@
}

/// The address of the result archive download for the task `token`.
pub open spec fn download_url_spec(token: Seq<char>) -> Seq<char> {
    base_spec() + "/task/"@ + token + "/download/all.zip"@
}

/// The address of the task removal call.
pub open spec fn remove_url_spec() -> Seq<char> {
    base_spec() + "/task/remove"@
}

pub fn init_url() -> (r: String)
    ensures
        r@ == init_url_spec(),
{
    String::from_str("http://localhost:3000").concat("/task/new/init")
}

pub fn upload_url(token: &str) -> (r: String)
    ensures
        r@ == upload_url_spec(token@),
{
    String::from_str("http://localhost:3000").concat("/task/new/upload/").concat(token).concat(
        "?token=",
    ).concat(token)
}

pub fn commit_url(token: &str) -> (r: String)
    ensures
        r@ == commit_url_spec(token@),
{
    String::from_str("http://localhost:3000").concat("/task/new/commit/").concat(token)
}

pub fn info_url(token: &str) -> (r: String)
    ensures
        r@ == info_url_spec(token@),
{
    String::from_str("http://localhost:3000").concat("/task/").concat(token).concat("/info")
}

pub fn download_url(token: &str) -> (r: String)
    ensures
        r@ == download_url_spec(token@),
{
    String::from_str("http://localhost:3000").concat("/task/").concat(token).concat(
        "/download/all.zip",
    )
}

pub fn remove_url() -> (r: String)
    ensures
        r@ == remove_url_spec(),
{
    String::from_str("http://localhost:3000").concat("/task/remove")
}

} // verus!
