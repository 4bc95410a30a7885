use vstd::prelude::*;
use crate::decimal::{decimal, decimal_string};
use crate::types::{DownloadCategory, DownloadToken, PackageType};

verus! {

/// Login: POST with a form of user name and password, no authorisation.
pub open spec fn login_path() -> Seq<char> {
    "https://lastkajen.trafikverket.se/api/Identity/Login"@
}

/// Listing of the published data packages.
pub open spec fn published_packages_path() -> Seq<char> {
    "https://lastkajen.trafikverket.se/api/DataPackage/GetPublishedDataPackages"@
}

/// Listing of the files of one data package; its id follows.
pub open spec fn package_files_prefix() -> Seq<char> {
    "https://lastkajen.trafikverket.se/api/DataPackage/GetDataPackageFiles/"@
}

/// Listing of the user's own files.
pub open spec fn user_files_path() -> Seq<char> {
    "https://lastkajen.trafikverket.se/api/file/GetUserFiles"@
}

/// Download token for a user file; the file name follows.
pub open spec fn user_token_prefix() -> Seq<char> {
    "https://lastkajen.trafikverket.se/api/file/GetUserFileDownloadToken?fileName="@
}

/// Download token for a file of a published package; the package id follows.
pub open spec fn published_token_prefix() -> Seq<char> {
    "https://lastkajen.trafikverket.se/api/file/GetDataPackageDownloadToken?id="@
}

/// Separates the package id from the file name in a published token request.
pub open spec fn file_name_param() -> Seq<char> {
    "&fileName="@
}

/// Byte stream of a user file; the download token follows.
pub open spec fn user_stream_prefix() -> Seq<char> {
    "https://lastkajen.trafikverket.se/api/file/GetFileStream?token="@
}

/// Byte stream of a published package file; the download token follows.
pub open spec fn published_stream_prefix() -> Seq<char> {
    "https://lastkajen.trafikverket.se/api/file/GetDataPackageFile?token="@
}

/// The address at which a download token for the requested file is issued.
pub open spec fn token_url(category: DownloadCategory) -> Seq<char> {
    match category {
        DownloadCategory::Published { id, file } => published_token_prefix() + decimal(*id as nat)
            + file_name_param() + file@,
        DownloadCategory::User { file } => user_token_prefix() + file@,
    }
}

/// The address from which the file of a download token is streamed.
pub open spec fn stream_url(token: DownloadToken) -> Seq<char> {
    match token {
        DownloadToken::Published(t) => published_stream_prefix() + t@,
        DownloadToken::User(t) => user_stream_prefix() + t@,
    }
}

/// Address of the login endpoint.
pub fn login_url() -> (r: String)
    ensures
        r@ == login_path(),
{
    String::from_str("https://lastkajen.trafikverket.se/api/Identity/Login")
}

/// The form sent to the login endpoint: the user name and the password under
/// the field names that the service expects.
pub fn login_form(user_name: String, password: String) -> (r: Vec<(String, String)>)
    ensures
        r@.len() == 2,
        r@[0].0@ == "UserName"@,
        r@[0].1@ == user_name@,
        r@[1].0@ == "Password"@,
        r@[1].1@ == password@,
{
    let mut form: Vec<(String, String)> = Vec::new();
    form.push((String::from_str("UserName"), user_name));
    form.push((String::from_str("Password"), password));
    form
}

/// Address of the listing of published data packages.
pub fn published_packages_url() -> (r: String)
    ensures
        r@ == published_packages_path(),
{
    String::from_str("https://lastkajen.trafikverket.se/api/DataPackage/GetPublishedDataPackages")
}

/// Address of the file listing of the data package with the given id.
pub fn package_files_url(id: usize) -> (r: String)
    ensures
        r@ == package_files_prefix() + decimal(id as nat),
{
    let mut url = String::from_str(
        "https://lastkajen.trafikverket.se/api/DataPackage/GetDataPackageFiles/",
    );
    let digits = decimal_string(id);
    url.append(digits.as_str());
    url
}

/// Address of the listing of the user's own files.
pub fn user_files_url() -> (r: String)
    ensures
        r@ == user_files_path(),
{
    String::from_str("https://lastkajen.trafikverket.se/api/file/GetUserFiles")
}

/// Address at which a download token for the requested file is issued: the
/// published-package endpoint with id and file name, or the user-file endpoint
/// with the file name alone.
pub fn download_token_url(category: &DownloadCategory) -> (r: String)
    ensures
        r@ == token_url(*category),
{
    match category {
        DownloadCategory::Published { id, file } => {
            let mut url = String::from_str(
                "https://lastkajen.trafikverket.se/api/file/GetDataPackageDownloadToken?id=",
            );
            let digits = decimal_string(**id);
            url.append(digits.as_str());
            url.append("&fileName=");
            url.append(file.as_str());
            url
        },
        DownloadCategory::User { file } => {
            let mut url = String::from_str(
                "https://lastkajen.trafikverket.se/api/file/GetUserFileDownloadToken?fileName=",
            );
            url.append(file.as_str());
            url
        },
    }
}

/// Tags the token text that the service issued for a request with the kind of
/// that request, so that a token can only be spent at its own endpoint.
pub fn token_for(category: &DownloadCategory, text: String) -> (r: DownloadToken)
    ensures
        r.kind() == category.kind(),
        r.text() == text@,
{
    match category {
        DownloadCategory::Published { .. } => DownloadToken::Published(text),
        DownloadCategory::User { .. } => DownloadToken::User(text),
    }
}

/// Address from which the file of a download token is streamed. The two kinds
/// of token are spent at different endpoints.
pub fn download_url(token: &DownloadToken) -> (r: String)
    ensures
        r@ == stream_url(*token),
{
    match token {
        DownloadToken::Published(t) => {
            let mut url = String::from_str(
                "https://lastkajen.trafikverket.se/api/file/GetDataPackageFile?token=",
            );
            url.append(t.as_str());
            url
        },
        DownloadToken::User(t) => {
            let mut url = String::from_str(
                "https://lastkajen.trafikverket.se/api/file/GetFileStream?token=",
            );
            url.append(t.as_str());
            url
        },
    }
}

/// A token is always spent at the stream endpoint of its own kind and never at
/// the other: its address starts with the prefix of its own kind and not with
/// that of the other kind.
pub proof fn lemma_stream_endpoint_matches_kind(token: DownloadToken)
    ensures
        token.kind() == PackageType::Published ==> {
            &&& published_stream_prefix().is_prefix_of(stream_url(token))
            &&& !user_stream_prefix().is_prefix_of(stream_url(token))
        },
        token.kind() == PackageType::User ==> {
            &&& user_stream_prefix().is_prefix_of(stream_url(token))
            &&& !published_stream_prefix().is_prefix_of(stream_url(token))
        },
{
    reveal_strlit("https://lastkajen.trafikverket.se/api/file/GetFileStream?token=");
    reveal_strlit("https://lastkajen.trafikverket.se/api/file/GetDataPackageFile?token=");
    let u = user_stream_prefix();
    let p = published_stream_prefix();
    let k = 46int;
    assert(u[k] == 'F');
    assert(p[k] == 'D');
    let s = stream_url(token);
    match token {
        DownloadToken::Published(t) => {
            assert(s.subrange(0, p.len() as int) =~= p);
            assert(s[k] == 'D');
        },
        DownloadToken::User(t) => {
            assert(s.subrange(0, u.len() as int) =~= u);
            assert(s[k] == 'F');
        },
    }
}

} // verus!
