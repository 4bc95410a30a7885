use vstd::prelude::*;

verus! {

/// Bearer token handed out by the login endpoint.
#[derive(Debug, Clone, PartialEq, Eq)]
pub struct Token {
    pub access_token: String,
    pub expires_in: usize,
    pub is_external: bool,
}

/// The kind of a data collection offered by the service.
#[derive(Debug, Clone, Copy, PartialEq, Eq, Structural)]
pub enum PackageType {
    Published,
    User,
}

/// Where a published package is organised on the server.
#[derive(Debug, Clone)]
pub struct TargetFolder {
    pub id: usize,
    pub name: String,
    pub path: String,
}

/// A published data package.
#[derive(Debug, Clone)]
pub struct DataPackageFolder {
    pub id: usize,
    pub target_folder: TargetFolder,
    pub source_folder: String,
    pub name: String,
    pub description: String,
    pub published: bool,
}

/// A hypermedia link attached to a file entry.
#[derive(Debug, Clone)]
pub struct FileLink {
    pub href: String,
    pub rel: String,
    pub method: String,
    pub is_templated: bool,
}

/// A file (or sub-folder) of a published data package.
#[derive(Debug, Clone)]
pub struct DataPackageFile {
    pub is_folder: bool,
    pub name: String,
    pub size: String,
    pub date_time: String,
    pub links: Vec<FileLink>,
}

/// A file of the user's own orders.
#[derive(Debug, Clone)]
pub struct UserFile {
    pub is_folder: bool,
    pub name: String,
    pub size: String,
    pub date_time: String,
}

/// What to download: a file of a published package, or one of the user's files.
pub enum DownloadCategory<'a> {
    Published { id: &'a usize, file: &'a String },
    User { file: &'a String },
}

/// A single-use download token, tagged with the kind of file it was issued for.
#[derive(Debug, Clone, PartialEq, Eq)]
pub enum DownloadToken {
    Published(String),
    User(String),
}

impl<'a> DownloadCategory<'a> {
    /// The kind of file that is requested.
    pub open spec fn kind(&self) -> PackageType {
        match self {
            DownloadCategory::Published { .. } => PackageType::Published,
            DownloadCategory::User { .. } => PackageType::User,
        }
    }
}

impl DownloadToken {
    /// The kind of file the token was issued for.
    pub open spec fn kind(&self) -> PackageType {
        match self {
            DownloadToken::Published(_) => PackageType::Published,
            DownloadToken::User(_) => PackageType::User,
        }
    }

    /// The token text itself.
    pub open spec fn text(&self) -> Seq<char> {
        match self {
            DownloadToken::Published(t) => t@,
            DownloadToken::User(t) => t@,
        }
    }
}

/// The moment a token obtained at `now` stops being valid, in seconds: `now`
/// plus its lifetime, held at the largest representable moment.
pub open spec fn expiry_moment(now: int, expires_in: int) -> int {
    if now + expires_in > i64::MAX {
        i64::MAX as int
    } else {
        now + expires_in
    }
}

impl Token {
    /// The moment, in seconds since the Unix epoch, at which this token
    /// expires when it was obtained at `now`. For the caller's information:
    /// nothing in this library consults it.
    pub fn expires_at(&self, now: i64) -> (r: i64)
        ensures
            r as int == expiry_moment(now as int, self.expires_in as int),
    {
        let sum: i128 = now as i128 + self.expires_in as i128;
        if sum > i64::MAX as i128 {
            i64::MAX
        } else {
            sum as i64
        }
    }
}

} // verus!
