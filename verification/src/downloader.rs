//! The update server: which file a download fetches, where it is stored, and
//! whether the running version is the latest one.

use vstd::prelude::*;
use vstd::string::*;
use crate::version::{convert_version, version_fits, version_number};

verus! {

/// The spell checker's executable as the update server names it.
pub const EXECUTOR_EXE: &'static str = "auto spell checker.exe";

/// The patcher's executable as the update server names it.
pub const PATCHER_EXE: &'static str = "auto spell checker patcher.exe";

/// The update server.
pub const PUBLIC_IPV4_DNS: &'static str = "http://ec2-15-164-94-231.ap-northeast-2.compute.amazonaws.com";

/// The server's path that serves executables.
pub const DOWNLOAD_EXE_URL: &'static str = "/download_exe";

/// The server's path that answers the latest version.
pub const LASTEST_VERSION: &'static str = "/lastest_version";

/// The query parameter that names the stored object.
pub const OBJECT_KEY: &'static str = "object_key";

/// The stored object of the patcher.
pub const PATCHER_OBJECT_KEY: &'static str = "PATCHER_OBJECT_KEY";

/// The stored object of the spell checker.
pub const EXECUTOR_OBJECT_KEY: &'static str = "EXECUTOR_OBJECT_KEY";

/// A file to fetch from the update server: the folder it goes into, the URL
/// that serves it, and its file name in that folder.
pub struct DownloadRequest {
    pub install_path: String,
    pub url: String,
    pub file_name: String,
}

/// Fetches the spell checker and its patcher from the update server.
pub struct Downloader {}

/// The URL that serves the object `object_key`: the server, the download
/// path, and the query `object_key=<object_key>` (the object keys hold only
/// letters and `_`, which a query writes as they are).
pub open spec fn download_url(object_key: Seq<char>) -> Seq<char> {
    PUBLIC_IPV4_DNS@ + DOWNLOAD_EXE_URL@ + "?"@ + OBJECT_KEY@ + "="@ + object_key
}

impl Downloader {
    pub fn new() -> (d: Downloader)
        ensures
            d == (Downloader {}),
    {
        Downloader {}
    }

    /// The URL whose body is the latest version's text.
    pub fn latest_version_url(&self) -> (url: String)
        ensures
            url@ == PUBLIC_IPV4_DNS@ + LASTEST_VERSION@,
    {
        let mut url = PUBLIC_IPV4_DNS.to_owned();
        url.append(LASTEST_VERSION);
        url
    }

    /// Whether `current_version` is at least as new as `lastest_version`,
    /// the text that the server answered.
    pub fn check_version(&self, current_version: &str, lastest_version: &str) -> (is_latest: bool)
        requires
            version_fits(current_version@),
            version_fits(lastest_version@),
        ensures
            is_latest == (version_number(current_version@) >= version_number(
                lastest_version@,
            )),
    {
        let lastest = convert_version(lastest_version);
        let current = convert_version(current_version);
        current >= lastest
    }

    fn download_exe_by_url(&self, install_path: &str, exe: &str, object_key: &str) -> (request:
        DownloadRequest)
        ensures
            request.install_path@ == install_path@,
            request.url@ == download_url(object_key@),
            request.file_name@ == exe@,
    {
        let mut url = PUBLIC_IPV4_DNS.to_owned();
        url.append(DOWNLOAD_EXE_URL);
        url.append("?");
        url.append(OBJECT_KEY);
        url.append("=");
        url.append(object_key);
        DownloadRequest {
            install_path: install_path.to_owned(),
            url,
            file_name: exe.to_owned(),
        }
    }

    /// The download of the spell checker into `install_path`.
    pub fn download_executor(&self, install_path: &str) -> (request: DownloadRequest)
        ensures
            request.install_path@ == install_path@,
            request.url@ == download_url(EXECUTOR_OBJECT_KEY@),
            request.file_name@ == EXECUTOR_EXE@,
    {
        self.download_exe_by_url(install_path, EXECUTOR_EXE, EXECUTOR_OBJECT_KEY)
    }

    /// The download of the patcher into `install_path`.
    pub fn download_patcher(&self, install_path: &str) -> (request: DownloadRequest)
        ensures
            request.install_path@ == install_path@,
            request.url@ == download_url(PATCHER_OBJECT_KEY@),
            request.file_name@ == PATCHER_EXE@,
    {
        self.download_exe_by_url(install_path, PATCHER_EXE, PATCHER_OBJECT_KEY)
    }

    /// The downloads of the spell checker and then of the patcher, in the
    /// order in which they are made; the first one's path is the one
    /// reported.
    pub fn download_executor_and_patcher(
        &self,
        executor_install_path: &str,
        patcher_install_path: &str,
    ) -> (requests: (DownloadRequest, DownloadRequest))
        ensures
            requests.0.install_path@ == executor_install_path@,
            requests.0.url@ == download_url(EXECUTOR_OBJECT_KEY@),
            requests.0.file_name@ == EXECUTOR_EXE@,
            requests.1.install_path@ == patcher_install_path@,
            requests.1.url@ == download_url(PATCHER_OBJECT_KEY@),
            requests.1.file_name@ == PATCHER_EXE@,
    {
        let executor = self.download_executor(executor_install_path);
        let patcher = self.download_patcher(patcher_install_path);
        (executor, patcher)
    }
}

} // verus!
