use crate::book::{compose_download_path, url_encode, LibgenBook};
use vstd::prelude::*;

verus! {

/// Why a download failed.
#[derive(Debug, Clone, PartialEq)]
pub enum DownloadError {
    /// Connection error while collecting data.
    ConnectionError(String),
    /// The download itself failed.
    DownloadError(String),
    /// Download directory was not found or was none.
    DirectoryError,
    /// Other IO error occurred.
    IOError(String),
}

/// The kinds of I/O failure that a download tells apart.
#[derive(Debug, Clone, Copy, PartialEq, Eq, Structural)]
pub enum IoErrorKind {
    /// The server refused the connection.
    ConnectionRefused,
    /// The server reset the connection.
    ConnectionReset,
    /// The connection was aborted.
    ConnectionAborted,
    /// There was no connection.
    NotConnected,
    /// The operation timed out.
    TimedOut,
    /// Any other failure, such as a disk write that failed.
    Other,
}

impl IoErrorKind {
    /// Whether the failure lies with the connection.
    pub open spec fn is_connection(self) -> bool {
        !(self is Other)
    }
}

impl DownloadError {
    /// The text of the error: its message, or the name of the kind where it
    /// has none.
    pub open spec fn spec_message(&self) -> Seq<char> {
        match self {
            DownloadError::ConnectionError(m) => m@,
            DownloadError::DownloadError(m) => m@,
            DownloadError::DirectoryError => "DirectoryError"@,
            DownloadError::IOError(m) => m@,
        }
    }

    /// The text of the error.
    pub fn message(&self) -> (r: String)
        ensures
            r@ == self.spec_message(),
    {
        match self {
            DownloadError::ConnectionError(m) => m.clone(),
            DownloadError::DownloadError(m) => m.clone(),
            DownloadError::DirectoryError => String::from_str("DirectoryError"),
            DownloadError::IOError(m) => m.clone(),
        }
    }

    /// Classifies an I/O failure: connection failures apart from the rest.
    pub fn from_io_error(kind: IoErrorKind, message: String) -> (r: DownloadError)
        ensures
            kind.is_connection() ==> r == DownloadError::ConnectionError(message),
            !kind.is_connection() ==> r == DownloadError::IOError(message),
    {
        match kind {
            IoErrorKind::Other => DownloadError::IOError(message),
            _ => DownloadError::ConnectionError(message),
        }
    }
}

/// The regular expression that matches one character that file names may
/// not hold.
pub open spec fn file_name_pattern() -> Seq<char> {
    "[\\\\/:*?\"<>|]"@
}

/// Whether file names may not hold `c`: one of `/ \ : * ? " < > |`.
pub open spec fn is_file_name_unsafe(c: char) -> bool {
    c == '/' || c == '\\' || c == ':' || c == '*' || c == '?' || c == '"' || c == '<' || c
        == '>' || c == '|'
}

/// `s` with each character that file names may not hold replaced by `_`.
pub open spec fn file_name_safe(s: Seq<char>) -> Seq<char> {
    s.map_values(|c: char| if is_file_name_unsafe(c) { '_' } else { c })
}

/// Relies on `regex::Regex::new` and `Regex::replace_all`, here on the file
/// name pattern only. That pattern is a valid class of single characters, so
/// it compiles, and each of its matches is one character of the class; the
/// replacement `_` holds no `$`, so it is inserted as it is.
#[verifier::external_body]
fn replace_all_matches(pattern: &str, text: &str, replacement: &str) -> (r: Option<String>)
    requires
        pattern@ == file_name_pattern(),
        replacement@ == "_"@,
    ensures
        r is Some,
        r->0@ == file_name_safe(text@),
{
    match regex::Regex::new(pattern) {
        Ok(re) => Some(re.replace_all(text, replacement).into_owned()),
        Err(_) => None,
    }
}

/// A book's file name before unsafe characters are replaced:
/// `<title>.<file type>`.
pub open spec fn raw_file_name(book: &LibgenBook) -> Seq<char> {
    book.title@ + "."@ + book.file_type@
}

/// The request headers that follow the request line.
pub open spec fn request_headers() -> Seq<char> {
    "\r\nHost: download.library.lol\r\nAccept: text/html,application/xhtml+xml,application/xml;q=0.9,*/*;q=0.8,application/signed-exchange;v=b3;q=0.7\r\nAccept-Encoding: gzip, deflate, br\r\nAccept-Language: en-CA,en;q=0.9\r\nCache-Control: max-age=0\r\nConnection: keep-alive\r\n\r\n"@
}

/// The file name used where no download directory is set.
pub open spec fn fallback_file_name() -> Seq<char> {
    "downloaded_book.pdf"@
}

/// Fetches books from the download host into a directory.
#[derive(Debug, PartialEq)]
pub struct Downloader {
    /// Request headers
    request_ops: String,
    download_path: Option<String>,
    hosts: Vec<String>,
}

impl Downloader {
    /// The directory that downloads go to.
    pub closed spec fn spec_download_path(&self) -> Option<String> {
        self.download_path
    }

    /// The hosts that serve downloads, as `name:port`.
    pub closed spec fn spec_hosts(&self) -> Seq<Seq<char>> {
        self.hosts@.map_values(|h: String| h@)
    }

    /// The headers sent with each request.
    pub closed spec fn spec_request_ops(&self) -> Seq<char> {
        self.request_ops@
    }

    /// Downloader object: downloads go to `download_path`, or to the current
    /// directory where it is `None`.
    pub fn new(download_path: Option<String>) -> (r: Downloader)
        ensures
            download_path is Some ==> r.spec_download_path() == download_path,
            download_path is None ==> (r.spec_download_path() matches Some(p) && p@ == "."@),
            r.spec_request_ops() == request_headers(),
            r.spec_hosts() == seq!["download.library.lol:80"@],
    {
        let path = match download_path {
            Some(p) => p,
            None => String::from_str("."),
        };
        let mut hosts: Vec<String> = Vec::new();
        hosts.push(String::from_str("download.library.lol:80"));
        assert(hosts@.map_values(|h: String| h@) =~= seq!["download.library.lol:80"@]);
        Downloader {
            request_ops: String::from_str(
                "\r\nHost: download.library.lol\r\nAccept: text/html,application/xhtml+xml,application/xml;q=0.9,*/*;q=0.8,application/signed-exchange;v=b3;q=0.7\r\nAccept-Encoding: gzip, deflate, br\r\nAccept-Language: en-CA,en;q=0.9\r\nCache-Control: max-age=0\r\nConnection: keep-alive\r\n\r\n",
            ),
            download_path: Some(path),
            hosts,
        }
    }

    /// Changes the location to download into
    pub fn change_download_path(&mut self, new_path: String)
        ensures
            final(self).spec_download_path() == Some(new_path),
            final(self).spec_request_ops() == old(self).spec_request_ops(),
            final(self).spec_hosts() == old(self).spec_hosts(),
    {
        self.download_path = Some(new_path)
    }

    /// Gets the current download directory
    pub fn get_download_path(self) -> (r: Option<String>)
        ensures
            r == self.spec_download_path(),
    {
        self.download_path
    }

    /// The path to request from the download host for a book:
    /// `/main/<group id>/<md5>/<encoded title>.<file type>`.
    pub fn get_book_download_headers(book: &LibgenBook) -> (r: Option<String>)
        ensures
            r matches Some(p) && p@ == book.request_path(),
    {
        let encoded = url_encode(book.title.as_str());
        Some(
            compose_download_path(
                book.libgen_id,
                book.libgen_md5.as_str(),
                encoded.as_str(),
                book.file_type.as_str(),
            ),
        )
    }

    /// A book's file name: `<title>.<file type>` with each character that
    /// file names may not hold replaced by `_`.
    pub fn create_book_download_name(book: &LibgenBook) -> (r: String)
        ensures
            r@ == file_name_safe(raw_file_name(book)),
    {
        let mut name = book.title.clone();
        name.append(".");
        name.append(book.file_type.as_str());
        replace_all_matches("[\\\\/:*?\"<>|]", name.as_str(), "_").unwrap()
    }

    /// The HTTP request that fetches a book from the download host.
    pub fn download_request(&self, book: &LibgenBook) -> (r: Result<String, DownloadError>)
        ensures
            r matches Ok(q) && q@ == "GET "@ + book.request_path() + " HTTP/1.1 "@
                + self.spec_request_ops(),
    {
        match Self::get_book_download_headers(book) {
            Some(path) => {
                let mut q = String::from_str("GET ");
                q.append(path.as_str());
                q.append(" HTTP/1.1 ");
                q.append(self.request_ops.as_str());
                Ok(q)
            },
            None => Err(
                DownloadError::ConnectionError(
                    String::from_str("Failed to create download headers"),
                ),
            ),
        }
    }

    /// The file a book is written to: `<directory>/<file name>`, or
    /// `downloaded_book.pdf` where no directory is set.
    pub fn download_file_name(&self, book: &LibgenBook) -> (r: String)
        ensures
            self.spec_download_path() is None ==> r@ == fallback_file_name(),
            self.spec_download_path() matches Some(dir) ==> r@ == dir@ + "/"@ + file_name_safe(
                raw_file_name(book),
            ),
    {
        match &self.download_path {
            Some(dir) => {
                let name = Self::create_book_download_name(book);
                let mut f = dir.clone();
                f.append("/");
                f.append(name.as_str());
                f
            },
            None => String::from_str("downloaded_book.pdf"),
        }
    }
}

} // verus!
