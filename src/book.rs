use crate::text::{decimal, decimal_string};
use crate::util::{calculate_group_id, group_id};
use vstd::prelude::*;
use vstd::utf8::encode_utf8;

verus! {

/// The data collected from a search result.
#[derive(Debug, PartialEq)]
pub struct LibgenBook {
    /// The book's id on the site
    pub libgen_id: u64,
    /// The book's title
    pub title: String,
    /// The book's authors, in the order the result row lists them
    pub authors: Vec<String>,
    /// The book's publisher (only one is kept)
    pub publisher: String,
    /// The MD5 hash that names the file on the download host
    pub libgen_md5: String,
    /// The file's extension
    pub file_type: String,
}

/// Whether a byte stays as it is in a URL component: an ASCII letter or
/// digit, or one of `-`, `.`, `_`, `~`.
pub open spec fn is_unreserved(b: u8) -> bool {
    (48 <= b <= 57) || (65 <= b <= 90) || (97 <= b <= 122) || b == 45 || b == 46 || b == 95
        || b == 126
}

/// Upper-case hexadecimal digit of a value below sixteen.
pub open spec fn hex_digit(d: u8) -> char {
    if d < 10 {
        (48 + d) as u8 as char
    } else {
        (55 + d) as u8 as char
    }
}

/// One byte in percent-encoded form.
pub open spec fn percent_encode_byte(b: u8) -> Seq<char> {
    if is_unreserved(b) {
        seq![b as char]
    } else {
        seq!['%', hex_digit(b / 16), hex_digit(b % 16)]
    }
}

/// Bytes in percent-encoded form, one after another.
pub open spec fn percent_encode_bytes(bytes: Seq<u8>) -> Seq<char>
    decreases bytes.len(),
{
    if bytes.len() == 0 {
        Seq::empty()
    } else {
        percent_encode_bytes(bytes.drop_last()) + percent_encode_byte(bytes.last())
    }
}

/// A string in percent-encoded form: every byte of its UTF-8 encoding but the
/// unreserved ones is written `%XX`.
pub open spec fn url_encoded(s: Seq<char>) -> Seq<char> {
    percent_encode_bytes(encode_utf8(s))
}

/// Relies on `urlencoding::encode`: percent-encodes every byte of the UTF-8
/// form except ASCII letters, digits and `-`, `.`, `_`, `~`, with upper-case
/// hexadecimal digits.
#[verifier::external_body]
pub(crate) fn url_encode(s: &str) -> (r: String)
    ensures
        r@ == url_encoded(s@),
{
    urlencoding::encode(s).into_owned()
}

/// The path on the download host of a book's file:
/// `/main/<group id>/<md5>/<encoded title>.<file type>`.
pub open spec fn download_path(
    id: u64,
    md5: Seq<char>,
    encoded_title: Seq<char>,
    file_type: Seq<char>,
) -> Seq<char> {
    "/main/"@ + decimal(group_id(id as nat)) + "/"@ + md5 + "/"@ + encoded_title + "."@
        + file_type
}

/// The direct download link of a book's file.
pub open spec fn download_url(
    id: u64,
    md5: Seq<char>,
    encoded_title: Seq<char>,
    file_type: Seq<char>,
) -> Seq<char> {
    "https://download.library.lol"@ + download_path(id, md5, encoded_title, file_type)
}

/// Builds the path of a book's file on the download host from its id, hash,
/// already encoded title and file type.
pub fn compose_download_path(id: u64, md5: &str, encoded_title: &str, file_type: &str) -> (r:
    String)
    ensures
        r@ == download_path(id, md5@, encoded_title@, file_type@),
{
    let mut r = String::from_str("/main/");
    let group = decimal_string(calculate_group_id(id));
    r.append(group.as_str());
    r.append("/");
    r.append(md5);
    r.append("/");
    r.append(encoded_title);
    r.append(".");
    r.append(file_type);
    assert(r@ =~= download_path(id, md5@, encoded_title@, file_type@));
    r
}

/// Builds the direct download link from a book's id, hash, already encoded
/// title and file type.
pub fn compose_download_url(id: u64, md5: &str, encoded_title: &str, file_type: &str) -> (r:
    String)
    ensures
        r@ == download_url(id, md5@, encoded_title@, file_type@),
{
    let mut r = String::from_str("https://download.library.lol");
    let path = compose_download_path(id, md5, encoded_title, file_type);
    r.append(path.as_str());
    r
}

impl LibgenBook {
    /// The path of the book's file on the download host.
    pub open spec fn request_path(&self) -> Seq<char> {
        download_path(self.libgen_id, self.libgen_md5@, url_encoded(self.title@), self.file_type@)
    }

    /// The link from which the book's file can be fetched directly.
    pub open spec fn direct_download_url(&self) -> Seq<char> {
        download_url(self.libgen_id, self.libgen_md5@, url_encoded(self.title@), self.file_type@)
    }

    /// Build the book's download link.
    pub fn build_direct_download_url(&self) -> (r: Result<String, String>)
        ensures
            r matches Ok(u) && u@ == self.direct_download_url(),
    {
        let encoded = url_encode(self.title.as_str());
        Ok(
            compose_download_url(
                self.libgen_id,
                self.libgen_md5.as_str(),
                encoded.as_str(),
                self.file_type.as_str(),
            ),
        )
    }
}

} // verus!
