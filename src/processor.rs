use crate::book::{download_url, url_encoded, LibgenBook};
use crate::scraper::LibgenError;
use crate::text::{
    ascii_lower, contains, decimal, decimal_string, find_from, lemma_first_at, matches_at,
    parse_u64, parse_u64_chars, to_ascii_lower, to_chars, trim, trim_chars,
};
use crate::util::{lower_of, md5_segment, parse_md5_from_url};
use vstd::prelude::*;

verus! {

/// One link in the title cell of a result row.
#[derive(Debug, Clone, PartialEq)]
pub struct TitleLink {
    /// The link's `id` attribute
    pub id: Option<String>,
    /// The first piece of text inside the link
    pub text: Option<String>,
    /// The link's `href` attribute
    pub href: Option<String>,
}

/// What the parser reads from one row of the search results table. A cell
/// the row lacks is `None`.
#[derive(Debug, Clone, PartialEq)]
pub struct ResultRow {
    /// The inner HTML of the first cell, which holds the book's id
    pub id_cell: Option<String>,
    /// The links in the title cell, in document order
    pub title_links: Vec<TitleLink>,
    /// The inner HTML of the file type cell
    pub file_type: Option<String>,
    /// The inner HTML of the publisher cell
    pub publisher: Option<String>,
    /// The inner HTML of each author link, in document order
    pub authors: Vec<String>,
}

/// How a row's title is held against the title searched for. Both sides are
/// trimmed and compared without regard to ASCII case.
#[derive(Debug, Clone, Copy, PartialEq, Eq, Structural)]
pub enum MatchPolicy {
    /// The row's title starts with the title searched for.
    Prefix,
    /// The row's title contains the title searched for.
    Contains,
}

/// A html processor to grab needed elements
pub struct Processor {
    /// CSS selector of the cell that holds a row's id
    pub book_libgen_id_selector: String,
    /// CSS selector of the publisher cell
    pub book_publisher_selector: String,
    /// CSS selector of the file type cell
    pub book_file_type_selector: String,
    /// CSS selector of the author links
    pub book_authors_selector: String,
    /// CSS selector of the links in the title cell
    pub book_title_link_selector: String,
    /// CSS selector of the result rows
    pub book_search_result_selector: String,
    /// How titles are matched
    pub match_policy: MatchPolicy,
}

/// A book record as plain values.
pub struct BookView {
    pub libgen_id: u64,
    pub title: Seq<char>,
    pub authors: Seq<Seq<char>>,
    pub publisher: Seq<char>,
    pub libgen_md5: Seq<char>,
    pub file_type: Seq<char>,
}

impl View for LibgenBook {
    type V = BookView;

    open spec fn view(&self) -> BookView {
        BookView {
            libgen_id: self.libgen_id,
            title: self.title@,
            authors: self.authors@.map_values(|a: String| a@),
            publisher: self.publisher@,
            libgen_md5: self.libgen_md5@,
            file_type: self.file_type@,
        }
    }
}

/// The view of an optional book.
pub open spec fn option_view(b: Option<LibgenBook>) -> Option<BookView> {
    match b {
        Some(b) => Some(b@),
        None => None,
    }
}

/// Whether a row's title `candidate` matches the title `query` searched for.
pub open spec fn title_matches(policy: MatchPolicy, query: Seq<char>, candidate: Seq<char>) -> bool {
    let q = ascii_lower(trim(query));
    let c = ascii_lower(trim(candidate));
    match policy {
        MatchPolicy::Prefix => q.is_prefix_of(c),
        MatchPolicy::Contains => contains(c, q),
    }
}

/// Whether a title link carries the id attribute `key`.
pub open spec fn link_has_id(link: TitleLink, key: Seq<char>) -> bool {
    link.id matches Some(id) && id@ == key
}

/// The index of the first link at or after `k` that carries the id `key`.
pub open spec fn first_link(links: Seq<TitleLink>, key: Seq<char>, k: int) -> Option<int>
    decreases links.len() - k,
{
    if k < 0 || k >= links.len() {
        None
    } else if link_has_id(links[k], key) {
        Some(k)
    } else {
        first_link(links, key, k + 1)
    }
}

/// What `first_link` finds lies at or after `k`, inside the list, and
/// carries the id.
proof fn lemma_first_link(links: Seq<TitleLink>, key: Seq<char>, k: int)
    ensures
        first_link(links, key, k) matches Some(i) ==> k <= i < links.len() && link_has_id(
            links[i],
            key,
        ),
    decreases links.len() - k,
{
    if k < 0 || k >= links.len() {
    } else if link_has_id(links[k], key) {
    } else {
        lemma_first_link(links, key, k + 1);
    }
}

/// The book a row yields for the title `query`, or nothing when the row has
/// no numeric id, no title link with that id, a title that does not match,
/// or lacks a file type, link target, hash or publisher. The book keeps the
/// row's own title, trimmed, rather than the title searched for.
pub open spec fn parsed_row(policy: MatchPolicy, query: Seq<char>, row: ResultRow) -> Option<
    BookView,
> {
    match row.id_cell {
        None => None,
        Some(cell) => match parse_u64(cell@) {
            None => None,
            Some(id) => match first_link(row.title_links@, decimal(id as nat), 0) {
                None => None,
                Some(k) => {
                    let link = row.title_links@[k];
                    match (link.text, row.file_type, link.href, row.publisher) {
                        (Some(text), Some(file_type), Some(href), Some(publisher)) => {
                            let title = trim(text@);
                            if !title_matches(policy, query, title) {
                                None
                            } else {
                                match md5_segment(href@) {
                                    None => None,
                                    Some(segment) => Some(
                                        BookView {
                                            libgen_id: id,
                                            title,
                                            authors: row.authors@.map_values(|a: String| a@),
                                            publisher: publisher@,
                                            libgen_md5: lower_of(segment),
                                            file_type: file_type@,
                                        },
                                    ),
                                }
                            }
                        },
                        _ => None,
                    }
                },
            },
        },
    }
}

/// The book of the first row that yields one, scanning in order.
pub open spec fn first_parsed(policy: MatchPolicy, query: Seq<char>, rows: Seq<ResultRow>) -> Option<
    BookView,
>
    decreases rows.len(),
{
    if rows.len() == 0 {
        None
    } else {
        match parsed_row(policy, query, rows[0]) {
            Some(b) => Some(b),
            None => first_parsed(policy, query, rows.drop_first()),
        }
    }
}

/// A search returns the book of the first row that yields one: where row `k`
/// yields a book and no row before it does, that book is the result.
pub proof fn lemma_first_yielding_row_wins(
    policy: MatchPolicy,
    query: Seq<char>,
    rows: Seq<ResultRow>,
    k: int,
)
    requires
        0 <= k < rows.len(),
        parsed_row(policy, query, rows[k]) is Some,
        forall|j: int| 0 <= j < k ==> parsed_row(policy, query, #[trigger] rows[j]) is None,
    ensures
        first_parsed(policy, query, rows) == parsed_row(policy, query, rows[k]),
    decreases k,
{
    if k > 0 {
        let rest = rows.drop_first();
        assert forall|j: int| 0 <= j < k - 1 implies parsed_row(policy, query, #[trigger] rest[j]) is None by {
            assert(rest[j] == rows[j + 1]);
        }
        assert(rest[k - 1] == rows[k]);
        lemma_first_yielding_row_wins(policy, query, rest, k - 1);
    }
}

/// A complete row whose title matches resolves to a book whose download link
/// is built from the row's id, its lowercased hash, its trimmed title
/// encoded, and its file type.
pub proof fn lemma_row_resolves_to_link(
    policy: MatchPolicy,
    query: Seq<char>,
    row: ResultRow,
    id: u64,
    k: int,
)
    requires
        row.id_cell matches Some(cell) && parse_u64(cell@) == Some(id),
        first_link(row.title_links@, decimal(id as nat), 0) == Some(k),
        row.title_links@[k].text is Some,
        row.title_links@[k].href matches Some(href) && md5_segment(href@) is Some,
        row.file_type is Some,
        row.publisher is Some,
        title_matches(policy, query, trim(row.title_links@[k].text->0@)),
    ensures
        parsed_row(policy, query, row) matches Some(b) && b.libgen_id == id && download_url(
            b.libgen_id,
            b.libgen_md5,
            url_encoded(b.title),
            b.file_type,
        ) == download_url(
            id,
            lower_of(md5_segment(row.title_links@[k].href->0@)->0),
            url_encoded(trim(row.title_links@[k].text->0@)),
            row.file_type->0@,
        ),
{
}

/// Whether `candidate` matches `query` under `policy`.
pub fn title_match(policy: MatchPolicy, query: &str, candidate: &str) -> (r: bool)
    ensures
        r == title_matches(policy, query@, candidate@),
{
    let q = to_ascii_lower(&trim_chars(&to_chars(query)));
    let c = to_ascii_lower(&trim_chars(&to_chars(candidate)));
    match policy {
        MatchPolicy::Prefix => {
            let r = matches_at(&c, &q, 0);
            assert(r == q@.is_prefix_of(c@)) by {
                if q@.len() <= c@.len() {
                    assert(q@.is_prefix_of(c@) == (c@.subrange(0, q@.len() as int) =~= q@));
                }
            }
            r
        },
        MatchPolicy::Contains => {
            proof {
                lemma_first_at(c@, q@, 0);
            }
            find_from(&c, &q, 0).is_some()
        },
    }
}

/// The index of the first link at or after `k` that carries the id `key`.
fn find_link(links: &Vec<TitleLink>, key: &String, k: usize) -> (r: Option<usize>)
    ensures
        r == (match first_link(links@, key@, k as int) {
            Some(i) => Some(i as usize),
            None => None,
        }),
        r matches Some(i) ==> i < links.len(),
{
    proof {
        lemma_first_link(links@, key@, k as int);
    }
    let mut i: usize = k;
    while i < links.len()
        invariant
            k <= i,
            first_link(links@, key@, k as int) == first_link(links@, key@, i as int),
        decreases links.len() - i,
    {
        let found = match &links[i].id {
            Some(id) => id.eq(key),
            None => false,
        };
        assert(found == link_has_id(links@[i as int], key@));
        if found {
            return Some(i);
        }
        i = i + 1;
    }
    None
}

/// Copies a list of strings.
fn copy_strings(v: &Vec<String>) -> (r: Vec<String>)
    ensures
        r@ == v@,
{
    let mut r: Vec<String> = Vec::new();
    let mut i: usize = 0;
    while i < v.len()
        invariant
            i <= v.len(),
            r@ == v@.subrange(0, i as int),
        decreases v.len() - i,
    {
        r.push(v[i].clone());
        assert(r@ =~= v@.subrange(0, i + 1));
        i = i + 1;
    }
    assert(r@ =~= v@);
    r
}

impl Processor {
    /// Creates a new html processor with the needed css, matching titles by
    /// prefix.
    pub fn new() -> (r: Self)
        ensures
            r.book_libgen_id_selector@ == "td:first-child"@,
            r.book_publisher_selector@ == "td:nth-child(4)"@,
            r.book_file_type_selector@ == "td:nth-child(9)"@,
            r.book_authors_selector@ == "td:nth-child(2) > a:not([title])"@,
            r.book_title_link_selector@ == "td[width='500'] > a"@,
            r.book_search_result_selector@ == "table.c tbody tr"@,
            r.match_policy == MatchPolicy::Prefix,
    {
        Self {
            book_libgen_id_selector: String::from_str("td:first-child"),
            book_publisher_selector: String::from_str("td:nth-child(4)"),
            book_file_type_selector: String::from_str("td:nth-child(9)"),
            book_authors_selector: String::from_str("td:nth-child(2) > a:not([title])"),
            book_title_link_selector: String::from_str("td[width='500'] > a"),
            book_search_result_selector: String::from_str("table.c tbody tr"),
            match_policy: MatchPolicy::Prefix,
        }
    }

    /// Parses one row of a search result.
    pub fn parse_search_result(&self, title: &str, result_row: &ResultRow) -> (r: Option<
        LibgenBook,
    >)
        ensures
            option_view(r) == parsed_row(self.match_policy, title@, *result_row),
    {
        let cell = match &result_row.id_cell {
            Some(c) => c,
            None => return None,
        };
        let libgen_id = match parse_u64_chars(&to_chars(cell.as_str())) {
            Some(id) => id,
            None => return None,
        };
        let key = decimal_string(libgen_id);
        proof {
            lemma_first_link(result_row.title_links@, key@, 0);
        }
        let k = match find_link(&result_row.title_links, &key, 0) {
            Some(k) => k,
            None => return None,
        };
        let link = &result_row.title_links[k];
        let (text, file_type, href, publisher) = match (
            &link.text,
            &result_row.file_type,
            &link.href,
            &result_row.publisher,
        ) {
            (Some(t), Some(f), Some(h), Some(p)) => (t, f, h, p),
            _ => return None,
        };
        let trimmed = trim_chars(&to_chars(text.as_str()));
        let mut book_title = String::new();
        crate::text::push_all(&mut book_title, &trimmed);
        assert(book_title@ =~= trim(text@));
        if !title_match(self.match_policy, title, book_title.as_str()) {
            return None;
        }
        let libgen_md5 = match parse_md5_from_url(href.clone()) {
            Some(m) => m,
            None => return None,
        };
        let authors = copy_strings(&result_row.authors);
        let book = LibgenBook {
            libgen_id,
            title: book_title,
            authors,
            publisher: publisher.clone(),
            libgen_md5,
            file_type: file_type.clone(),
        };
        assert(book@.authors =~= result_row.authors@.map_values(|a: String| a@));
        Some(book)
    }

    /// Looks for a book's title among the rows of a search result page: the
    /// first row that yields a book wins.
    pub fn search_title_in_document(&self, rows: &Vec<ResultRow>, title: &str) -> (r: Result<
        Option<LibgenBook>,
        LibgenError,
    >)
        ensures
            r matches Ok(b) && option_view(b) == first_parsed(self.match_policy, title@, rows@),
    {
        let mut i: usize = 0;
        assert(rows@.subrange(0, rows.len() as int) =~= rows@);
        while i < rows.len()
            invariant
                i <= rows.len(),
                first_parsed(self.match_policy, title@, rows@) == first_parsed(
                    self.match_policy,
                    title@,
                    rows@.subrange(i as int, rows.len() as int),
                ),
            decreases rows.len() - i,
        {
            let ghost rest = rows@.subrange(i as int, rows.len() as int);
            assert(rest[0] == rows@[i as int]);
            assert(rest.drop_first() =~= rows@.subrange(i + 1, rows.len() as int));
            let found = self.parse_search_result(title, &rows[i]);
            if found.is_some() {
                return Ok(found);
            }
            i = i + 1;
        }
        Ok(None)
    }
}

} // verus!
