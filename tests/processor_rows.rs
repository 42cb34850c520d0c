use libgen_scraper::processor::{title_match, MatchPolicy, Processor, ResultRow, TitleLink};

fn row(id: &str, title: &str, href: &str, file_type: &str, publisher: &str) -> ResultRow {
    ResultRow {
        id_cell: Some(id.to_string()),
        title_links: vec![
            TitleLink {
                id: None,
                text: Some("series".to_string()),
                href: Some("search.php?column=series".to_string()),
            },
            TitleLink {
                id: Some(id.to_string()),
                text: Some(title.to_string()),
                href: Some(href.to_string()),
            },
        ],
        file_type: Some(file_type.to_string()),
        publisher: Some(publisher.to_string()),
        authors: vec!["Jane Doe".to_string(), " John Roe".to_string()],
    }
}

fn benchmark_rows() -> Vec<ResultRow> {
    vec![
        row("17", "Cooking for Cats", "book/index.php?md5=AAAA", "pdf", "Pets Inc"),
        row(
            "42",
            "  Performance Evaluation and Benchmarking ",
            "book/index.php?md5=BBBBcc",
            "epub",
            "CRC Press",
        ),
    ]
}

#[test]
fn finds_row_by_title_prefix() {
    let p = Processor::new();
    let found = p
        .search_title_in_document(&benchmark_rows(), "Performance Evaluation")
        .unwrap()
        .unwrap();
    assert_eq!(found.libgen_id, 42);
    assert_eq!(found.title, "Performance Evaluation and Benchmarking");
    assert_eq!(found.libgen_md5, "bbbbcc");
    assert_eq!(found.file_type, "epub");
    assert_eq!(found.publisher, "CRC Press");
    assert_eq!(found.authors, vec!["Jane Doe".to_string(), " John Roe".to_string()]);
}

#[test]
fn prefix_policy_rejects_inner_substring() {
    let p = Processor::new();
    let found = p.search_title_in_document(&benchmark_rows(), "and Benchmarking").unwrap();
    assert!(found.is_none());
}

#[test]
fn contains_policy_accepts_inner_substring() {
    let mut p = Processor::new();
    p.match_policy = MatchPolicy::Contains;
    let found = p
        .search_title_in_document(&benchmark_rows(), "and BENCHMARKING")
        .unwrap()
        .unwrap();
    assert_eq!(found.libgen_id, 42);
    let none = p.search_title_in_document(&benchmark_rows(), "Benchmarking Performance").unwrap();
    assert!(none.is_none());
}

#[test]
fn single_matching_row_among_unrelated() {
    let rows = vec![
        row("1", "Gardening Basics", "x?md5=11", "pdf", "Green"),
        row("2", "Benchmarking", "x?md5=22", "pdf", "Fast"),
    ];
    for policy in [MatchPolicy::Prefix, MatchPolicy::Contains] {
        let mut p = Processor::new();
        p.match_policy = policy;
        let found = p.search_title_in_document(&rows, "benchmarking").unwrap().unwrap();
        assert_eq!(found.libgen_id, 2);
        assert_eq!(found.libgen_md5, "22");
    }
}

#[test]
fn first_matching_row_wins() {
    let rows = vec![
        row("5", "Rust in Action", "x?md5=first", "pdf", "A"),
        row("6", "Rust in Action", "x?md5=second", "pdf", "B"),
    ];
    let found = Processor::new().search_title_in_document(&rows, "rust").unwrap().unwrap();
    assert_eq!(found.libgen_id, 5);
}

#[test]
fn malformed_rows_are_skipped() {
    let good = row("9", "Benchmarking", "x?md5=99", "pdf", "P");
    let mut no_id = good.clone();
    no_id.id_cell = None;
    let mut bad_id = good.clone();
    bad_id.id_cell = Some("<b>9</b>".to_string());
    let mut no_file_type = good.clone();
    no_file_type.file_type = None;
    let mut no_publisher = good.clone();
    no_publisher.publisher = None;
    let mut no_md5 = good.clone();
    no_md5.title_links[1].href = Some("book/index.php?id=9".to_string());
    let mut wrong_link_id = good.clone();
    wrong_link_id.title_links[1].id = Some("09".to_string());
    let p = Processor::new();
    for r in [&no_id, &bad_id, &no_file_type, &no_publisher, &no_md5, &wrong_link_id] {
        assert!(p.parse_search_result("Benchmarking", r).is_none());
    }
    let rows = vec![no_id, bad_id, no_file_type, no_publisher, no_md5, wrong_link_id, good];
    let found = p.search_title_in_document(&rows, "Benchmarking").unwrap().unwrap();
    assert_eq!(found.libgen_id, 9);
}

#[test]
fn id_cell_parsed_like_std() {
    let mut r = row("0042", "Benchmarking", "x?md5=1", "pdf", "P");
    r.title_links[1].id = Some("42".to_string());
    let found = Processor::new().parse_search_result("Benchmarking", &r).unwrap();
    assert_eq!(found.libgen_id, 42);
}

#[test]
fn no_rows_no_book() {
    let found = Processor::new().search_title_in_document(&Vec::new(), "Anything").unwrap();
    assert!(found.is_none());
}

#[test]
fn end_to_end_cat_book_link() {
    let r = ResultRow {
        id_cell: Some("3750".to_string()),
        title_links: vec![TitleLink {
            id: Some("3750".to_string()),
            text: Some("Abstract and concrete categories: the joy of cats".to_string()),
            href: Some("book/index.php?md5=5FA82BE26689A4E6F4415EA068D35A9D".to_string()),
        }],
        file_type: Some("pdf".to_string()),
        publisher: Some("Wiley-Interscience".to_string()),
        authors: vec![
            "Jiri Adamek".to_string(),
            " Horst Herrlich".to_string(),
            " George E. Strecker".to_string(),
        ],
    };
    let book = Processor::new()
        .search_title_in_document(&vec![r], "Abstract and concrete categories: the joy of cats")
        .unwrap()
        .unwrap();
    assert_eq!(book.libgen_md5, "5fa82be26689a4e6f4415ea068d35a9d");
    assert_eq!(
        book.build_direct_download_url().unwrap(),
        "https://download.library.lol/main/3000/5fa82be26689a4e6f4415ea068d35a9d/Abstract%20and%20concrete%20categories%3A%20the%20joy%20of%20cats.pdf"
    );
}

#[test]
fn title_match_policies() {
    assert!(title_match(MatchPolicy::Prefix, " rust ", "Rust in Action"));
    assert!(!title_match(MatchPolicy::Prefix, "action", "Rust in Action"));
    assert!(title_match(MatchPolicy::Contains, "IN action", "Rust in Action"));
    assert!(title_match(MatchPolicy::Prefix, "", "Anything"));
    assert!(!title_match(MatchPolicy::Contains, "Rust in Action!", "Rust in Action"));
}

#[test]
fn processor_selectors() {
    let p = Processor::new();
    assert_eq!(p.book_libgen_id_selector, "td:first-child");
    assert_eq!(p.book_publisher_selector, "td:nth-child(4)");
    assert_eq!(p.book_file_type_selector, "td:nth-child(9)");
    assert_eq!(p.book_authors_selector, "td:nth-child(2) > a:not([title])");
    assert_eq!(p.book_title_link_selector, "td[width='500'] > a");
    assert_eq!(p.book_search_result_selector, "table.c tbody tr");
    assert_eq!(p.match_policy, MatchPolicy::Prefix);
}

#[test]
fn contains_policy_on_inner_word() {
    let rows = vec![
        row("1", "Benchmarking", "x?md5=11", "pdf", "A"),
        row("2", "Cooking", "x?md5=22", "pdf", "B"),
    ];
    let mut p = Processor::new();
    p.match_policy = MatchPolicy::Contains;
    let found = p.search_title_in_document(&rows, "marking").unwrap().unwrap();
    assert_eq!(found.libgen_id, 1);
    assert!(p.search_title_in_document(&rows, "Benchmarks").unwrap().is_none());
}
