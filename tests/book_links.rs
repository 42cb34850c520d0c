use libgen_scraper::book::{compose_download_url, LibgenBook};

fn cat_book() -> LibgenBook {
    LibgenBook {
        libgen_id: 3750,
        libgen_md5: "5fa82be26689a4e6f4415ea068d35a9d".to_owned(),
        file_type: "pdf".to_owned(),
        title: "Abstract and concrete categories: the joy of cats".to_owned(),
        authors: vec![
            "Jiri Adamek".to_string(),
            " Horst Herrlich".to_string(),
            " George E. Strecker".to_string(),
        ],
        publisher: "Wiley-Interscience".to_owned(),
    }
}

#[test]
fn build_direct_download_url() {
    let valid_cat_result = cat_book();

    let valid_download_link = "https://download.library.lol/main/3000/5fa82be26689a4e6f4415ea068d35a9d/Abstract%20and%20concrete%20categories%3A%20the%20joy%20of%20cats.pdf";

    let download_link = valid_cat_result.build_direct_download_url();
    assert_eq!(valid_download_link, download_link.unwrap());
}

#[test]
fn download_url_encodes_non_ascii_and_reserved_characters() {
    let mut book = cat_book();
    book.libgen_id = 19992123;
    book.title = "José & Co/1 ~a_b-c.d".to_owned();
    book.file_type = "epub".to_owned();
    assert_eq!(
        book.build_direct_download_url().unwrap(),
        "https://download.library.lol/main/19992000/5fa82be26689a4e6f4415ea068d35a9d/Jos%C3%A9%20%26%20Co%2F1%20~a_b-c.d.epub"
    );
}

#[test]
fn download_url_of_small_id_uses_group_zero() {
    let mut book = cat_book();
    book.libgen_id = 999;
    book.title = "A".to_owned();
    assert_eq!(
        book.build_direct_download_url().unwrap(),
        "https://download.library.lol/main/0/5fa82be26689a4e6f4415ea068d35a9d/A.pdf"
    );
}

#[test]
fn compose_keeps_encoded_title_as_given() {
    assert_eq!(
        compose_download_url(1999, "abc", "x%20y", "djvu"),
        "https://download.library.lol/main/1000/abc/x%20y.djvu"
    );
    assert_eq!(
        compose_download_url(u64::MAX, "m", "t", "f"),
        "https://download.library.lol/main/18446744073709551000/m/t.f"
    );
}
