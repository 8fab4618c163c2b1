use manga109api::manifest_titles;
use manga109api::normalize_paths;
use manga109api::parse_raw_xml_annotations_and_make_book;
use manga109api::Book;
use manga109api::Error;
use manga109api::Frame;
use manga109api::Manga109;
use manga109api::Page;

fn sample_book(title: &str) -> Book {
    let xml = format!(
        r#"<annotation title="{}">
            <characters><character id="c1" name="n1"/></characters>
            <pages>
                <page index="0" width="100" height="200">
                    <frame id="f1" xmin="10" ymin="20" xmax="30" ymax="40"/>
                    <text id="t1" xmin="1" ymin="2" xmax="3" ymax="4">hello</text>
                    <face id="fa1" xmin="5" ymin="6" xmax="7" ymax="8" character="c1"/>
                    <body id="b1" xmin="9" ymin="10" xmax="11" ymax="12" character="c1"/>
                </page>
                <page index="1" width="300" height="400"/>
            </pages>
        </annotation>"#,
        title
    );
    parse_raw_xml_annotations_and_make_book(
        xml.as_str(),
        format!("/root/annotations/{}.xml", title).as_str(),
        format!("/root/images/{}", title).as_str(),
    )
    .unwrap()
}

fn empty_page(index: usize) -> Page {
    Page {
        frames: Vec::new(),
        texts: Vec::new(),
        faces: Vec::new(),
        bodies: Vec::new(),
        index,
        width: 10,
        height: 10,
    }
}

#[test]
fn empty_manifest_fails_construction() {
    let r = Manga109::from_parts("/root".to_string(), Vec::new());
    assert!(matches!(r, Err(Error::EmptyManifest)));
}

#[test]
fn manifest_lines_are_split_verbatim() {
    assert_eq!(manifest_titles(""), Vec::<String>::new());
    assert_eq!(manifest_titles("a\nb\r\nc\n"), vec!["a", "b", "c"]);
    assert_eq!(manifest_titles("One Two"), vec!["One Two"]);
    assert_eq!(manifest_titles("a\rb"), vec!["a\rb"]);
    assert_eq!(manifest_titles("\n"), vec![""]);
}

#[test]
fn list_books_keeps_manifest_order() {
    let catalog =
        Manga109::from_parts("/root".to_string(), vec![sample_book("zz"), sample_book("aa")])
            .unwrap();
    assert_eq!(catalog.list_books(), vec!["zz", "aa"]);
}

#[test]
fn img_path_pads_the_index_to_three_digits() {
    let mut pages = Vec::new();
    for i in 0..124 {
        pages.push(empty_page(i));
    }
    let book = Book {
        characters: Vec::new(),
        pages,
        title: "t".to_string(),
        annotation_filepaths: "/root/annotations/t.xml".to_string(),
        image_root_dir: "/root/images/t".to_string(),
    };
    let catalog = Manga109::from_parts("/root".to_string(), vec![book]).unwrap();
    let p9 = catalog.img_path("t", &9).unwrap();
    assert!(p9.ends_with("009.jpg"));
    assert_eq!(p9, "/root/images/t/009.jpg");
    let p123 = catalog.img_path("t", &123).unwrap();
    assert!(p123.ends_with("123.jpg"));
    assert_eq!(p123, "/root/images/t/123.jpg");
}

#[test]
fn img_path_normalizes_separators() {
    let book = Book {
        characters: Vec::new(),
        pages: vec![empty_page(0)],
        title: "t".to_string(),
        annotation_filepaths: String::new(),
        image_root_dir: "C:\\data\\\\images\\t".to_string(),
    };
    let catalog = Manga109::from_parts("r".to_string(), vec![book]).unwrap();
    assert_eq!(catalog.img_path("t", &0).unwrap(), "C:/data/images/t/000.jpg");
}

#[test]
fn img_path_unknown_book_is_not_found() {
    let catalog = Manga109::from_parts("/root".to_string(), vec![sample_book("t")]).unwrap();
    match catalog.img_path("other", &0) {
        Err(Error::NotFound { title, page }) => {
            assert_eq!(title, "other");
            assert_eq!(page, None);
        }
        other => panic!("expected not-found, got {:?}", other),
    }
}

#[test]
fn img_path_unknown_page_is_not_found() {
    let catalog = Manga109::from_parts("/root".to_string(), vec![sample_book("t")]).unwrap();
    match catalog.img_path("t", &2) {
        Err(Error::NotFound { title, page }) => {
            assert_eq!(title, "t");
            assert_eq!(page, Some(2));
        }
        other => panic!("expected not-found, got {:?}", other),
    }
}

#[test]
fn get_annotation_unknown_book_is_not_found_not_an_abort() {
    let catalog = Manga109::from_parts("/root".to_string(), vec![sample_book("t")]).unwrap();
    let r = catalog.get_annotation("no such book", true);
    assert!(matches!(r, Err(Error::NotFound { .. })));
}

#[test]
fn get_annotation_returns_the_book_deep_copied() {
    let catalog = Manga109::from_parts("/root".to_string(), vec![sample_book("t")]).unwrap();
    let a = catalog.get_annotation("t", true).unwrap();
    assert_eq!(a.title, "t");
    assert_eq!(a.characters.len(), 1);
    assert_eq!(a.characters[0].id, "c1");
    assert_eq!(a.pages.len(), 2);
    assert_eq!(a.pages[0].frames[0].xmin, 10);
    assert_eq!(a.pages[1].width, 300);
}

#[test]
fn get_annotation_mutation_does_not_leak_back() {
    let catalog = Manga109::from_parts("/root".to_string(), vec![sample_book("t")]).unwrap();
    let mut a1 = catalog.get_annotation("t", true).unwrap();
    a1.title.push_str("-changed");
    a1.characters[0].name = "other".to_string();
    a1.pages[0].frames[0].xmin = 999;
    a1.pages.pop();
    let a2 = catalog.get_annotation("t", true).unwrap();
    assert_eq!(a2.title, "t");
    assert_eq!(a2.characters[0].name, "n1");
    assert_eq!(a2.pages.len(), 2);
    assert_eq!(a2.pages[0].frames[0].xmin, 10);
}

#[test]
fn get_annotation_zero_pages_is_an_empty_dataset() {
    let xml = r#"<annotation title="t"><characters/></annotation>"#;
    let book = parse_raw_xml_annotations_and_make_book(xml, "", "").unwrap();
    let catalog = Manga109::from_parts("/root".to_string(), vec![book]).unwrap();
    match catalog.get_annotation("t", true) {
        Err(Error::EmptyDataset { title }) => assert_eq!(title, "t"),
        other => panic!("expected empty-dataset, got {:?}", other),
    }
}

#[test]
fn get_annotation_flag_values_agree() {
    let catalog = Manga109::from_parts("/root".to_string(), vec![sample_book("t")]).unwrap();
    let a = catalog.get_annotation("t", true).unwrap();
    let b = catalog.get_annotation("t", false).unwrap();
    assert_eq!(a.title, b.title);
    assert_eq!(a.characters, b.characters);
    assert_eq!(a.pages, b.pages);
}

#[test]
fn duplicate_titles_resolve_to_the_first() {
    let mut first = sample_book("t");
    first.image_root_dir = "first".to_string();
    let mut second = sample_book("t");
    second.image_root_dir = "second".to_string();
    let catalog = Manga109::from_parts("/root".to_string(), vec![first, second]).unwrap();
    assert_eq!(catalog.img_path("t", &0).unwrap(), "first/000.jpg");
}

#[test]
fn normalize_paths_matches_a_single_pass() {
    assert_eq!(normalize_paths("a\\b"), "a/b");
    assert_eq!(normalize_paths("a//b"), "a/b");
    assert_eq!(normalize_paths("a\\\\b"), "a/b");
    assert_eq!(normalize_paths("a///b"), "a//b");
    assert_eq!(normalize_paths(""), "");
    assert_eq!(normalize_paths("no change"), "no change");
}

#[test]
fn rectangle_accessors_compute_differences() {
    let f = Frame {
        id: "f".to_string(),
        xmin: 10,
        ymin: 20,
        xmax: 30,
        ymax: 45,
    };
    assert_eq!(f.get_width(), 20);
    assert_eq!(f.get_height(), 25);
}

#[test]
fn reparsing_the_same_xml_gives_the_same_dimensions() {
    let b1 = sample_book("t");
    let b2 = sample_book("t");
    assert_eq!(b1.pages[0].frames[0].get_width(), b2.pages[0].frames[0].get_width());
    assert_eq!(b1.pages[0].frames[0].get_height(), b2.pages[0].frames[0].get_height());
    assert_eq!(b1.pages, b2.pages);
    assert_eq!(b1.characters, b2.characters);
}
