use manga109api::parse_raw_xml_annotations_and_make_book;
use manga109api::Annotation;
use manga109api::Body;
use manga109api::Face;
use manga109api::Frame;
use manga109api::Page;
use manga109api::Text;

#[test]
fn frame_flattens_to_key_value_tokens() {
    let f = Frame {
        id: "f1".to_string(),
        xmin: 10,
        ymin: 20,
        xmax: 30,
        ymax: 40,
    };
    assert_eq!(
        f.annotate(),
        vec!["tag", "frame", "id", "f1", "xmin", "10", "ymin", "20", "xmax", "30", "ymax", "40"]
    );
}

#[test]
fn text_flattens_with_its_content() {
    let t = Text {
        id: "t1".to_string(),
        xmin: 1,
        ymin: 2,
        xmax: 3,
        ymax: 4,
        value: "hello".to_string(),
    };
    assert_eq!(
        t.annotate(),
        vec!["tag", "text", "id", "t1", "xmin", "1", "ymin", "2", "xmax", "3", "ymax", "4", "#text", "hello"]
    );
}

#[test]
fn face_and_body_flatten_with_their_character() {
    let f = Face {
        id: "a".to_string(),
        xmin: 1,
        ymin: 2,
        xmax: 3,
        ymax: 4,
        character: "c9".to_string(),
    };
    assert_eq!(
        f.annotate(),
        vec!["tag", "face", "id", "a", "xmin", "1", "ymin", "2", "xmax", "3", "ymax", "4", "character", "c9"]
    );
    let b = Body {
        id: "b".to_string(),
        xmin: 5,
        ymin: 6,
        xmax: 7,
        ymax: 8,
        character: "c2".to_string(),
    };
    assert_eq!(
        b.annotate(),
        vec!["tag", "body", "id", "b", "xmin", "5", "ymin", "6", "xmax", "7", "ymax", "8", "character", "c2"]
    );
}

#[test]
fn page_flattens_groups_in_fixed_order() {
    let xml = r#"<annotation title="t"><page index="0" width="10" height="10">
        <body id="b1" xmin="1" ymin="1" xmax="2" ymax="2" character="c"/>
        <text id="t1" xmin="1" ymin="1" xmax="2" ymax="2">x</text>
        <frame id="f1" xmin="1" ymin="1" xmax="2" ymax="2"/>
        <face id="a1" xmin="1" ymin="1" xmax="2" ymax="2" character="c"/>
        <frame id="f2" xmin="3" ymin="3" xmax="4" ymax="4"/>
    </page></annotation>"#;
    let book = parse_raw_xml_annotations_and_make_book(xml, "", "").unwrap();
    let rows = book.pages[0].annotate();
    assert_eq!(rows.len(), 5);
    assert_eq!(rows[0][1], "frame");
    assert_eq!(rows[0][3], "f1");
    assert_eq!(rows[1][1], "frame");
    assert_eq!(rows[1][3], "f2");
    assert_eq!(rows[2][1], "text");
    assert_eq!(rows[3][1], "face");
    assert_eq!(rows[4][1], "body");
}

#[test]
fn parse_then_flatten_reproduces_the_source_values() {
    let xml = r#"<annotation title="t"><page index="0" width="10" height="10">
        <text id="t1" xmin="12" ymin="34" xmax="56" ymax="78">some words</text>
    </page></annotation>"#;
    let book = parse_raw_xml_annotations_and_make_book(xml, "", "").unwrap();
    let tokens = book.pages[0].texts[0].annotate();
    assert_eq!(
        tokens,
        vec!["tag", "text", "id", "t1", "xmin", "12", "ymin", "34", "xmax", "56", "ymax", "78", "#text", "some words"]
    );
}

#[test]
fn empty_annotation_has_no_entries() {
    let a = Annotation::new("t".to_string());
    assert_eq!(a.title, "t");
    assert!(a.characters.is_empty());
    assert!(a.pages.is_empty());
}

#[test]
fn page_annotate_of_an_empty_page_is_empty() {
    let p = Page {
        frames: Vec::new(),
        texts: Vec::new(),
        faces: Vec::new(),
        bodies: Vec::new(),
        index: 0,
        width: 1,
        height: 1,
    };
    assert_eq!(p.annotate(), Vec::<Vec<String>>::new());
}
