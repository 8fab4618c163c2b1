//! The XML book parser: from the node list of a parsed document to a fully
//! populated book.
//!
//! The mathematical model walks the node list in document order. Characters
//! and pages are matched by tag at any nesting depth; each page's entities
//! are matched within the page's subtree. Required attributes must be
//! present, numeric fields must be canonical digit strings in range, a text
//! box must carry text content, and every rectangle must satisfy
//! `xmin < xmax` and `ymin < ymax`; the first violation in processing
//! order is the error of the whole parse.

use vstd::prelude::*;

use crate::error::lift;
use crate::error::Error;
use crate::error::ErrorSpec;
use crate::model::Book;
use crate::model::BookSpec;
use crate::model::Body;
use crate::model::BodySpec;
use crate::model::Character;
use crate::model::CharacterSpec;
use crate::model::Face;
use crate::model::FaceSpec;
use crate::model::Frame;
use crate::model::FrameSpec;
use crate::model::Page;
use crate::model::PageSpec;
use crate::model::Text;
use crate::model::TextSpec;
use crate::num::parse_u32_digits;
use crate::num::parse_u32_spec;
use crate::num::parse_usize_digits;
use crate::num::parse_usize_spec;
use crate::xml::attr_of;
use crate::xml::find_attr;
use crate::xml::is_tagged;
use crate::xml::node_is_tagged;
use crate::xml::parse_xml_nodes;
use crate::xml::subtree_end;
use crate::xml::subtree_end_from;
use crate::xml::xml_elements_of;
use crate::xml::XmlNode;
use crate::xml::XmlNodeSpec;

verus! {

/// A missing or malformed attribute on an element of the given tag.
pub open spec fn schema_err(title: Seq<char>, tag: Seq<char>, attr: Seq<char>) -> ErrorSpec {
    ErrorSpec::Schema { title, tag, attr }
}

/// A degenerate rectangle on an element of the given tag.
pub open spec fn integrity_err(title: Seq<char>, tag: Seq<char>, id: Seq<char>) -> ErrorSpec {
    ErrorSpec::Integrity { title, tag, id }
}

/// The value of a required `u32` attribute, or the schema error that
/// names the element tag and the attribute.
pub open spec fn u32_attr(
    title: Seq<char>,
    tag: Seq<char>,
    n: XmlNodeSpec,
    name: Seq<char>,
) -> Result<u32, ErrorSpec> {
    match attr_of(n, name) {
        Option::None => Err(schema_err(title, tag, name)),
        Option::Some(s) => match parse_u32_spec(s) {
            Option::None => Err(schema_err(title, tag, name)),
            Option::Some(v) => Ok(v),
        },
    }
}

/// The value of a required `usize` attribute, or the schema error.
pub open spec fn usize_attr(
    title: Seq<char>,
    tag: Seq<char>,
    n: XmlNodeSpec,
    name: Seq<char>,
) -> Result<usize, ErrorSpec> {
    match attr_of(n, name) {
        Option::None => Err(schema_err(title, tag, name)),
        Option::Some(s) => match parse_usize_spec(s) {
            Option::None => Err(schema_err(title, tag, name)),
            Option::Some(v) => Ok(v),
        },
    }
}

/// What a `character` element yields: its `id` and `name` attributes, in
/// that checking order.
pub open spec fn character_result(title: Seq<char>, n: XmlNodeSpec) -> Result<
    CharacterSpec,
    ErrorSpec,
> {
    match attr_of(n, "id"@) {
        Option::None => Err(schema_err(title, "character"@, "id"@)),
        Option::Some(id) => match attr_of(n, "name"@) {
            Option::None => Err(schema_err(title, "character"@, "name"@)),
            Option::Some(name) => Ok(CharacterSpec { id, name }),
        },
    }
}

/// What a `frame` element yields: id and the four coordinates, checked in
/// document-attribute order, then the rectangle's integrity.
pub open spec fn frame_result(title: Seq<char>, n: XmlNodeSpec) -> Result<FrameSpec, ErrorSpec> {
    match attr_of(n, "id"@) {
        Option::None => Err(schema_err(title, "frame"@, "id"@)),
        Option::Some(id) => match u32_attr(title, "frame"@, n, "xmin"@) {
            Err(e) => Err(e),
            Ok(xmin) => match u32_attr(title, "frame"@, n, "ymin"@) {
                Err(e) => Err(e),
                Ok(ymin) => match u32_attr(title, "frame"@, n, "xmax"@) {
                    Err(e) => Err(e),
                    Ok(xmax) => match u32_attr(title, "frame"@, n, "ymax"@) {
                        Err(e) => Err(e),
                        Ok(ymax) => if xmax <= xmin || ymax <= ymin {
                            Err(integrity_err(title, "frame"@, id))
                        } else {
                            Ok(FrameSpec { id, xmin, ymin, xmax, ymax })
                        },
                    },
                },
            },
        },
    }
}

/// What a `text` element yields: id, coordinates, then the required text
/// content (reported as the attribute `#text` when absent), then the
/// rectangle's integrity.
pub open spec fn text_result(title: Seq<char>, n: XmlNodeSpec) -> Result<TextSpec, ErrorSpec> {
    match attr_of(n, "id"@) {
        Option::None => Err(schema_err(title, "text"@, "id"@)),
        Option::Some(id) => match u32_attr(title, "text"@, n, "xmin"@) {
            Err(e) => Err(e),
            Ok(xmin) => match u32_attr(title, "text"@, n, "ymin"@) {
                Err(e) => Err(e),
                Ok(ymin) => match u32_attr(title, "text"@, n, "xmax"@) {
                    Err(e) => Err(e),
                    Ok(xmax) => match u32_attr(title, "text"@, n, "ymax"@) {
                        Err(e) => Err(e),
                        Ok(ymax) => match n.text {
                            Option::None => Err(schema_err(title, "text"@, "#text"@)),
                            Option::Some(value) => if xmax <= xmin || ymax <= ymin {
                                Err(integrity_err(title, "text"@, id))
                            } else {
                                Ok(TextSpec { id, xmin, ymin, xmax, ymax, value })
                            },
                        },
                    },
                },
            },
        },
    }
}

/// What a `face` element yields: id, coordinates, the required `character`
/// reference, then the rectangle's integrity.
pub open spec fn face_result(title: Seq<char>, n: XmlNodeSpec) -> Result<FaceSpec, ErrorSpec> {
    match attr_of(n, "id"@) {
        Option::None => Err(schema_err(title, "face"@, "id"@)),
        Option::Some(id) => match u32_attr(title, "face"@, n, "xmin"@) {
            Err(e) => Err(e),
            Ok(xmin) => match u32_attr(title, "face"@, n, "ymin"@) {
                Err(e) => Err(e),
                Ok(ymin) => match u32_attr(title, "face"@, n, "xmax"@) {
                    Err(e) => Err(e),
                    Ok(xmax) => match u32_attr(title, "face"@, n, "ymax"@) {
                        Err(e) => Err(e),
                        Ok(ymax) => match attr_of(n, "character"@) {
                            Option::None => Err(schema_err(title, "face"@, "character"@)),
                            Option::Some(character) => if xmax <= xmin || ymax <= ymin {
                                Err(integrity_err(title, "face"@, id))
                            } else {
                                Ok(FaceSpec { id, xmin, ymin, xmax, ymax, character })
                            },
                        },
                    },
                },
            },
        },
    }
}

/// What a `body` element yields: id, coordinates, the required `character`
/// reference, then the rectangle's integrity.
pub open spec fn body_result(title: Seq<char>, n: XmlNodeSpec) -> Result<BodySpec, ErrorSpec> {
    match attr_of(n, "id"@) {
        Option::None => Err(schema_err(title, "body"@, "id"@)),
        Option::Some(id) => match u32_attr(title, "body"@, n, "xmin"@) {
            Err(e) => Err(e),
            Ok(xmin) => match u32_attr(title, "body"@, n, "ymin"@) {
                Err(e) => Err(e),
                Ok(ymin) => match u32_attr(title, "body"@, n, "xmax"@) {
                    Err(e) => Err(e),
                    Ok(xmax) => match u32_attr(title, "body"@, n, "ymax"@) {
                        Err(e) => Err(e),
                        Ok(ymax) => match attr_of(n, "character"@) {
                            Option::None => Err(schema_err(title, "body"@, "character"@)),
                            Option::Some(character) => if xmax <= xmin || ymax <= ymin {
                                Err(integrity_err(title, "body"@, id))
                            } else {
                                Ok(BodySpec { id, xmin, ymin, xmax, ymax, character })
                            },
                        },
                    },
                },
            },
        },
    }
}

/// The characters among nodes `lo .. hi`, in document order, or the first
/// error among them.
pub open spec fn characters_upto(title: Seq<char>, ns: Seq<XmlNodeSpec>, lo: int, hi: int) -> Result<
    Seq<CharacterSpec>,
    ErrorSpec,
>
    decreases hi - lo,
{
    if hi <= lo {
        Ok(Seq::empty())
    } else {
        match characters_upto(title, ns, lo, hi - 1) {
            Err(e) => Err(e),
            Ok(s) => if is_tagged(ns[hi - 1], "character"@) {
                match character_result(title, ns[hi - 1]) {
                    Err(e) => Err(e),
                    Ok(c) => Ok(s.push(c)),
                }
            } else {
                Ok(s)
            },
        }
    }
}

/// The frames among nodes `lo .. hi`, in document order, or the first
/// error among them.
pub open spec fn frames_upto(title: Seq<char>, ns: Seq<XmlNodeSpec>, lo: int, hi: int) -> Result<
    Seq<FrameSpec>,
    ErrorSpec,
>
    decreases hi - lo,
{
    if hi <= lo {
        Ok(Seq::empty())
    } else {
        match frames_upto(title, ns, lo, hi - 1) {
            Err(e) => Err(e),
            Ok(s) => if is_tagged(ns[hi - 1], "frame"@) {
                match frame_result(title, ns[hi - 1]) {
                    Err(e) => Err(e),
                    Ok(f) => Ok(s.push(f)),
                }
            } else {
                Ok(s)
            },
        }
    }
}

/// The text boxes among nodes `lo .. hi`, in document order, or the first
/// error among them.
pub open spec fn texts_upto(title: Seq<char>, ns: Seq<XmlNodeSpec>, lo: int, hi: int) -> Result<
    Seq<TextSpec>,
    ErrorSpec,
>
    decreases hi - lo,
{
    if hi <= lo {
        Ok(Seq::empty())
    } else {
        match texts_upto(title, ns, lo, hi - 1) {
            Err(e) => Err(e),
            Ok(s) => if is_tagged(ns[hi - 1], "text"@) {
                match text_result(title, ns[hi - 1]) {
                    Err(e) => Err(e),
                    Ok(t) => Ok(s.push(t)),
                }
            } else {
                Ok(s)
            },
        }
    }
}

/// The faces among nodes `lo .. hi`, in document order, or the first
/// error among them.
pub open spec fn faces_upto(title: Seq<char>, ns: Seq<XmlNodeSpec>, lo: int, hi: int) -> Result<
    Seq<FaceSpec>,
    ErrorSpec,
>
    decreases hi - lo,
{
    if hi <= lo {
        Ok(Seq::empty())
    } else {
        match faces_upto(title, ns, lo, hi - 1) {
            Err(e) => Err(e),
            Ok(s) => if is_tagged(ns[hi - 1], "face"@) {
                match face_result(title, ns[hi - 1]) {
                    Err(e) => Err(e),
                    Ok(f) => Ok(s.push(f)),
                }
            } else {
                Ok(s)
            },
        }
    }
}

/// The bodies among nodes `lo .. hi`, in document order, or the first
/// error among them.
pub open spec fn bodies_upto(title: Seq<char>, ns: Seq<XmlNodeSpec>, lo: int, hi: int) -> Result<
    Seq<BodySpec>,
    ErrorSpec,
>
    decreases hi - lo,
{
    if hi <= lo {
        Ok(Seq::empty())
    } else {
        match bodies_upto(title, ns, lo, hi - 1) {
            Err(e) => Err(e),
            Ok(s) => if is_tagged(ns[hi - 1], "body"@) {
                match body_result(title, ns[hi - 1]) {
                    Err(e) => Err(e),
                    Ok(b) => Ok(s.push(b)),
                }
            } else {
                Ok(s)
            },
        }
    }
}

/// What a `page` element at position `k` yields: index, width and height,
/// then the four entity collections gathered from the page's subtree, in
/// that checking order.
pub open spec fn page_result(title: Seq<char>, ns: Seq<XmlNodeSpec>, k: int) -> Result<
    PageSpec,
    ErrorSpec,
> {
    match usize_attr(title, "page"@, ns[k], "index"@) {
        Err(e) => Err(e),
        Ok(index) => match u32_attr(title, "page"@, ns[k], "width"@) {
            Err(e) => Err(e),
            Ok(width) => match u32_attr(title, "page"@, ns[k], "height"@) {
                Err(e) => Err(e),
                Ok(height) => {
                    let end = subtree_end_from(ns, ns[k].depth, k + 1);
                    match frames_upto(title, ns, k + 1, end) {
                        Err(e) => Err(e),
                        Ok(frames) => match texts_upto(title, ns, k + 1, end) {
                            Err(e) => Err(e),
                            Ok(texts) => match faces_upto(title, ns, k + 1, end) {
                                Err(e) => Err(e),
                                Ok(faces) => match bodies_upto(title, ns, k + 1, end) {
                                    Err(e) => Err(e),
                                    Ok(bodies) => Ok(
                                        PageSpec {
                                            frames,
                                            texts,
                                            faces,
                                            bodies,
                                            index,
                                            width,
                                            height,
                                        },
                                    ),
                                },
                            },
                        },
                    }
                },
            },
        },
    }
}

/// The pages among nodes `lo .. hi`, in document order, or the first
/// error among them.
pub open spec fn pages_upto(title: Seq<char>, ns: Seq<XmlNodeSpec>, lo: int, hi: int) -> Result<
    Seq<PageSpec>,
    ErrorSpec,
>
    decreases hi - lo,
{
    if hi <= lo {
        Ok(Seq::empty())
    } else {
        match pages_upto(title, ns, lo, hi - 1) {
            Err(e) => Err(e),
            Ok(s) => if is_tagged(ns[hi - 1], "page"@) {
                match page_result(title, ns, hi - 1) {
                    Err(e) => Err(e),
                    Ok(p) => Ok(s.push(p)),
                }
            } else {
                Ok(s)
            },
        }
    }
}

/// What a whole node list yields: the root's `title` attribute, the
/// characters, then the pages; the given paths are recorded verbatim.
pub open spec fn book_from_nodes_spec(
    ns: Seq<XmlNodeSpec>,
    xml_path: Seq<char>,
    image_path: Seq<char>,
) -> Result<BookSpec, ErrorSpec> {
    if ns.len() == 0 {
        Err(schema_err(""@, ""@, "title"@))
    } else {
        match attr_of(ns[0], "title"@) {
            Option::None => Err(schema_err(""@, ns[0].tag, "title"@)),
            Option::Some(title) => match characters_upto(title, ns, 0, ns.len() as int) {
                Err(e) => Err(e),
                Ok(characters) => match pages_upto(title, ns, 0, ns.len() as int) {
                    Err(e) => Err(e),
                    Ok(pages) => Ok(
                        BookSpec {
                            characters,
                            pages,
                            title,
                            annotation_filepaths: xml_path,
                            image_root_dir: image_path,
                        },
                    ),
                },
            },
        }
    }
}

/// An error before `mid` is the error of any longer scan.
proof fn lemma_characters_upto_err(title: Seq<char>, ns: Seq<XmlNodeSpec>, lo: int, mid: int, hi: int)
    requires
        lo <= mid <= hi,
        characters_upto(title, ns, lo, mid) is Err,
    ensures
        characters_upto(title, ns, lo, hi) == characters_upto(title, ns, lo, mid),
    decreases hi - mid,
{
    if mid < hi {
        lemma_characters_upto_err(title, ns, lo, mid, hi - 1);
    }
}

/// An error before `mid` is the error of any longer scan.
proof fn lemma_frames_upto_err(title: Seq<char>, ns: Seq<XmlNodeSpec>, lo: int, mid: int, hi: int)
    requires
        lo <= mid <= hi,
        frames_upto(title, ns, lo, mid) is Err,
    ensures
        frames_upto(title, ns, lo, hi) == frames_upto(title, ns, lo, mid),
    decreases hi - mid,
{
    if mid < hi {
        lemma_frames_upto_err(title, ns, lo, mid, hi - 1);
    }
}

/// An error before `mid` is the error of any longer scan.
proof fn lemma_texts_upto_err(title: Seq<char>, ns: Seq<XmlNodeSpec>, lo: int, mid: int, hi: int)
    requires
        lo <= mid <= hi,
        texts_upto(title, ns, lo, mid) is Err,
    ensures
        texts_upto(title, ns, lo, hi) == texts_upto(title, ns, lo, mid),
    decreases hi - mid,
{
    if mid < hi {
        lemma_texts_upto_err(title, ns, lo, mid, hi - 1);
    }
}

/// An error before `mid` is the error of any longer scan.
proof fn lemma_faces_upto_err(title: Seq<char>, ns: Seq<XmlNodeSpec>, lo: int, mid: int, hi: int)
    requires
        lo <= mid <= hi,
        faces_upto(title, ns, lo, mid) is Err,
    ensures
        faces_upto(title, ns, lo, hi) == faces_upto(title, ns, lo, mid),
    decreases hi - mid,
{
    if mid < hi {
        lemma_faces_upto_err(title, ns, lo, mid, hi - 1);
    }
}

/// An error before `mid` is the error of any longer scan.
proof fn lemma_bodies_upto_err(title: Seq<char>, ns: Seq<XmlNodeSpec>, lo: int, mid: int, hi: int)
    requires
        lo <= mid <= hi,
        bodies_upto(title, ns, lo, mid) is Err,
    ensures
        bodies_upto(title, ns, lo, hi) == bodies_upto(title, ns, lo, mid),
    decreases hi - mid,
{
    if mid < hi {
        lemma_bodies_upto_err(title, ns, lo, mid, hi - 1);
    }
}

/// An error before `mid` is the error of any longer scan.
proof fn lemma_pages_upto_err(title: Seq<char>, ns: Seq<XmlNodeSpec>, lo: int, mid: int, hi: int)
    requires
        lo <= mid <= hi,
        pages_upto(title, ns, lo, mid) is Err,
    ensures
        pages_upto(title, ns, lo, hi) == pages_upto(title, ns, lo, mid),
    decreases hi - mid,
{
    if mid < hi {
        lemma_pages_upto_err(title, ns, lo, mid, hi - 1);
    }
}

/// A schema error value.
fn schema_error(title: &str, tag: &str, attr: &str) -> (e: Error)
    ensures
        e@ == schema_err(title@, tag@, attr@),
{
    Error::Schema { title: title.to_owned(), tag: tag.to_owned(), attr: attr.to_owned() }
}

/// Reads a required `u32` attribute, as `u32_attr` says.
fn read_u32_attr(title: &str, tag: &str, n: &XmlNode, name: &str) -> (r: Result<u32, Error>)
    ensures
        lift(r) == u32_attr(title@, tag@, n.deep_view(), name@),
{
    match find_attr(n, name) {
        None => Err(schema_error(title, tag, name)),
        Some(s) => match parse_u32_digits(s.as_str()) {
            None => Err(schema_error(title, tag, name)),
            Some(v) => Ok(v),
        },
    }
}

/// Reads a required `usize` attribute, as `usize_attr` says.
fn read_usize_attr(title: &str, tag: &str, n: &XmlNode, name: &str) -> (r: Result<usize, Error>)
    ensures
        lift(r) == usize_attr(title@, tag@, n.deep_view(), name@),
{
    match find_attr(n, name) {
        None => Err(schema_error(title, tag, name)),
        Some(s) => match parse_usize_digits(s.as_str()) {
            None => Err(schema_error(title, tag, name)),
            Some(v) => Ok(v),
        },
    }
}

/// Reads one `character` element, as `character_result` says.
fn read_character(title: &str, n: &XmlNode) -> (r: Result<Character, Error>)
    ensures
        lift(r) == character_result(title@, n.deep_view()),
{
    let id = match find_attr(n, "id") {
        None => {
            return Err(schema_error(title, "character", "id"));
        },
        Some(v) => v,
    };
    let name = match find_attr(n, "name") {
        None => {
            return Err(schema_error(title, "character", "name"));
        },
        Some(v) => v,
    };
    Ok(Character { id, name })
}

/// Reads one `frame` element, as `frame_result` says.
fn read_frame(title: &str, n: &XmlNode) -> (r: Result<Frame, Error>)
    ensures
        lift(r) == frame_result(title@, n.deep_view()),
{
    let id = match find_attr(n, "id") {
        None => {
            return Err(schema_error(title, "frame", "id"));
        },
        Some(v) => v,
    };
    let xmin = match read_u32_attr(title, "frame", n, "xmin") {
        Err(e) => {
            return Err(e);
        },
        Ok(v) => v,
    };
    let ymin = match read_u32_attr(title, "frame", n, "ymin") {
        Err(e) => {
            return Err(e);
        },
        Ok(v) => v,
    };
    let xmax = match read_u32_attr(title, "frame", n, "xmax") {
        Err(e) => {
            return Err(e);
        },
        Ok(v) => v,
    };
    let ymax = match read_u32_attr(title, "frame", n, "ymax") {
        Err(e) => {
            return Err(e);
        },
        Ok(v) => v,
    };
    if xmax <= xmin || ymax <= ymin {
        return Err(Error::Integrity { title: title.to_owned(), tag: "frame".to_owned(), id });
    }
    Ok(Frame { id, xmin, ymin, xmax, ymax })
}

/// Reads one `text` element, as `text_result` says.
fn read_text(title: &str, n: &XmlNode) -> (r: Result<Text, Error>)
    ensures
        lift(r) == text_result(title@, n.deep_view()),
{
    let id = match find_attr(n, "id") {
        None => {
            return Err(schema_error(title, "text", "id"));
        },
        Some(v) => v,
    };
    let xmin = match read_u32_attr(title, "text", n, "xmin") {
        Err(e) => {
            return Err(e);
        },
        Ok(v) => v,
    };
    let ymin = match read_u32_attr(title, "text", n, "ymin") {
        Err(e) => {
            return Err(e);
        },
        Ok(v) => v,
    };
    let xmax = match read_u32_attr(title, "text", n, "xmax") {
        Err(e) => {
            return Err(e);
        },
        Ok(v) => v,
    };
    let ymax = match read_u32_attr(title, "text", n, "ymax") {
        Err(e) => {
            return Err(e);
        },
        Ok(v) => v,
    };
    let value = match &n.text {
        None => {
            return Err(schema_error(title, "text", "#text"));
        },
        Some(v) => v.clone(),
    };
    if xmax <= xmin || ymax <= ymin {
        return Err(Error::Integrity { title: title.to_owned(), tag: "text".to_owned(), id });
    }
    Ok(Text { id, xmin, ymin, xmax, ymax, value })
}

/// Reads one `face` element, as `face_result` says.
fn read_face(title: &str, n: &XmlNode) -> (r: Result<Face, Error>)
    ensures
        lift(r) == face_result(title@, n.deep_view()),
{
    let id = match find_attr(n, "id") {
        None => {
            return Err(schema_error(title, "face", "id"));
        },
        Some(v) => v,
    };
    let xmin = match read_u32_attr(title, "face", n, "xmin") {
        Err(e) => {
            return Err(e);
        },
        Ok(v) => v,
    };
    let ymin = match read_u32_attr(title, "face", n, "ymin") {
        Err(e) => {
            return Err(e);
        },
        Ok(v) => v,
    };
    let xmax = match read_u32_attr(title, "face", n, "xmax") {
        Err(e) => {
            return Err(e);
        },
        Ok(v) => v,
    };
    let ymax = match read_u32_attr(title, "face", n, "ymax") {
        Err(e) => {
            return Err(e);
        },
        Ok(v) => v,
    };
    let character = match find_attr(n, "character") {
        None => {
            return Err(schema_error(title, "face", "character"));
        },
        Some(v) => v,
    };
    if xmax <= xmin || ymax <= ymin {
        return Err(Error::Integrity { title: title.to_owned(), tag: "face".to_owned(), id });
    }
    Ok(Face { id, xmin, ymin, xmax, ymax, character })
}

/// Reads one `body` element, as `body_result` says.
fn read_body(title: &str, n: &XmlNode) -> (r: Result<Body, Error>)
    ensures
        lift(r) == body_result(title@, n.deep_view()),
{
    let id = match find_attr(n, "id") {
        None => {
            return Err(schema_error(title, "body", "id"));
        },
        Some(v) => v,
    };
    let xmin = match read_u32_attr(title, "body", n, "xmin") {
        Err(e) => {
            return Err(e);
        },
        Ok(v) => v,
    };
    let ymin = match read_u32_attr(title, "body", n, "ymin") {
        Err(e) => {
            return Err(e);
        },
        Ok(v) => v,
    };
    let xmax = match read_u32_attr(title, "body", n, "xmax") {
        Err(e) => {
            return Err(e);
        },
        Ok(v) => v,
    };
    let ymax = match read_u32_attr(title, "body", n, "ymax") {
        Err(e) => {
            return Err(e);
        },
        Ok(v) => v,
    };
    let character = match find_attr(n, "character") {
        None => {
            return Err(schema_error(title, "body", "character"));
        },
        Some(v) => v,
    };
    if xmax <= xmin || ymax <= ymin {
        return Err(Error::Integrity { title: title.to_owned(), tag: "body".to_owned(), id });
    }
    Ok(Body { id, xmin, ymin, xmax, ymax, character })
}

/// Gathers the characters among nodes `lo .. hi`, as `characters_upto`
/// says.
fn collect_characters(title: &str, ns: &Vec<XmlNode>, lo: usize, hi: usize) -> (r: Result<
    Vec<Character>,
    Error,
>)
    requires
        lo <= hi <= ns@.len(),
    ensures
        lift(r) == characters_upto(title@, ns.deep_view(), lo as int, hi as int),
{
    let mut out: Vec<Character> = Vec::new();
    let mut h = lo;
    proof {
        assert(out.deep_view() =~= Seq::<CharacterSpec>::empty());
    }
    while h < hi
        invariant
            lo <= h <= hi <= ns@.len(),
            characters_upto(title@, ns.deep_view(), lo as int, h as int) == Ok::<
                Seq<CharacterSpec>,
                ErrorSpec,
            >(out.deep_view()),
        decreases hi - h,
    {
        proof {
            assert(ns.deep_view()[h as int] == ns@[h as int].deep_view());
        }
        if node_is_tagged(&ns[h], "character") {
            match read_character(title, &ns[h]) {
                Err(e) => {
                    proof {
                        lemma_characters_upto_err(
                            title@,
                            ns.deep_view(),
                            lo as int,
                            h + 1,
                            hi as int,
                        );
                    }
                    return Err(e);
                },
                Ok(c) => {
                    let ghost pre = out.deep_view();
                    let ghost cv = c.deep_view();
                    out.push(c);
                    proof {
                        assert(out.deep_view() =~= pre.push(cv));
                    }
                },
            }
        }
        h = h + 1;
    }
    Ok(out)
}

/// Gathers the frames among nodes `lo .. hi`, as `frames_upto` says.
fn collect_frames(title: &str, ns: &Vec<XmlNode>, lo: usize, hi: usize) -> (r: Result<
    Vec<Frame>,
    Error,
>)
    requires
        lo <= hi <= ns@.len(),
    ensures
        lift(r) == frames_upto(title@, ns.deep_view(), lo as int, hi as int),
{
    let mut out: Vec<Frame> = Vec::new();
    let mut h = lo;
    proof {
        assert(out.deep_view() =~= Seq::<FrameSpec>::empty());
    }
    while h < hi
        invariant
            lo <= h <= hi <= ns@.len(),
            frames_upto(title@, ns.deep_view(), lo as int, h as int) == Ok::<
                Seq<FrameSpec>,
                ErrorSpec,
            >(out.deep_view()),
        decreases hi - h,
    {
        proof {
            assert(ns.deep_view()[h as int] == ns@[h as int].deep_view());
        }
        if node_is_tagged(&ns[h], "frame") {
            match read_frame(title, &ns[h]) {
                Err(e) => {
                    proof {
                        lemma_frames_upto_err(title@, ns.deep_view(), lo as int, h + 1, hi as int);
                    }
                    return Err(e);
                },
                Ok(f) => {
                    let ghost pre = out.deep_view();
                    let ghost fv = f.deep_view();
                    out.push(f);
                    proof {
                        assert(out.deep_view() =~= pre.push(fv));
                    }
                },
            }
        }
        h = h + 1;
    }
    Ok(out)
}

/// Gathers the text boxes among nodes `lo .. hi`, as `texts_upto` says.
fn collect_texts(title: &str, ns: &Vec<XmlNode>, lo: usize, hi: usize) -> (r: Result<
    Vec<Text>,
    Error,
>)
    requires
        lo <= hi <= ns@.len(),
    ensures
        lift(r) == texts_upto(title@, ns.deep_view(), lo as int, hi as int),
{
    let mut out: Vec<Text> = Vec::new();
    let mut h = lo;
    proof {
        assert(out.deep_view() =~= Seq::<TextSpec>::empty());
    }
    while h < hi
        invariant
            lo <= h <= hi <= ns@.len(),
            texts_upto(title@, ns.deep_view(), lo as int, h as int) == Ok::<
                Seq<TextSpec>,
                ErrorSpec,
            >(out.deep_view()),
        decreases hi - h,
    {
        proof {
            assert(ns.deep_view()[h as int] == ns@[h as int].deep_view());
        }
        if node_is_tagged(&ns[h], "text") {
            match read_text(title, &ns[h]) {
                Err(e) => {
                    proof {
                        lemma_texts_upto_err(title@, ns.deep_view(), lo as int, h + 1, hi as int);
                    }
                    return Err(e);
                },
                Ok(t) => {
                    let ghost pre = out.deep_view();
                    let ghost tv = t.deep_view();
                    out.push(t);
                    proof {
                        assert(out.deep_view() =~= pre.push(tv));
                    }
                },
            }
        }
        h = h + 1;
    }
    Ok(out)
}

/// Gathers the faces among nodes `lo .. hi`, as `faces_upto` says.
fn collect_faces(title: &str, ns: &Vec<XmlNode>, lo: usize, hi: usize) -> (r: Result<
    Vec<Face>,
    Error,
>)
    requires
        lo <= hi <= ns@.len(),
    ensures
        lift(r) == faces_upto(title@, ns.deep_view(), lo as int, hi as int),
{
    let mut out: Vec<Face> = Vec::new();
    let mut h = lo;
    proof {
        assert(out.deep_view() =~= Seq::<FaceSpec>::empty());
    }
    while h < hi
        invariant
            lo <= h <= hi <= ns@.len(),
            faces_upto(title@, ns.deep_view(), lo as int, h as int) == Ok::<
                Seq<FaceSpec>,
                ErrorSpec,
            >(out.deep_view()),
        decreases hi - h,
    {
        proof {
            assert(ns.deep_view()[h as int] == ns@[h as int].deep_view());
        }
        if node_is_tagged(&ns[h], "face") {
            match read_face(title, &ns[h]) {
                Err(e) => {
                    proof {
                        lemma_faces_upto_err(title@, ns.deep_view(), lo as int, h + 1, hi as int);
                    }
                    return Err(e);
                },
                Ok(f) => {
                    let ghost pre = out.deep_view();
                    let ghost fv = f.deep_view();
                    out.push(f);
                    proof {
                        assert(out.deep_view() =~= pre.push(fv));
                    }
                },
            }
        }
        h = h + 1;
    }
    Ok(out)
}

/// Gathers the bodies among nodes `lo .. hi`, as `bodies_upto` says.
fn collect_bodies(title: &str, ns: &Vec<XmlNode>, lo: usize, hi: usize) -> (r: Result<
    Vec<Body>,
    Error,
>)
    requires
        lo <= hi <= ns@.len(),
    ensures
        lift(r) == bodies_upto(title@, ns.deep_view(), lo as int, hi as int),
{
    let mut out: Vec<Body> = Vec::new();
    let mut h = lo;
    proof {
        assert(out.deep_view() =~= Seq::<BodySpec>::empty());
    }
    while h < hi
        invariant
            lo <= h <= hi <= ns@.len(),
            bodies_upto(title@, ns.deep_view(), lo as int, h as int) == Ok::<
                Seq<BodySpec>,
                ErrorSpec,
            >(out.deep_view()),
        decreases hi - h,
    {
        proof {
            assert(ns.deep_view()[h as int] == ns@[h as int].deep_view());
        }
        if node_is_tagged(&ns[h], "body") {
            match read_body(title, &ns[h]) {
                Err(e) => {
                    proof {
                        lemma_bodies_upto_err(title@, ns.deep_view(), lo as int, h + 1, hi as int);
                    }
                    return Err(e);
                },
                Ok(b) => {
                    let ghost pre = out.deep_view();
                    let ghost bv = b.deep_view();
                    out.push(b);
                    proof {
                        assert(out.deep_view() =~= pre.push(bv));
                    }
                },
            }
        }
        h = h + 1;
    }
    Ok(out)
}

/// Reads one `page` element at position `k`, as `page_result` says.
fn read_page(title: &str, ns: &Vec<XmlNode>, k: usize) -> (r: Result<Page, Error>)
    requires
        k < ns@.len(),
    ensures
        lift(r) == page_result(title@, ns.deep_view(), k as int),
{
    proof {
        assert(ns.deep_view()[k as int] == ns@[k as int].deep_view());
    }
    let index = match read_usize_attr(title, "page", &ns[k], "index") {
        Err(e) => {
            return Err(e);
        },
        Ok(v) => v,
    };
    let width = match read_u32_attr(title, "page", &ns[k], "width") {
        Err(e) => {
            return Err(e);
        },
        Ok(v) => v,
    };
    let height = match read_u32_attr(title, "page", &ns[k], "height") {
        Err(e) => {
            return Err(e);
        },
        Ok(v) => v,
    };
    let d = ns[k].depth;
    let nlen = ns.len();
    assert(k < nlen);
    let end = subtree_end(ns, d, k + 1);
    let frames = match collect_frames(title, ns, k + 1, end) {
        Err(e) => {
            return Err(e);
        },
        Ok(v) => v,
    };
    let texts = match collect_texts(title, ns, k + 1, end) {
        Err(e) => {
            return Err(e);
        },
        Ok(v) => v,
    };
    let faces = match collect_faces(title, ns, k + 1, end) {
        Err(e) => {
            return Err(e);
        },
        Ok(v) => v,
    };
    let bodies = match collect_bodies(title, ns, k + 1, end) {
        Err(e) => {
            return Err(e);
        },
        Ok(v) => v,
    };
    Ok(Page { frames, texts, faces, bodies, index, width, height })
}

/// Gathers the pages among nodes `lo .. hi`, as `pages_upto` says.
fn collect_pages(title: &str, ns: &Vec<XmlNode>, lo: usize, hi: usize) -> (r: Result<
    Vec<Page>,
    Error,
>)
    requires
        lo <= hi <= ns@.len(),
    ensures
        lift(r) == pages_upto(title@, ns.deep_view(), lo as int, hi as int),
{
    let mut out: Vec<Page> = Vec::new();
    let mut h = lo;
    proof {
        assert(out.deep_view() =~= Seq::<PageSpec>::empty());
    }
    while h < hi
        invariant
            lo <= h <= hi <= ns@.len(),
            pages_upto(title@, ns.deep_view(), lo as int, h as int) == Ok::<
                Seq<PageSpec>,
                ErrorSpec,
            >(out.deep_view()),
        decreases hi - h,
    {
        proof {
            assert(ns.deep_view()[h as int] == ns@[h as int].deep_view());
        }
        if node_is_tagged(&ns[h], "page") {
            match read_page(title, ns, h) {
                Err(e) => {
                    proof {
                        lemma_pages_upto_err(title@, ns.deep_view(), lo as int, h + 1, hi as int);
                    }
                    return Err(e);
                },
                Ok(p) => {
                    let ghost pre = out.deep_view();
                    let ghost pv = p.deep_view();
                    out.push(p);
                    proof {
                        assert(out.deep_view() =~= pre.push(pv));
                    }
                },
            }
        }
        h = h + 1;
    }
    Ok(out)
}

/// Builds a book from the node list of a parsed document, as
/// `book_from_nodes_spec` says. This is where the whole schema logic is
/// checked, for every node list whatever the XML reader returned.
pub fn book_from_nodes(ns: &Vec<XmlNode>, xml_path: &str, image_path: &str) -> (r: Result<
    Book,
    Error,
>)
    ensures
        lift(r) == book_from_nodes_spec(ns.deep_view(), xml_path@, image_path@),
{
    if ns.len() == 0 {
        return Err(schema_error("", "", "title"));
    }
    proof {
        assert(ns.deep_view()[0] == ns@[0].deep_view());
    }
    let title = match find_attr(&ns[0], "title") {
        None => {
            let root_tag = ns[0].tag.clone();
            return Err(Error::Schema {
                title: "".to_owned(),
                tag: root_tag,
                attr: "title".to_owned(),
            });
        },
        Some(v) => v,
    };
    let characters = match collect_characters(title.as_str(), ns, 0, ns.len()) {
        Err(e) => {
            return Err(e);
        },
        Ok(v) => v,
    };
    let pages = match collect_pages(title.as_str(), ns, 0, ns.len()) {
        Err(e) => {
            return Err(e);
        },
        Ok(v) => v,
    };
    Ok(
        Book::assemble(
            characters,
            pages,
            title,
            xml_path.to_owned(),
            image_path.to_owned(),
        ),
    )
}

/// Parses raw XML text into a book. The XML reader turns the text into the
/// node list `xml_elements_of` names; all schema logic is then
/// `book_from_nodes`. The two path arguments are recorded verbatim as the
/// book's annotation-file path and image-directory path.
pub fn parse_raw_xml_annotations_and_make_book(
    raw_xml: &str,
    xml_pathsname: &str,
    image_pathsname: &str,
) -> (r: Result<Book, Error>)
    ensures
        xml_elements_of(raw_xml@) is None ==> (r matches Err(e) && e@ is Xml),
        xml_elements_of(raw_xml@) matches Some(nsv) ==> lift(r) == book_from_nodes_spec(
            nsv,
            xml_pathsname@,
            image_pathsname@,
        ),
{
    let nodes = match parse_xml_nodes(raw_xml) {
        Err(message) => {
            return Err(Error::Xml { message });
        },
        Ok(v) => v,
    };
    book_from_nodes(&nodes, xml_pathsname, image_pathsname)
}

} // verus!
