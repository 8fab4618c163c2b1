//! Laws of the library, proved once and for all: parsed rectangles are
//! well-ordered, parsing is a function of its input, flattening reproduces
//! what was parsed, and a page flattens in the fixed group order.

use vstd::prelude::*;

use crate::catalog::img_path_spec;
use crate::error::ErrorSpec;
use crate::flatten::body_tokens;
use crate::flatten::face_tokens;
use crate::flatten::frame_tokens;
use crate::flatten::page_tokens;
use crate::flatten::text_tokens;
use crate::model::BodySpec;
use crate::model::BookSpec;
use crate::model::CharacterSpec;
use crate::model::FaceSpec;
use crate::model::FrameSpec;
use crate::model::PageSpec;
use crate::model::TextSpec;
use crate::paths::image_file_name;
use crate::paths::lemma_image_file_name_slash_free;
use crate::paths::lemma_normalize_slash_free_suffix;
use crate::paths::normalize_spec;
use crate::num::is_canonical_dec;
use crate::num::lemma_dec_round_trip;
use crate::parse::body_result;
use crate::parse::bodies_upto;
use crate::parse::book_from_nodes_spec;
use crate::parse::character_result;
use crate::parse::characters_upto;
use crate::parse::face_result;
use crate::parse::faces_upto;
use crate::parse::frame_result;
use crate::parse::frames_upto;
use crate::parse::page_result;
use crate::parse::pages_upto;
use crate::parse::text_result;
use crate::parse::texts_upto;
use crate::xml::attr_of;
use crate::xml::subtree_end_from;
use crate::xml::tagged_indices;
use crate::xml::XmlNodeSpec;

verus! {

/// Every rectangle entity of a page satisfies `xmin < xmax` and
/// `ymin < ymax`.
pub open spec fn page_rects_ordered(p: PageSpec) -> bool {
    &&& forall|i: int|
        0 <= i < p.frames.len() ==> (#[trigger] p.frames[i]).xmin < p.frames[i].xmax
            && p.frames[i].ymin < p.frames[i].ymax
    &&& forall|i: int|
        0 <= i < p.texts.len() ==> (#[trigger] p.texts[i]).xmin < p.texts[i].xmax
            && p.texts[i].ymin < p.texts[i].ymax
    &&& forall|i: int|
        0 <= i < p.faces.len() ==> (#[trigger] p.faces[i]).xmin < p.faces[i].xmax
            && p.faces[i].ymin < p.faces[i].ymax
    &&& forall|i: int|
        0 <= i < p.bodies.len() ==> (#[trigger] p.bodies[i]).xmin < p.bodies[i].xmax
            && p.bodies[i].ymin < p.bodies[i].ymax
}

/// Every rectangle entity of every page of a book is well-ordered.
pub open spec fn book_rects_ordered(b: BookSpec) -> bool {
    forall|k: int| 0 <= k < b.pages.len() ==> page_rects_ordered(#[trigger] b.pages[k])
}

proof fn lemma_frames_upto_ordered(title: Seq<char>, ns: Seq<XmlNodeSpec>, lo: int, hi: int)
    requires
        frames_upto(title, ns, lo, hi) is Ok,
    ensures
        ({
            let s = frames_upto(title, ns, lo, hi)->Ok_0;
            forall|i: int|
                0 <= i < s.len() ==> (#[trigger] s[i]).xmin < s[i].xmax && s[i].ymin < s[i].ymax
        }),
    decreases hi - lo,
{
    if hi > lo {
        lemma_frames_upto_ordered(title, ns, lo, hi - 1);
    }
}

proof fn lemma_texts_upto_ordered(title: Seq<char>, ns: Seq<XmlNodeSpec>, lo: int, hi: int)
    requires
        texts_upto(title, ns, lo, hi) is Ok,
    ensures
        ({
            let s = texts_upto(title, ns, lo, hi)->Ok_0;
            forall|i: int|
                0 <= i < s.len() ==> (#[trigger] s[i]).xmin < s[i].xmax && s[i].ymin < s[i].ymax
        }),
    decreases hi - lo,
{
    if hi > lo {
        lemma_texts_upto_ordered(title, ns, lo, hi - 1);
    }
}

proof fn lemma_faces_upto_ordered(title: Seq<char>, ns: Seq<XmlNodeSpec>, lo: int, hi: int)
    requires
        faces_upto(title, ns, lo, hi) is Ok,
    ensures
        ({
            let s = faces_upto(title, ns, lo, hi)->Ok_0;
            forall|i: int|
                0 <= i < s.len() ==> (#[trigger] s[i]).xmin < s[i].xmax && s[i].ymin < s[i].ymax
        }),
    decreases hi - lo,
{
    if hi > lo {
        lemma_faces_upto_ordered(title, ns, lo, hi - 1);
    }
}

proof fn lemma_bodies_upto_ordered(title: Seq<char>, ns: Seq<XmlNodeSpec>, lo: int, hi: int)
    requires
        bodies_upto(title, ns, lo, hi) is Ok,
    ensures
        ({
            let s = bodies_upto(title, ns, lo, hi)->Ok_0;
            forall|i: int|
                0 <= i < s.len() ==> (#[trigger] s[i]).xmin < s[i].xmax && s[i].ymin < s[i].ymax
        }),
    decreases hi - lo,
{
    if hi > lo {
        lemma_bodies_upto_ordered(title, ns, lo, hi - 1);
    }
}

proof fn lemma_pages_upto_ordered(title: Seq<char>, ns: Seq<XmlNodeSpec>, lo: int, hi: int)
    requires
        pages_upto(title, ns, lo, hi) is Ok,
    ensures
        ({
            let s = pages_upto(title, ns, lo, hi)->Ok_0;
            forall|k: int| 0 <= k < s.len() ==> page_rects_ordered(#[trigger] s[k])
        }),
    decreases hi - lo,
{
    if hi > lo {
        lemma_pages_upto_ordered(title, ns, lo, hi - 1);
        if pages_upto(title, ns, lo, hi - 1) is Ok {
            let p = page_result(title, ns, hi - 1);
            if p is Ok {
                let end = crate::xml::subtree_end_from(ns, ns[hi - 1].depth, hi);
                lemma_frames_upto_ordered(title, ns, hi, end);
                lemma_texts_upto_ordered(title, ns, hi, end);
                lemma_faces_upto_ordered(title, ns, hi, end);
                lemma_bodies_upto_ordered(title, ns, hi, end);
            }
        }
    }
}

/// Every rectangle of a successfully parsed book satisfies `xmin < xmax`
/// and `ymin < ymax`: a degenerate rectangle never survives the parse, so
/// the width and height accessors never underflow on parsed data.
pub proof fn lemma_parsed_book_rects_ordered(
    ns: Seq<XmlNodeSpec>,
    xml_path: Seq<char>,
    image_path: Seq<char>,
)
    requires
        book_from_nodes_spec(ns, xml_path, image_path) is Ok,
    ensures
        book_rects_ordered(book_from_nodes_spec(ns, xml_path, image_path)->Ok_0),
{
    let title = attr_of(ns[0], "title"@)->Some_0;
    lemma_pages_upto_ordered(title, ns, 0, ns.len() as int);
}

/// Parsing is a function of the node list and the two recorded paths:
/// any two parses of the same input yield the same book, so every derived
/// quantity — rectangle widths and heights among them — is invariant
/// under re-parsing.
pub proof fn lemma_reparse_equal(
    ns: Seq<XmlNodeSpec>,
    xml_path: Seq<char>,
    image_path: Seq<char>,
    b1: BookSpec,
    b2: BookSpec,
)
    requires
        book_from_nodes_spec(ns, xml_path, image_path) == Ok::<BookSpec, ErrorSpec>(b1),
        book_from_nodes_spec(ns, xml_path, image_path) == Ok::<BookSpec, ErrorSpec>(b2),
    ensures
        b1 == b2,
{
}

/// A page flattens to one token sequence per entity, frames first, then
/// texts, then faces, then bodies, each group in document order.
pub proof fn lemma_page_tokens_grouped(p: PageSpec)
    ensures
        page_tokens(p).len() == p.frames.len() + p.texts.len() + p.faces.len() + p.bodies.len(),
        forall|i: int|
            0 <= i < p.frames.len() ==> page_tokens(p)[i] == frame_tokens(#[trigger] p.frames[i]),
        forall|i: int|
            0 <= i < p.texts.len() ==> page_tokens(p)[p.frames.len() + i] == text_tokens(
                #[trigger] p.texts[i],
            ),
        forall|i: int|
            0 <= i < p.faces.len() ==> page_tokens(p)[p.frames.len() + p.texts.len() + i]
                == face_tokens(#[trigger] p.faces[i]),
        forall|i: int|
            0 <= i < p.bodies.len() ==> page_tokens(p)[p.frames.len() + p.texts.len()
                + p.faces.len() + i] == body_tokens(#[trigger] p.bodies[i]),
{
}

/// Flattening a parsed frame reproduces the source attribute values: the
/// id verbatim, and each coordinate as its digit string, exact whenever
/// the source attribute is in canonical decimal form.
pub proof fn lemma_frame_flatten_round_trip(title: Seq<char>, n: XmlNodeSpec)
    requires
        attr_of(n, "xmin"@) matches Some(s) ==> is_canonical_dec(s),
        attr_of(n, "ymin"@) matches Some(s) ==> is_canonical_dec(s),
        attr_of(n, "xmax"@) matches Some(s) ==> is_canonical_dec(s),
        attr_of(n, "ymax"@) matches Some(s) ==> is_canonical_dec(s),
    ensures
        frame_result(title, n) matches Ok(f) ==> {
            let toks = frame_tokens(f);
            &&& Some(toks[3]) == attr_of(n, "id"@)
            &&& Some(toks[5]) == attr_of(n, "xmin"@)
            &&& Some(toks[7]) == attr_of(n, "ymin"@)
            &&& Some(toks[9]) == attr_of(n, "xmax"@)
            &&& Some(toks[11]) == attr_of(n, "ymax"@)
        },
{
    if frame_result(title, n) is Ok {
        lemma_dec_round_trip(attr_of(n, "xmin"@)->Some_0);
        lemma_dec_round_trip(attr_of(n, "ymin"@)->Some_0);
        lemma_dec_round_trip(attr_of(n, "xmax"@)->Some_0);
        lemma_dec_round_trip(attr_of(n, "ymax"@)->Some_0);
    }
}

/// Flattening a parsed text box reproduces the source attribute values
/// and the text content exactly, under the same canonical-form proviso
/// for the coordinates.
pub proof fn lemma_text_flatten_round_trip(title: Seq<char>, n: XmlNodeSpec)
    requires
        attr_of(n, "xmin"@) matches Some(s) ==> is_canonical_dec(s),
        attr_of(n, "ymin"@) matches Some(s) ==> is_canonical_dec(s),
        attr_of(n, "xmax"@) matches Some(s) ==> is_canonical_dec(s),
        attr_of(n, "ymax"@) matches Some(s) ==> is_canonical_dec(s),
    ensures
        text_result(title, n) matches Ok(t) ==> {
            let toks = text_tokens(t);
            &&& Some(toks[3]) == attr_of(n, "id"@)
            &&& Some(toks[5]) == attr_of(n, "xmin"@)
            &&& Some(toks[7]) == attr_of(n, "ymin"@)
            &&& Some(toks[9]) == attr_of(n, "xmax"@)
            &&& Some(toks[11]) == attr_of(n, "ymax"@)
            &&& Some(toks[13]) == n.text
        },
{
    if text_result(title, n) is Ok {
        lemma_dec_round_trip(attr_of(n, "xmin"@)->Some_0);
        lemma_dec_round_trip(attr_of(n, "ymin"@)->Some_0);
        lemma_dec_round_trip(attr_of(n, "xmax"@)->Some_0);
        lemma_dec_round_trip(attr_of(n, "ymax"@)->Some_0);
    }
}

/// Flattening a parsed face reproduces the source attribute values,
/// the character reference among them.
pub proof fn lemma_face_flatten_round_trip(title: Seq<char>, n: XmlNodeSpec)
    requires
        attr_of(n, "xmin"@) matches Some(s) ==> is_canonical_dec(s),
        attr_of(n, "ymin"@) matches Some(s) ==> is_canonical_dec(s),
        attr_of(n, "xmax"@) matches Some(s) ==> is_canonical_dec(s),
        attr_of(n, "ymax"@) matches Some(s) ==> is_canonical_dec(s),
    ensures
        face_result(title, n) matches Ok(f) ==> {
            let toks = face_tokens(f);
            &&& Some(toks[3]) == attr_of(n, "id"@)
            &&& Some(toks[5]) == attr_of(n, "xmin"@)
            &&& Some(toks[7]) == attr_of(n, "ymin"@)
            &&& Some(toks[9]) == attr_of(n, "xmax"@)
            &&& Some(toks[11]) == attr_of(n, "ymax"@)
            &&& Some(toks[13]) == attr_of(n, "character"@)
        },
{
    if face_result(title, n) is Ok {
        lemma_dec_round_trip(attr_of(n, "xmin"@)->Some_0);
        lemma_dec_round_trip(attr_of(n, "ymin"@)->Some_0);
        lemma_dec_round_trip(attr_of(n, "xmax"@)->Some_0);
        lemma_dec_round_trip(attr_of(n, "ymax"@)->Some_0);
    }
}

/// Flattening a parsed body reproduces the source attribute values,
/// the character reference among them.
pub proof fn lemma_body_flatten_round_trip(title: Seq<char>, n: XmlNodeSpec)
    requires
        attr_of(n, "xmin"@) matches Some(s) ==> is_canonical_dec(s),
        attr_of(n, "ymin"@) matches Some(s) ==> is_canonical_dec(s),
        attr_of(n, "xmax"@) matches Some(s) ==> is_canonical_dec(s),
        attr_of(n, "ymax"@) matches Some(s) ==> is_canonical_dec(s),
    ensures
        body_result(title, n) matches Ok(b) ==> {
            let toks = body_tokens(b);
            &&& Some(toks[3]) == attr_of(n, "id"@)
            &&& Some(toks[5]) == attr_of(n, "xmin"@)
            &&& Some(toks[7]) == attr_of(n, "ymin"@)
            &&& Some(toks[9]) == attr_of(n, "xmax"@)
            &&& Some(toks[11]) == attr_of(n, "ymax"@)
            &&& Some(toks[13]) == attr_of(n, "character"@)
        },
{
    if body_result(title, n) is Ok {
        lemma_dec_round_trip(attr_of(n, "xmin"@)->Some_0);
        lemma_dec_round_trip(attr_of(n, "ymin"@)->Some_0);
        lemma_dec_round_trip(attr_of(n, "xmax"@)->Some_0);
        lemma_dec_round_trip(attr_of(n, "ymax"@)->Some_0);
    }
}

/// Whatever a book's image directory holds, the resolved image path of
/// page `idx` ends with the zero-padded index and the `.jpg` extension.
pub proof fn lemma_img_path_ends_with_file_name(b: BookSpec, idx: usize)
    ensures
        ({
            let p = img_path_spec(b, idx as nat);
            let name = image_file_name(idx as nat);
            &&& p.len() >= name.len()
            &&& p.skip(p.len() - name.len()) == name
        }),
{
    let name = image_file_name(idx as nat);
    lemma_image_file_name_slash_free(idx as nat);
    let s = normalize_spec(b.image_root_dir) + seq!['/'];
    assert(normalize_spec(b.image_root_dir) + seq!['/'] + name =~= s + name);
    lemma_normalize_slash_free_suffix(s, name);
    let p = img_path_spec(b, idx as nat);
    assert(p == normalize_spec(s) + name);
    assert(p.skip(p.len() - name.len()) =~= name);
}

/// A parsed character keeps its id and name verbatim.
pub proof fn lemma_character_verbatim(title: Seq<char>, n: XmlNodeSpec)
    ensures
        character_result(title, n) matches Ok(c) ==> Some(c.id) == attr_of(n, "id"@) && Some(
            c.name,
        ) == attr_of(n, "name"@),
{
}

proof fn lemma_frames_upto_pointwise(title: Seq<char>, ns: Seq<XmlNodeSpec>, lo: int, hi: int)
    requires
        frames_upto(title, ns, lo, hi) is Ok,
    ensures
        ({
            let s = frames_upto(title, ns, lo, hi)->Ok_0;
            let idx = tagged_indices(ns, lo, hi, "frame"@);
            &&& s.len() == idx.len()
            &&& forall|m: int|
                0 <= m < idx.len() ==> lo <= #[trigger] idx[m] < hi && frame_result(
                    title,
                    ns[idx[m]],
                ) == Ok::<FrameSpec, ErrorSpec>(s[m])
        }),
    decreases hi - lo,
{
    if hi > lo {
        lemma_frames_upto_pointwise(title, ns, lo, hi - 1);
    }
}

proof fn lemma_texts_upto_pointwise(title: Seq<char>, ns: Seq<XmlNodeSpec>, lo: int, hi: int)
    requires
        texts_upto(title, ns, lo, hi) is Ok,
    ensures
        ({
            let s = texts_upto(title, ns, lo, hi)->Ok_0;
            let idx = tagged_indices(ns, lo, hi, "text"@);
            &&& s.len() == idx.len()
            &&& forall|m: int|
                0 <= m < idx.len() ==> lo <= #[trigger] idx[m] < hi && text_result(
                    title,
                    ns[idx[m]],
                ) == Ok::<TextSpec, ErrorSpec>(s[m])
        }),
    decreases hi - lo,
{
    if hi > lo {
        lemma_texts_upto_pointwise(title, ns, lo, hi - 1);
    }
}

proof fn lemma_faces_upto_pointwise(title: Seq<char>, ns: Seq<XmlNodeSpec>, lo: int, hi: int)
    requires
        faces_upto(title, ns, lo, hi) is Ok,
    ensures
        ({
            let s = faces_upto(title, ns, lo, hi)->Ok_0;
            let idx = tagged_indices(ns, lo, hi, "face"@);
            &&& s.len() == idx.len()
            &&& forall|m: int|
                0 <= m < idx.len() ==> lo <= #[trigger] idx[m] < hi && face_result(
                    title,
                    ns[idx[m]],
                ) == Ok::<FaceSpec, ErrorSpec>(s[m])
        }),
    decreases hi - lo,
{
    if hi > lo {
        lemma_faces_upto_pointwise(title, ns, lo, hi - 1);
    }
}

proof fn lemma_bodies_upto_pointwise(title: Seq<char>, ns: Seq<XmlNodeSpec>, lo: int, hi: int)
    requires
        bodies_upto(title, ns, lo, hi) is Ok,
    ensures
        ({
            let s = bodies_upto(title, ns, lo, hi)->Ok_0;
            let idx = tagged_indices(ns, lo, hi, "body"@);
            &&& s.len() == idx.len()
            &&& forall|m: int|
                0 <= m < idx.len() ==> lo <= #[trigger] idx[m] < hi && body_result(
                    title,
                    ns[idx[m]],
                ) == Ok::<BodySpec, ErrorSpec>(s[m])
        }),
    decreases hi - lo,
{
    if hi > lo {
        lemma_bodies_upto_pointwise(title, ns, lo, hi - 1);
    }
}

proof fn lemma_characters_upto_pointwise(title: Seq<char>, ns: Seq<XmlNodeSpec>, lo: int, hi: int)
    requires
        characters_upto(title, ns, lo, hi) is Ok,
    ensures
        ({
            let s = characters_upto(title, ns, lo, hi)->Ok_0;
            let idx = tagged_indices(ns, lo, hi, "character"@);
            &&& s.len() == idx.len()
            &&& forall|m: int|
                0 <= m < idx.len() ==> lo <= #[trigger] idx[m] < hi && character_result(
                    title,
                    ns[idx[m]],
                ) == Ok::<CharacterSpec, ErrorSpec>(s[m])
        }),
    decreases hi - lo,
{
    if hi > lo {
        lemma_characters_upto_pointwise(title, ns, lo, hi - 1);
    }
}

proof fn lemma_pages_upto_pointwise(title: Seq<char>, ns: Seq<XmlNodeSpec>, lo: int, hi: int)
    requires
        pages_upto(title, ns, lo, hi) is Ok,
    ensures
        ({
            let s = pages_upto(title, ns, lo, hi)->Ok_0;
            let idx = tagged_indices(ns, lo, hi, "page"@);
            &&& s.len() == idx.len()
            &&& forall|m: int|
                0 <= m < idx.len() ==> lo <= #[trigger] idx[m] < hi && page_result(
                    title,
                    ns,
                    idx[m],
                ) == Ok::<PageSpec, ErrorSpec>(s[m])
        }),
    decreases hi - lo,
{
    if hi > lo {
        lemma_pages_upto_pointwise(title, ns, lo, hi - 1);
    }
}

/// Each entity of a parsed page is exactly the parse of the matching
/// element of the page's subtree: the `m`-th frame comes from the `m`-th
/// `frame`-tagged node, in document order, and likewise for texts, faces
/// and bodies. Together with the per-entity flatten laws, every attribute
/// of the source is recoverable from the flattened page.
pub proof fn lemma_page_entities_correspond(title: Seq<char>, ns: Seq<XmlNodeSpec>, k: int)
    requires
        0 <= k < ns.len(),
        page_result(title, ns, k) is Ok,
    ensures
        ({
            let p = page_result(title, ns, k)->Ok_0;
            let end = subtree_end_from(ns, ns[k].depth, k + 1);
            let fidx = tagged_indices(ns, k + 1, end, "frame"@);
            let tidx = tagged_indices(ns, k + 1, end, "text"@);
            let faidx = tagged_indices(ns, k + 1, end, "face"@);
            let bidx = tagged_indices(ns, k + 1, end, "body"@);
            &&& p.frames.len() == fidx.len()
            &&& forall|m: int|
                0 <= m < fidx.len() ==> frame_result(title, ns[#[trigger] fidx[m]]) == Ok::<
                    FrameSpec,
                    ErrorSpec,
                >(p.frames[m])
            &&& p.texts.len() == tidx.len()
            &&& forall|m: int|
                0 <= m < tidx.len() ==> text_result(title, ns[#[trigger] tidx[m]]) == Ok::<
                    TextSpec,
                    ErrorSpec,
                >(p.texts[m])
            &&& p.faces.len() == faidx.len()
            &&& forall|m: int|
                0 <= m < faidx.len() ==> face_result(title, ns[#[trigger] faidx[m]]) == Ok::<
                    FaceSpec,
                    ErrorSpec,
                >(p.faces[m])
            &&& p.bodies.len() == bidx.len()
            &&& forall|m: int|
                0 <= m < bidx.len() ==> body_result(title, ns[#[trigger] bidx[m]]) == Ok::<
                    BodySpec,
                    ErrorSpec,
                >(p.bodies[m])
        }),
{
    let end = subtree_end_from(ns, ns[k].depth, k + 1);
    lemma_frames_upto_pointwise(title, ns, k + 1, end);
    lemma_texts_upto_pointwise(title, ns, k + 1, end);
    lemma_faces_upto_pointwise(title, ns, k + 1, end);
    lemma_bodies_upto_pointwise(title, ns, k + 1, end);
}

/// Each character and each page of a parsed book is exactly the parse of
/// the matching element of the document, in document order.
pub proof fn lemma_book_entities_correspond(
    ns: Seq<XmlNodeSpec>,
    xml_path: Seq<char>,
    image_path: Seq<char>,
)
    requires
        book_from_nodes_spec(ns, xml_path, image_path) is Ok,
    ensures
        ({
            let b = book_from_nodes_spec(ns, xml_path, image_path)->Ok_0;
            let cidx = tagged_indices(ns, 0, ns.len() as int, "character"@);
            let pidx = tagged_indices(ns, 0, ns.len() as int, "page"@);
            &&& Some(b.title) == attr_of(ns[0], "title"@)
            &&& b.characters.len() == cidx.len()
            &&& forall|m: int|
                0 <= m < cidx.len() ==> character_result(b.title, ns[#[trigger] cidx[m]]) == Ok::<
                    CharacterSpec,
                    ErrorSpec,
                >(b.characters[m])
            &&& b.pages.len() == pidx.len()
            &&& forall|m: int|
                0 <= m < pidx.len() ==> page_result(b.title, ns, #[trigger] pidx[m]) == Ok::<
                    PageSpec,
                    ErrorSpec,
                >(b.pages[m])
        }),
{
    let title = attr_of(ns[0], "title"@)->Some_0;
    lemma_characters_upto_pointwise(title, ns, 0, ns.len() as int);
    lemma_pages_upto_pointwise(title, ns, 0, ns.len() as int);
}

} // verus!
