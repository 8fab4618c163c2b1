//! The flattener: converts typed entities into an ordered key/value token
//! sequence for export.
//!
//! An entity flattens to alternating key/value tokens: `tag` and the type
//! name, `id` and the id, then the four coordinates, then `#text` with the
//! transcribed string for a text box, or `character` with the referenced
//! character id for a face or body. A page flattens to one token sequence
//! per entity, in the fixed group order frames, texts, faces, bodies, each
//! group in document order.

use vstd::prelude::*;

use crate::model::Body;
use crate::model::BodySpec;
use crate::model::Face;
use crate::model::FaceSpec;
use crate::model::Frame;
use crate::model::FrameSpec;
use crate::model::Page;
use crate::model::PageSpec;
use crate::model::Text;
use crate::model::TextSpec;
use crate::num::dec_str_of;
use crate::num::u32_to_dec_string;

verus! {

/// The token sequence of a frame.
pub open spec fn frame_tokens(f: FrameSpec) -> Seq<Seq<char>> {
    seq![
        "tag"@,
        "frame"@,
        "id"@,
        f.id,
        "xmin"@,
        dec_str_of(f.xmin as nat),
        "ymin"@,
        dec_str_of(f.ymin as nat),
        "xmax"@,
        dec_str_of(f.xmax as nat),
        "ymax"@,
        dec_str_of(f.ymax as nat),
    ]
}

/// The token sequence of a text box: the coordinates, then `#text` and the
/// transcribed string.
pub open spec fn text_tokens(t: TextSpec) -> Seq<Seq<char>> {
    seq![
        "tag"@,
        "text"@,
        "id"@,
        t.id,
        "xmin"@,
        dec_str_of(t.xmin as nat),
        "ymin"@,
        dec_str_of(t.ymin as nat),
        "xmax"@,
        dec_str_of(t.xmax as nat),
        "ymax"@,
        dec_str_of(t.ymax as nat),
        "#text"@,
        t.value,
    ]
}

/// The token sequence of a face region.
pub open spec fn face_tokens(f: FaceSpec) -> Seq<Seq<char>> {
    seq![
        "tag"@,
        "face"@,
        "id"@,
        f.id,
        "xmin"@,
        dec_str_of(f.xmin as nat),
        "ymin"@,
        dec_str_of(f.ymin as nat),
        "xmax"@,
        dec_str_of(f.xmax as nat),
        "ymax"@,
        dec_str_of(f.ymax as nat),
        "character"@,
        f.character,
    ]
}

/// The token sequence of a body region.
pub open spec fn body_tokens(b: BodySpec) -> Seq<Seq<char>> {
    seq![
        "tag"@,
        "body"@,
        "id"@,
        b.id,
        "xmin"@,
        dec_str_of(b.xmin as nat),
        "ymin"@,
        dec_str_of(b.ymin as nat),
        "xmax"@,
        dec_str_of(b.xmax as nat),
        "ymax"@,
        dec_str_of(b.ymax as nat),
        "character"@,
        b.character,
    ]
}

/// The flattening of a whole page: one token sequence per entity, frames
/// first, then texts, faces and bodies, each group in document order.
pub open spec fn page_tokens(p: PageSpec) -> Seq<Seq<Seq<char>>> {
    p.frames.map_values(|f: FrameSpec| frame_tokens(f)) + p.texts.map_values(
        |t: TextSpec| text_tokens(t),
    ) + p.faces.map_values(|f: FaceSpec| face_tokens(f)) + p.bodies.map_values(
        |b: BodySpec| body_tokens(b),
    )
}

impl Frame {
    /// The key/value token form of this frame, as `frame_tokens` says.
    pub fn annotate(&self) -> (r: Vec<String>)
        ensures
            r.deep_view() == frame_tokens(self@),
    {
        let r: Vec<String> = vec![
            "tag".to_owned(),
            "frame".to_owned(),
            "id".to_owned(),
            self.id.clone(),
            "xmin".to_owned(),
            u32_to_dec_string(self.xmin),
            "ymin".to_owned(),
            u32_to_dec_string(self.ymin),
            "xmax".to_owned(),
            u32_to_dec_string(self.xmax),
            "ymax".to_owned(),
            u32_to_dec_string(self.ymax),
        ];
        proof {
            assert(r.deep_view() =~= frame_tokens(self@));
        }
        r
    }
}

impl Text {
    /// The key/value token form of this text box, as `text_tokens` says.
    pub fn annotate(&self) -> (r: Vec<String>)
        ensures
            r.deep_view() == text_tokens(self@),
    {
        let r: Vec<String> = vec![
            "tag".to_owned(),
            "text".to_owned(),
            "id".to_owned(),
            self.id.clone(),
            "xmin".to_owned(),
            u32_to_dec_string(self.xmin),
            "ymin".to_owned(),
            u32_to_dec_string(self.ymin),
            "xmax".to_owned(),
            u32_to_dec_string(self.xmax),
            "ymax".to_owned(),
            u32_to_dec_string(self.ymax),
            "#text".to_owned(),
            self.value.clone(),
        ];
        proof {
            assert(r.deep_view() =~= text_tokens(self@));
        }
        r
    }
}

impl Face {
    /// The key/value token form of this face region, as `face_tokens` says.
    pub fn annotate(&self) -> (r: Vec<String>)
        ensures
            r.deep_view() == face_tokens(self@),
    {
        let r: Vec<String> = vec![
            "tag".to_owned(),
            "face".to_owned(),
            "id".to_owned(),
            self.id.clone(),
            "xmin".to_owned(),
            u32_to_dec_string(self.xmin),
            "ymin".to_owned(),
            u32_to_dec_string(self.ymin),
            "xmax".to_owned(),
            u32_to_dec_string(self.xmax),
            "ymax".to_owned(),
            u32_to_dec_string(self.ymax),
            "character".to_owned(),
            self.character.clone(),
        ];
        proof {
            assert(r.deep_view() =~= face_tokens(self@));
        }
        r
    }
}

impl Body {
    /// The key/value token form of this body region, as `body_tokens` says.
    pub fn annotate(&self) -> (r: Vec<String>)
        ensures
            r.deep_view() == body_tokens(self@),
    {
        let r: Vec<String> = vec![
            "tag".to_owned(),
            "body".to_owned(),
            "id".to_owned(),
            self.id.clone(),
            "xmin".to_owned(),
            u32_to_dec_string(self.xmin),
            "ymin".to_owned(),
            u32_to_dec_string(self.ymin),
            "xmax".to_owned(),
            u32_to_dec_string(self.xmax),
            "ymax".to_owned(),
            u32_to_dec_string(self.ymax),
            "character".to_owned(),
            self.character.clone(),
        ];
        proof {
            assert(r.deep_view() =~= body_tokens(self@));
        }
        r
    }
}

impl Page {
    /// The flattening of this page: one token sequence per entity, in the
    /// fixed group order frames, texts, faces, bodies, each group in
    /// document order, as `page_tokens` says.
    pub fn annotate(&self) -> (r: Vec<Vec<String>>)
        ensures
            r.deep_view() == page_tokens(self@),
    {
        let ghost fmap = self@.frames.map_values(|f: FrameSpec| frame_tokens(f));
        let ghost tmap = self@.texts.map_values(|t: TextSpec| text_tokens(t));
        let ghost famap = self@.faces.map_values(|f: FaceSpec| face_tokens(f));
        let ghost bmap = self@.bodies.map_values(|b: BodySpec| body_tokens(b));
        let mut out: Vec<Vec<String>> = Vec::new();
        let mut i: usize = 0;
        while i < self.frames.len()
            invariant
                0 <= i <= self.frames.len(),
                fmap == self@.frames.map_values(|f: FrameSpec| frame_tokens(f)),
                out.deep_view() =~= fmap.take(i as int),
            decreases self.frames.len() - i,
        {
            let ghost pre = out.deep_view();
            out.push(self.frames[i].annotate());
            proof {
                assert(out.deep_view() =~= pre.push(frame_tokens(self@.frames[i as int])));
                assert(fmap.take(i + 1) =~= fmap.take(i as int).push(fmap[i as int]));
            }
            i = i + 1;
        }
        proof {
            assert(fmap.take(self.frames.len() as int) =~= fmap);
        }
        let mut j: usize = 0;
        while j < self.texts.len()
            invariant
                0 <= j <= self.texts.len(),
                fmap == self@.frames.map_values(|f: FrameSpec| frame_tokens(f)),
                tmap == self@.texts.map_values(|t: TextSpec| text_tokens(t)),
                out.deep_view() =~= fmap + tmap.take(j as int),
            decreases self.texts.len() - j,
        {
            let ghost pre = out.deep_view();
            out.push(self.texts[j].annotate());
            proof {
                assert(out.deep_view() =~= pre.push(text_tokens(self@.texts[j as int])));
                assert(tmap.take(j + 1) =~= tmap.take(j as int).push(tmap[j as int]));
                assert(fmap + tmap.take(j + 1) =~= (fmap + tmap.take(j as int)).push(
                    tmap[j as int],
                ));
            }
            j = j + 1;
        }
        proof {
            assert(tmap.take(self.texts.len() as int) =~= tmap);
        }
        let mut k: usize = 0;
        while k < self.faces.len()
            invariant
                0 <= k <= self.faces.len(),
                fmap == self@.frames.map_values(|f: FrameSpec| frame_tokens(f)),
                tmap == self@.texts.map_values(|t: TextSpec| text_tokens(t)),
                famap == self@.faces.map_values(|f: FaceSpec| face_tokens(f)),
                out.deep_view() =~= fmap + tmap + famap.take(k as int),
            decreases self.faces.len() - k,
        {
            let ghost pre = out.deep_view();
            out.push(self.faces[k].annotate());
            proof {
                assert(out.deep_view() =~= pre.push(face_tokens(self@.faces[k as int])));
                assert(famap.take(k + 1) =~= famap.take(k as int).push(famap[k as int]));
                assert(fmap + tmap + famap.take(k + 1) =~= (fmap + tmap + famap.take(
                    k as int,
                )).push(famap[k as int]));
            }
            k = k + 1;
        }
        proof {
            assert(famap.take(self.faces.len() as int) =~= famap);
        }
        let mut l: usize = 0;
        while l < self.bodies.len()
            invariant
                0 <= l <= self.bodies.len(),
                fmap == self@.frames.map_values(|f: FrameSpec| frame_tokens(f)),
                tmap == self@.texts.map_values(|t: TextSpec| text_tokens(t)),
                famap == self@.faces.map_values(|f: FaceSpec| face_tokens(f)),
                bmap == self@.bodies.map_values(|b: BodySpec| body_tokens(b)),
                out.deep_view() =~= fmap + tmap + famap + bmap.take(l as int),
            decreases self.bodies.len() - l,
        {
            let ghost pre = out.deep_view();
            out.push(self.bodies[l].annotate());
            proof {
                assert(out.deep_view() =~= pre.push(body_tokens(self@.bodies[l as int])));
                assert(bmap.take(l + 1) =~= bmap.take(l as int).push(bmap[l as int]));
                assert(fmap + tmap + famap + bmap.take(l + 1) =~= (fmap + tmap + famap
                    + bmap.take(l as int)).push(bmap[l as int]));
            }
            l = l + 1;
        }
        proof {
            assert(bmap.take(self.bodies.len() as int) =~= bmap);
            assert(out.deep_view() =~= page_tokens(self@));
        }
        out
    }
}

} // verus!
