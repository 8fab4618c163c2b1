//! The typed annotation model: characters, pages and the four rectangle
//! entities, together with their mathematical views.
//!
//! Every rectangle entity carries unsigned pixel coordinates with the
//! origin at the image's upper-left corner. The parser rejects rectangles
//! with `xmax <= xmin` or `ymax <= ymin`, so the width and height
//! accessors ask for ordered coordinates and never underflow.

use vstd::prelude::*;

use crate::paths::normalize_paths;
use crate::paths::normalize_spec;

verus! {

/// The four kinds of rectangle entity a page carries.
pub enum AnnotationType {
    Frame,
    Face,
    Body,
    Text,
}

/// A character identity declared by a book: an id referenced by value from
/// `Face::character` and `Body::character`, and a display name.
#[derive(Debug, PartialEq, Eq)]
pub struct Character {
    pub id: String,
    pub name: String,
}

/// The mathematical value of a [`Character`].
pub ghost struct CharacterSpec {
    pub id: Seq<char>,
    pub name: Seq<char>,
}

impl View for Character {
    type V = CharacterSpec;

    open spec fn view(&self) -> CharacterSpec {
        CharacterSpec { id: self.id@, name: self.name@ }
    }
}

impl DeepView for Character {
    type V = CharacterSpec;

    open spec fn deep_view(&self) -> CharacterSpec {
        self.view()
    }
}

impl Clone for Character {
    fn clone(&self) -> (res: Self)
        ensures
            res@ == self@,
    {
        Character { id: self.id.clone(), name: self.name.clone() }
    }
}

/// A panel frame: a plain bounding box.
#[derive(Debug, PartialEq, Eq)]
pub struct Frame {
    pub id: String,
    pub xmin: u32,
    pub ymin: u32,
    pub xmax: u32,
    pub ymax: u32,
}

/// The mathematical value of a [`Frame`].
pub ghost struct FrameSpec {
    pub id: Seq<char>,
    pub xmin: u32,
    pub ymin: u32,
    pub xmax: u32,
    pub ymax: u32,
}

impl View for Frame {
    type V = FrameSpec;

    open spec fn view(&self) -> FrameSpec {
        FrameSpec {
            id: self.id@,
            xmin: self.xmin,
            ymin: self.ymin,
            xmax: self.xmax,
            ymax: self.ymax,
        }
    }
}

impl DeepView for Frame {
    type V = FrameSpec;

    open spec fn deep_view(&self) -> FrameSpec {
        self.view()
    }
}

impl Clone for Frame {
    fn clone(&self) -> (res: Self)
        ensures
            res@ == self@,
    {
        Frame {
            id: self.id.clone(),
            xmin: self.xmin,
            ymin: self.ymin,
            xmax: self.xmax,
            ymax: self.ymax,
        }
    }
}

impl Frame {
    /// The box width, `xmax - xmin`.
    pub fn get_width(&self) -> (r: u32)
        requires
            self.xmin <= self.xmax,
        ensures
            r == self.xmax - self.xmin,
    {
        self.xmax - self.xmin
    }

    /// The box height, `ymax - ymin`.
    pub fn get_height(&self) -> (r: u32)
        requires
            self.ymin <= self.ymax,
        ensures
            r == self.ymax - self.ymin,
    {
        self.ymax - self.ymin
    }
}

/// A text box: a bounding box with the transcribed string.
#[derive(Debug, PartialEq, Eq)]
pub struct Text {
    pub id: String,
    pub xmin: u32,
    pub ymin: u32,
    pub xmax: u32,
    pub ymax: u32,
    pub value: String,
}

/// The mathematical value of a [`Text`].
pub ghost struct TextSpec {
    pub id: Seq<char>,
    pub xmin: u32,
    pub ymin: u32,
    pub xmax: u32,
    pub ymax: u32,
    pub value: Seq<char>,
}

impl View for Text {
    type V = TextSpec;

    open spec fn view(&self) -> TextSpec {
        TextSpec {
            id: self.id@,
            xmin: self.xmin,
            ymin: self.ymin,
            xmax: self.xmax,
            ymax: self.ymax,
            value: self.value@,
        }
    }
}

impl DeepView for Text {
    type V = TextSpec;

    open spec fn deep_view(&self) -> TextSpec {
        self.view()
    }
}

impl Clone for Text {
    fn clone(&self) -> (res: Self)
        ensures
            res@ == self@,
    {
        Text {
            id: self.id.clone(),
            xmin: self.xmin,
            ymin: self.ymin,
            xmax: self.xmax,
            ymax: self.ymax,
            value: self.value.clone(),
        }
    }
}

impl Text {
    /// The box width, `xmax - xmin`.
    pub fn get_width(&self) -> (r: u32)
        requires
            self.xmin <= self.xmax,
        ensures
            r == self.xmax - self.xmin,
    {
        self.xmax - self.xmin
    }

    /// The box height, `ymax - ymin`.
    pub fn get_height(&self) -> (r: u32)
        requires
            self.ymin <= self.ymax,
        ensures
            r == self.ymax - self.ymin,
    {
        self.ymax - self.ymin
    }
}

/// A face region: a bounding box referencing a character id by value.
#[derive(Debug, PartialEq, Eq)]
pub struct Face {
    pub id: String,
    pub xmin: u32,
    pub ymin: u32,
    pub xmax: u32,
    pub ymax: u32,
    pub character: String,
}

/// The mathematical value of a [`Face`].
pub ghost struct FaceSpec {
    pub id: Seq<char>,
    pub xmin: u32,
    pub ymin: u32,
    pub xmax: u32,
    pub ymax: u32,
    pub character: Seq<char>,
}

impl View for Face {
    type V = FaceSpec;

    open spec fn view(&self) -> FaceSpec {
        FaceSpec {
            id: self.id@,
            xmin: self.xmin,
            ymin: self.ymin,
            xmax: self.xmax,
            ymax: self.ymax,
            character: self.character@,
        }
    }
}

impl DeepView for Face {
    type V = FaceSpec;

    open spec fn deep_view(&self) -> FaceSpec {
        self.view()
    }
}

impl Clone for Face {
    fn clone(&self) -> (res: Self)
        ensures
            res@ == self@,
    {
        Face {
            id: self.id.clone(),
            xmin: self.xmin,
            ymin: self.ymin,
            xmax: self.xmax,
            ymax: self.ymax,
            character: self.character.clone(),
        }
    }
}

impl Face {
    /// The box width, `xmax - xmin`.
    pub fn get_width(&self) -> (r: u32)
        requires
            self.xmin <= self.xmax,
        ensures
            r == self.xmax - self.xmin,
    {
        self.xmax - self.xmin
    }

    /// The box height, `ymax - ymin`.
    pub fn get_height(&self) -> (r: u32)
        requires
            self.ymin <= self.ymax,
        ensures
            r == self.ymax - self.ymin,
    {
        self.ymax - self.ymin
    }
}

/// A body region: a bounding box referencing a character id by value.
#[derive(Debug, PartialEq, Eq)]
pub struct Body {
    pub id: String,
    pub xmin: u32,
    pub ymin: u32,
    pub xmax: u32,
    pub ymax: u32,
    pub character: String,
}

/// The mathematical value of a [`Body`].
pub ghost struct BodySpec {
    pub id: Seq<char>,
    pub xmin: u32,
    pub ymin: u32,
    pub xmax: u32,
    pub ymax: u32,
    pub character: Seq<char>,
}

impl View for Body {
    type V = BodySpec;

    open spec fn view(&self) -> BodySpec {
        BodySpec {
            id: self.id@,
            xmin: self.xmin,
            ymin: self.ymin,
            xmax: self.xmax,
            ymax: self.ymax,
            character: self.character@,
        }
    }
}

impl DeepView for Body {
    type V = BodySpec;

    open spec fn deep_view(&self) -> BodySpec {
        self.view()
    }
}

impl Clone for Body {
    fn clone(&self) -> (res: Self)
        ensures
            res@ == self@,
    {
        Body {
            id: self.id.clone(),
            xmin: self.xmin,
            ymin: self.ymin,
            xmax: self.xmax,
            ymax: self.ymax,
            character: self.character.clone(),
        }
    }
}

impl Body {
    /// The box width, `xmax - xmin`.
    pub fn get_width(&self) -> (r: u32)
        requires
            self.xmin <= self.xmax,
        ensures
            r == self.xmax - self.xmin,
    {
        self.xmax - self.xmin
    }

    /// The box height, `ymax - ymin`.
    pub fn get_height(&self) -> (r: u32)
        requires
            self.ymin <= self.ymax,
        ensures
            r == self.ymax - self.ymin,
    {
        self.ymax - self.ymin
    }
}

/// One page: its index (also the image file name stem), pixel dimensions,
/// and the four entity collections, each in document order.
#[derive(Debug, PartialEq, Eq)]
pub struct Page {
    pub frames: Vec<Frame>,
    pub texts: Vec<Text>,
    pub faces: Vec<Face>,
    pub bodies: Vec<Body>,
    pub index: usize,
    pub width: u32,
    pub height: u32,
}

/// The mathematical value of a [`Page`].
pub ghost struct PageSpec {
    pub frames: Seq<FrameSpec>,
    pub texts: Seq<TextSpec>,
    pub faces: Seq<FaceSpec>,
    pub bodies: Seq<BodySpec>,
    pub index: usize,
    pub width: u32,
    pub height: u32,
}

impl View for Page {
    type V = PageSpec;

    open spec fn view(&self) -> PageSpec {
        PageSpec {
            frames: self.frames.deep_view(),
            texts: self.texts.deep_view(),
            faces: self.faces.deep_view(),
            bodies: self.bodies.deep_view(),
            index: self.index,
            width: self.width,
            height: self.height,
        }
    }
}

impl DeepView for Page {
    type V = PageSpec;

    open spec fn deep_view(&self) -> PageSpec {
        self.view()
    }
}

impl Clone for Page {
    fn clone(&self) -> (res: Self)
        ensures
            res@ == self@,
    {
        let res = Page {
            frames: clone_frames(&self.frames),
            texts: clone_texts(&self.texts),
            faces: clone_faces(&self.faces),
            bodies: clone_bodies(&self.bodies),
            index: self.index,
            width: self.width,
            height: self.height,
        };
        res
    }
}

/// An element-by-element copy of a frame collection.
pub fn clone_frames(v: &Vec<Frame>) -> (res: Vec<Frame>)
    ensures
        res.deep_view() == v.deep_view(),
{
    let mut out: Vec<Frame> = Vec::new();
    let mut i: usize = 0;
    while i < v.len()
        invariant
            0 <= i <= v.len(),
            out.deep_view() =~= v.deep_view().take(i as int),
        decreases v.len() - i,
    {
        let ghost pre = out.deep_view();
        out.push(v[i].clone());
        proof {
            assert(out.deep_view() =~= pre.push(v@[i as int].deep_view()));
            assert(v.deep_view().take(i + 1) =~= v.deep_view().take(i as int).push(
                v.deep_view()[i as int]));
        }
        i = i + 1;
    }
    proof {
        assert(v.deep_view().take(v.len() as int) =~= v.deep_view());
    }
    out
}

/// An element-by-element copy of a text collection.
pub fn clone_texts(v: &Vec<Text>) -> (res: Vec<Text>)
    ensures
        res.deep_view() == v.deep_view(),
{
    let mut out: Vec<Text> = Vec::new();
    let mut i: usize = 0;
    while i < v.len()
        invariant
            0 <= i <= v.len(),
            out.deep_view() =~= v.deep_view().take(i as int),
        decreases v.len() - i,
    {
        let ghost pre = out.deep_view();
        out.push(v[i].clone());
        proof {
            assert(out.deep_view() =~= pre.push(v@[i as int].deep_view()));
            assert(v.deep_view().take(i + 1) =~= v.deep_view().take(i as int).push(
                v.deep_view()[i as int]));
        }
        i = i + 1;
    }
    proof {
        assert(v.deep_view().take(v.len() as int) =~= v.deep_view());
    }
    out
}

/// An element-by-element copy of a face collection.
pub fn clone_faces(v: &Vec<Face>) -> (res: Vec<Face>)
    ensures
        res.deep_view() == v.deep_view(),
{
    let mut out: Vec<Face> = Vec::new();
    let mut i: usize = 0;
    while i < v.len()
        invariant
            0 <= i <= v.len(),
            out.deep_view() =~= v.deep_view().take(i as int),
        decreases v.len() - i,
    {
        let ghost pre = out.deep_view();
        out.push(v[i].clone());
        proof {
            assert(out.deep_view() =~= pre.push(v@[i as int].deep_view()));
            assert(v.deep_view().take(i + 1) =~= v.deep_view().take(i as int).push(
                v.deep_view()[i as int]));
        }
        i = i + 1;
    }
    proof {
        assert(v.deep_view().take(v.len() as int) =~= v.deep_view());
    }
    out
}

/// An element-by-element copy of a body collection.
pub fn clone_bodies(v: &Vec<Body>) -> (res: Vec<Body>)
    ensures
        res.deep_view() == v.deep_view(),
{
    let mut out: Vec<Body> = Vec::new();
    let mut i: usize = 0;
    while i < v.len()
        invariant
            0 <= i <= v.len(),
            out.deep_view() =~= v.deep_view().take(i as int),
        decreases v.len() - i,
    {
        let ghost pre = out.deep_view();
        out.push(v[i].clone());
        proof {
            assert(out.deep_view() =~= pre.push(v@[i as int].deep_view()));
            assert(v.deep_view().take(i + 1) =~= v.deep_view().take(i as int).push(
                v.deep_view()[i as int]));
        }
        i = i + 1;
    }
    proof {
        assert(v.deep_view().take(v.len() as int) =~= v.deep_view());
    }
    out
}

/// An element-by-element copy of a character collection.
pub fn clone_characters(v: &Vec<Character>) -> (res: Vec<Character>)
    ensures
        res.deep_view() == v.deep_view(),
{
    let mut out: Vec<Character> = Vec::new();
    let mut i: usize = 0;
    while i < v.len()
        invariant
            0 <= i <= v.len(),
            out.deep_view() =~= v.deep_view().take(i as int),
        decreases v.len() - i,
    {
        let ghost pre = out.deep_view();
        out.push(v[i].clone());
        proof {
            assert(out.deep_view() =~= pre.push(v@[i as int].deep_view()));
            assert(v.deep_view().take(i + 1) =~= v.deep_view().take(i as int).push(
                v.deep_view()[i as int]));
        }
        i = i + 1;
    }
    proof {
        assert(v.deep_view().take(v.len() as int) =~= v.deep_view());
    }
    out
}

/// One book: its title (doubling as the XML file stem and the image
/// subdirectory name), its characters, its pages, and the resolved
/// annotation-file and image-directory paths recorded at parse time.
#[derive(Debug)]
pub struct Book {
    pub characters: Vec<Character>,
    pub pages: Vec<Page>,
    pub title: String,
    pub annotation_filepaths: String,
    pub image_root_dir: String,
}

/// The mathematical value of a [`Book`].
pub ghost struct BookSpec {
    pub characters: Seq<CharacterSpec>,
    pub pages: Seq<PageSpec>,
    pub title: Seq<char>,
    pub annotation_filepaths: Seq<char>,
    pub image_root_dir: Seq<char>,
}

impl View for Book {
    type V = BookSpec;

    open spec fn view(&self) -> BookSpec {
        BookSpec {
            characters: self.characters.deep_view(),
            pages: self.pages.deep_view(),
            title: self.title@,
            annotation_filepaths: self.annotation_filepaths@,
            image_root_dir: self.image_root_dir@,
        }
    }
}

impl DeepView for Book {
    type V = BookSpec;

    open spec fn deep_view(&self) -> BookSpec {
        self.view()
    }
}

impl Book {
    /// Packs parsed parts into a book.
    pub(crate) fn assemble(
        characters: Vec<Character>,
        pages: Vec<Page>,
        title: String,
        annotation_filepaths: String,
        image_root_dir: String,
    ) -> (b: Book)
        ensures
            b@ == (BookSpec {
                characters: characters.deep_view(),
                pages: pages.deep_view(),
                title: title@,
                annotation_filepaths: annotation_filepaths@,
                image_root_dir: image_root_dir@,
            }),
    {
        Book { characters, pages, title, annotation_filepaths, image_root_dir }
    }

    /// The image directory of this book, in canonical separator form.
    pub fn get_image_dir_paths(&self) -> (r: String)
        ensures
            r@ == normalize_spec(self@.image_root_dir),
    {
        normalize_paths(self.image_root_dir.as_str())
    }

    /// The annotation file of this book, in canonical separator form.
    pub fn get_annotation_file_paths(&self) -> (r: String)
        ensures
            r@ == normalize_spec(self@.annotation_filepaths),
    {
        normalize_paths(self.annotation_filepaths.as_str())
    }
}

/// A detached, deep-copied view of one book's title, characters and pages:
/// the result of a catalog query, sharing no storage with the catalog.
#[derive(Debug)]
pub struct Annotation {
    pub title: String,
    pub characters: Vec<Character>,
    pub pages: Vec<Page>,
}

/// The mathematical value of an [`Annotation`].
pub ghost struct AnnotationSpec {
    pub title: Seq<char>,
    pub characters: Seq<CharacterSpec>,
    pub pages: Seq<PageSpec>,
}

impl View for Annotation {
    type V = AnnotationSpec;

    open spec fn view(&self) -> AnnotationSpec {
        AnnotationSpec {
            title: self.title@,
            characters: self.characters.deep_view(),
            pages: self.pages.deep_view(),
        }
    }
}

impl DeepView for Annotation {
    type V = AnnotationSpec;

    open spec fn deep_view(&self) -> AnnotationSpec {
        self.view()
    }
}

impl Annotation {
    /// An annotation of the given title with no characters and no pages.
    pub fn new(title: String) -> (r: Annotation)
        ensures
            r@.title == title@,
            r@.characters == Seq::<CharacterSpec>::empty(),
            r@.pages == Seq::<PageSpec>::empty(),
    {
        let r = Annotation { title, characters: Vec::new(), pages: Vec::new() };
        proof {
            assert(r.characters.deep_view() =~= Seq::<CharacterSpec>::empty());
            assert(r.pages.deep_view() =~= Seq::<PageSpec>::empty());
        }
        r
    }
}

} // verus!
