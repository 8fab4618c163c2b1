//! The catalog: the manifest-ordered collection of parsed books, the
//! query API that hands out deep copies, and the image-path resolver.
//!
//! The catalog itself works on plain values. The caller reads the manifest
//! file and each annotation file, validates the directory layout, and
//! hands the text in; the caller also performs the final existence check
//! on a resolved image path.

use vstd::prelude::*;

use crate::error::Error;
use crate::error::ErrorSpec;
use crate::model::clone_characters;
use crate::model::Annotation;
use crate::model::AnnotationSpec;
use crate::model::Book;
use crate::model::BookSpec;
use crate::model::Page;
use crate::paths::image_file_name;
use crate::paths::normalize_paths;
use crate::paths::normalize_spec;
use crate::paths::page_image_name;
use crate::strutil::push_char;
use crate::strutil::str_eq;

verus! {

/// The catalog of all parsed books, in manifest order.
#[derive(Debug)]
pub struct Manga109 {
    pub root_dir: String,
    pub books: Vec<Book>,
}

/// The mathematical value of a [`Manga109`] catalog.
pub ghost struct Manga109Spec {
    pub root_dir: Seq<char>,
    pub books: Seq<BookSpec>,
}

impl View for Manga109 {
    type V = Manga109Spec;

    open spec fn view(&self) -> Manga109Spec {
        Manga109Spec { root_dir: self.root_dir@, books: self.books.deep_view() }
    }
}

/// The position at which a newline first occurs at or after `j`, or the
/// length of the text.
pub open spec fn newline_pos_from(s: Seq<char>, j: int) -> int
    decreases s.len() - j,
{
    if j < 0 || j >= s.len() {
        s.len() as int
    } else if s[j] == '\n' {
        j
    } else {
        newline_pos_from(s, j + 1)
    }
}

/// The manifest lines from position `pos` on: split at each newline, with
/// a carriage return stripped only when it stands directly before the
/// newline, and with no empty line after a final newline.
pub open spec fn lines_from(s: Seq<char>, pos: int) -> Seq<Seq<char>>
    decreases s.len() - pos,
{
    if pos < 0 || pos >= s.len() {
        Seq::empty()
    } else {
        let i = newline_pos_from(s, pos);
        if pos <= i && i < s.len() {
            let head = s.subrange(pos, i);
            let line = if head.len() > 0 && head.last() == '\r' {
                head.drop_last()
            } else {
                head
            };
            seq![line] + lines_from(s, i + 1)
        } else {
            seq![s.subrange(pos, s.len() as int)]
        }
    }
}

/// The titles of a manifest text: one per line, case-sensitive, with no
/// trimming beyond line-ending removal.
pub open spec fn split_lines(s: Seq<char>) -> Seq<Seq<char>> {
    lines_from(s, 0)
}

/// Splits manifest text into titles, as `split_lines` says.
pub fn manifest_titles(contents: &str) -> (r: Vec<String>)
    ensures
        r.deep_view() == split_lines(contents@),
{
    let ghost s = contents@;
    let n = contents.unicode_len();
    let mut out: Vec<String> = Vec::new();
    let mut pos: usize = 0;
    proof {
        assert(out.deep_view() =~= Seq::<Seq<char>>::empty());
        assert(out.deep_view() + lines_from(s, 0) =~= lines_from(s, 0));
    }
    while pos < n
        invariant
            0 <= pos <= n,
            n == s.len(),
            s == contents@,
            split_lines(s) == out.deep_view() + lines_from(s, pos as int),
        decreases n - pos,
    {
        let mut j = pos;
        while j < n && contents.get_char(j) != '\n'
            invariant
                pos <= j <= n,
                n == s.len(),
                s == contents@,
                newline_pos_from(s, pos as int) == newline_pos_from(s, j as int),
            decreases n - j,
        {
            j = j + 1;
        }
        proof {
            if j < n {
                assert(s[j as int] == '\n');
                assert(newline_pos_from(s, j as int) == j);
            } else {
                assert(newline_pos_from(s, j as int) == n);
            }
        }
        if j < n {
            let endx = if j > pos && contents.get_char(j - 1) == '\r' {
                j - 1
            } else {
                j
            };
            let line = contents.substring_char(pos, endx).to_owned();
            proof {
                let head = s.subrange(pos as int, j as int);
                if j > pos && s[j - 1] == '\r' {
                    assert(head.len() > 0 && head.last() == '\r');
                    assert(head.drop_last() =~= s.subrange(pos as int, j - 1));
                } else {
                    if head.len() > 0 {
                        assert(head.last() == s[j - 1]);
                    }
                }
                assert(line@ == (if head.len() > 0 && head.last() == '\r' {
                    head.drop_last()
                } else {
                    head
                }));
            }
            let ghost pre = out.deep_view();
            let ghost lv = line@;
            out.push(line);
            proof {
                assert(out.deep_view() =~= pre.push(lv));
                assert(lines_from(s, pos as int) =~= seq![lv] + lines_from(s, j + 1));
                assert(pre.push(lv) + lines_from(s, j + 1) =~= pre + (seq![lv] + lines_from(
                    s,
                    j + 1,
                )));
            }
            pos = j + 1;
        } else {
            let line = contents.substring_char(pos, n).to_owned();
            let ghost pre = out.deep_view();
            let ghost lv = line@;
            out.push(line);
            proof {
                assert(out.deep_view() =~= pre.push(lv));
                assert(lines_from(s, pos as int) =~= seq![lv]);
                assert(pre.push(lv) + lines_from(s, n as int) =~= pre + lines_from(
                    s,
                    pos as int,
                ));
            }
            pos = j;
        }
    }
    proof {
        assert(lines_from(s, n as int) =~= Seq::<Seq<char>>::empty());
        assert(out.deep_view() + lines_from(s, n as int) =~= out.deep_view());
    }
    out
}

/// The position of the first book with the given title, or the length of
/// the collection, scanning from `i`.
pub open spec fn first_book_from(books: Seq<BookSpec>, title: Seq<char>, i: int) -> int
    decreases books.len() - i,
{
    if i < 0 || i >= books.len() {
        books.len() as int
    } else if books[i].title == title {
        i
    } else {
        first_book_from(books, title, i + 1)
    }
}

/// The position of the first book with the given title, or the length of
/// the collection.
pub open spec fn first_book(books: Seq<BookSpec>, title: Seq<char>) -> int {
    first_book_from(books, title, 0)
}

/// The first match lies between the scan start and the collection length.
pub proof fn lemma_first_book_bounds(books: Seq<BookSpec>, title: Seq<char>, i: int)
    requires
        0 <= i <= books.len(),
    ensures
        i <= first_book_from(books, title, i) <= books.len(),
    decreases books.len() - i,
{
    if i < books.len() && books[i].title != title {
        lemma_first_book_bounds(books, title, i + 1);
    }
}

/// The resolved image path of page `idx` of a book: the book's normalized
/// image directory, a slash, and the zero-padded file name, the whole put
/// in canonical separator form once more.
pub open spec fn img_path_spec(b: BookSpec, idx: nat) -> Seq<char> {
    normalize_spec(normalize_spec(b.image_root_dir) + seq!['/'] + image_file_name(idx))
}

impl Manga109 {
    /// Packs parsed books into a catalog rooted at `root_dir`, in manifest
    /// order. A manifest with zero titles yields zero books, and an empty
    /// catalog is never built: that is the `EmptyManifest` failure.
    pub fn from_parts(root_dir: String, books: Vec<Book>) -> (r: Result<Manga109, Error>)
        ensures
            books@.len() == 0 ==> (r matches Err(e) && e@ == ErrorSpec::EmptyManifest),
            books@.len() > 0 ==> (r matches Ok(m) && m@.root_dir == root_dir@ && m@.books
                == books.deep_view()),
    {
        if books.len() == 0 {
            Err(Error::EmptyManifest)
        } else {
            Ok(Manga109 { root_dir, books })
        }
    }

    /// The titles of all books, in manifest order.
    pub fn list_books(&self) -> (r: Vec<String>)
        ensures
            r.deep_view() == Seq::new(self@.books.len(), |i: int| self@.books[i].title),
    {
        let ghost target = Seq::new(self@.books.len(), |i: int| self@.books[i].title);
        let mut out: Vec<String> = Vec::new();
        let mut i: usize = 0;
        proof {
            assert(out.deep_view() =~= target.take(0));
        }
        while i < self.books.len()
            invariant
                0 <= i <= self.books@.len(),
                target == Seq::new(self@.books.len(), |i: int| self@.books[i].title),
                out.deep_view() =~= target.take(i as int),
            decreases self.books@.len() - i,
        {
            let ghost pre = out.deep_view();
            let t = self.books[i].title.clone();
            proof {
                assert(self@.books[i as int] == self.books@[i as int].deep_view());
                assert(t@ == target[i as int]);
            }
            out.push(t);
            proof {
                assert(out.deep_view() =~= pre.push(t@));
                assert(target.take(i + 1) =~= target.take(i as int).push(target[i as int]));
            }
            i = i + 1;
        }
        proof {
            assert(target.take(self.books@.len() as int) =~= target);
        }
        out
    }

    /// Resolves the image path of one page of one book: the first book of
    /// that exact title, the page at that position in its page collection,
    /// and the path `img_path_spec` says. An unknown title, or a position
    /// outside the page collection, is a `NotFound` result, never an
    /// abort. The caller still has to check that the file exists on disk.
    pub fn img_path(&self, book: &str, page_index: &usize) -> (r: Result<String, Error>)
        ensures
            ({
                let bi = first_book(self@.books, book@);
                if bi == self@.books.len() {
                    r matches Err(e) && e@ == (ErrorSpec::NotFound {
                        title: book@,
                        page: None,
                    })
                } else if *page_index >= self@.books[bi].pages.len() {
                    r matches Err(e) && e@ == (ErrorSpec::NotFound {
                        title: book@,
                        page: Some(*page_index),
                    })
                } else {
                    r matches Ok(p) && p@ == img_path_spec(self@.books[bi], *page_index as nat)
                }
            }),
    {
        let ghost books = self@.books;
        let mut i: usize = 0;
        while i < self.books.len()
            invariant
                0 <= i <= books.len(),
                books == self@.books,
                first_book(books, book@) == first_book_from(books, book@, i as int),
            decreases self.books@.len() - i,
        {
            proof {
                assert(books[i as int] == self.books@[i as int].deep_view());
            }
            if str_eq(self.books[i].title.as_str(), book) {
                let b = &self.books[i];
                if *page_index >= b.pages.len() {
                    return Err(
                        Error::NotFound { title: book.to_owned(), page: Some(*page_index) },
                    );
                }
                let dir = b.get_image_dir_paths();
                let name = page_image_name(*page_index);
                let mut joined = dir;
                push_char(&mut joined, '/');
                joined.append(name.as_str());
                proof {
                    assert(joined@ =~= normalize_spec(books[i as int].image_root_dir)
                        + seq!['/'] + image_file_name(*page_index as nat));
                }
                let resolved = normalize_paths(joined.as_str());
                return Ok(resolved);
            }
            i = i + 1;
        }
        proof {
            lemma_first_book_bounds(books, book@, 0);
        }
        Err(Error::NotFound { title: book.to_owned(), page: None })
    }

    /// Hands out one book's annotation data as a detached deep copy: the
    /// title, characters and pages of the first book of that exact title,
    /// sharing no storage with the catalog. An unknown title is a
    /// `NotFound` result, never an abort; a book with zero pages is an
    /// `EmptyDataset` result.
    ///
    /// `separate_by_tag` is accepted for interface compatibility; the
    /// grouped shape — each page's entities in four collections by type —
    /// is the annotation's only shape, so both flag values yield it.
    pub fn get_annotation(&self, book: &str, separate_by_tag: bool) -> (r: Result<
        Annotation,
        Error,
    >)
        ensures
            ({
                let bi = first_book(self@.books, book@);
                if bi == self@.books.len() {
                    r matches Err(e) && e@ == (ErrorSpec::NotFound {
                        title: book@,
                        page: None,
                    })
                } else if self@.books[bi].pages.len() == 0 {
                    r matches Err(e) && e@ == (ErrorSpec::EmptyDataset { title: book@ })
                } else {
                    r matches Ok(a) && a@ == (AnnotationSpec {
                        title: self@.books[bi].title,
                        characters: self@.books[bi].characters,
                        pages: self@.books[bi].pages,
                    })
                }
            }),
    {
        let ghost books = self@.books;
        let mut i: usize = 0;
        while i < self.books.len()
            invariant
                0 <= i <= books.len(),
                books == self@.books,
                first_book(books, book@) == first_book_from(books, book@, i as int),
            decreases self.books@.len() - i,
        {
            proof {
                assert(books[i as int] == self.books@[i as int].deep_view());
            }
            if str_eq(self.books[i].title.as_str(), book) {
                let b = &self.books[i];
                let characters = clone_characters(&b.characters);
                let mut pages: Vec<Page> = Vec::new();
                let mut k: usize = 0;
                proof {
                    assert(pages.deep_view() =~= books[i as int].pages.take(0));
                }
                while k < b.pages.len()
                    invariant
                        0 <= k <= b.pages@.len(),
                        books == self@.books,
                        i < books.len(),
                        b == &self.books@[i as int],
                        pages.deep_view() =~= books[i as int].pages.take(k as int),
                    decreases b.pages@.len() - k,
                {
                    let ghost pre = pages.deep_view();
                    let p = b.pages[k].clone();
                    proof {
                        assert(books[i as int].pages[k as int] == b.pages@[k as int].deep_view());
                    }
                    pages.push(p);
                    proof {
                        assert(pages.deep_view() =~= pre.push(books[i as int].pages[k as int]));
                        assert(books[i as int].pages.take(k + 1) =~= books[i as int].pages.take(
                            k as int,
                        ).push(books[i as int].pages[k as int]));
                    }
                    k = k + 1;
                }
                if pages.len() == 0 {
                    return Err(Error::EmptyDataset { title: book.to_owned() });
                }
                proof {
                    assert(books[i as int].pages.take(b.pages@.len() as int) =~= books[
                        i as int
                    ].pages);
                }
                let title = b.title.clone();
                return Ok(Annotation { title, characters, pages });
            }
            i = i + 1;
        }
        proof {
            lemma_first_book_bounds(books, book@, 0);
        }
        Err(Error::NotFound { title: book.to_owned(), page: None })
    }
}

} // verus!
