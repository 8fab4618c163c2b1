//! The error taxonomy of the catalog: setup, schema, integrity, lookup and
//! asset failures are explicit results, never a process abort.

use vstd::prelude::*;

verus! {

/// Why an operation of the catalog failed.
///
/// Construction-time kinds (`Setup`, `EmptyManifest`, `Xml`, `Schema`,
/// `Integrity`) abort catalog construction; query-time kinds (`NotFound`,
/// `EmptyDataset`, `MissingAsset`) are returned per call so a consumer can
/// skip one bad lookup and continue.
#[derive(Debug, PartialEq, Eq)]
pub enum Error {
    /// A required file or directory of the dataset layout is absent.
    Setup { path: String },
    /// The manifest names no title at all.
    EmptyManifest,
    /// The annotation text is not well-formed XML.
    Xml { message: String },
    /// A required attribute (or required text content, reported as the
    /// attribute `#text`) is missing or malformed on an element.
    Schema { title: String, tag: String, attr: String },
    /// A rectangle with `xmax <= xmin` or `ymax <= ymin`.
    Integrity { title: String, tag: String, id: String },
    /// The queried book title, or page index within it, does not exist.
    NotFound { title: String, page: Option<usize> },
    /// The book exists but holds no pages.
    EmptyDataset { title: String },
    /// The resolved image file is absent on disk.
    MissingAsset { path: String },
}

/// The mathematical value of an [`Error`].
pub ghost enum ErrorSpec {
    Setup { path: Seq<char> },
    EmptyManifest,
    Xml { message: Seq<char> },
    Schema { title: Seq<char>, tag: Seq<char>, attr: Seq<char> },
    Integrity { title: Seq<char>, tag: Seq<char>, id: Seq<char> },
    NotFound { title: Seq<char>, page: Option<usize> },
    EmptyDataset { title: Seq<char> },
    MissingAsset { path: Seq<char> },
}

impl View for Error {
    type V = ErrorSpec;

    open spec fn view(&self) -> ErrorSpec {
        match self {
            Error::Setup { path } => ErrorSpec::Setup { path: path@ },
            Error::EmptyManifest => ErrorSpec::EmptyManifest,
            Error::Xml { message } => ErrorSpec::Xml { message: message@ },
            Error::Schema { title, tag, attr } => ErrorSpec::Schema {
                title: title@,
                tag: tag@,
                attr: attr@,
            },
            Error::Integrity { title, tag, id } => ErrorSpec::Integrity {
                title: title@,
                tag: tag@,
                id: id@,
            },
            Error::NotFound { title, page } => ErrorSpec::NotFound { title: title@, page: *page },
            Error::EmptyDataset { title } => ErrorSpec::EmptyDataset { title: title@ },
            Error::MissingAsset { path } => ErrorSpec::MissingAsset { path: path@ },
        }
    }
}

impl DeepView for Error {
    type V = ErrorSpec;

    open spec fn deep_view(&self) -> ErrorSpec {
        self.view()
    }
}

/// Lifts a result to the view level: the `Ok` value through `DeepView`,
/// the error through its view.
pub open spec fn lift<T: DeepView>(r: Result<T, Error>) -> Result<T::V, ErrorSpec> {
    match r {
        Ok(v) => Ok(v.deep_view()),
        Err(e) => Err(e@),
    }
}

} // verus!
