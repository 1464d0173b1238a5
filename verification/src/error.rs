//! What can go wrong while a site is built.

use vstd::prelude::*;

verus! {

/// A front matter block that could not be turned into metadata.
#[derive(Debug)]
pub enum ExtractMetadataError {
    /// The front matter of the file at the first field is not what the
    /// metadata of an entry looks like; the second field says why.
    Deserialize(String, String),
}

/// Why building a site stopped.
#[derive(Debug)]
pub enum ParseFilesError {
    /// The file system refused an operation; the field says which and why.
    Io(String),
    /// An output path has no parent directory.
    Parent,
    /// The path of an entry has no file stem.
    FileName,
    /// The front matter of an entry could not be read.
    Metadata(ExtractMetadataError),
    /// The entry at this path has no front matter.
    MetadataMissing(String),
    /// A template could not be loaded or compiled.
    TemplateEnvironment(String),
    /// A template failed while it was rendered.
    TemplateRender(String),
    /// No address could be made for the path in the field, relative to the
    /// base address of the site.
    Address(String),
    /// The creation time of the entry with the file name in the field cannot
    /// be written as a publication date.
    Timestamp(String),
    /// The build was handed an answer to a question that it had not asked.
    OutOfTurn,
}

/// The mathematical content of an `ExtractMetadataError`.
pub enum MetadataFault {
    Deserialize(Seq<char>, Seq<char>),
}

/// The mathematical content of a `ParseFilesError`.
pub enum Fault {
    Io(Seq<char>),
    Parent,
    FileName,
    Metadata(MetadataFault),
    MetadataMissing(Seq<char>),
    TemplateEnvironment(Seq<char>),
    TemplateRender(Seq<char>),
    Address(Seq<char>),
    Timestamp(Seq<char>),
    OutOfTurn,
}

impl View for ExtractMetadataError {
    type V = MetadataFault;

    open spec fn view(&self) -> MetadataFault {
        match self {
            ExtractMetadataError::Deserialize(path, why) => MetadataFault::Deserialize(path@, why@),
        }
    }
}

impl View for ParseFilesError {
    type V = Fault;

    open spec fn view(&self) -> Fault {
        match self {
            ParseFilesError::Io(why) => Fault::Io(why@),
            ParseFilesError::Parent => Fault::Parent,
            ParseFilesError::FileName => Fault::FileName,
            ParseFilesError::Metadata(inner) => Fault::Metadata(inner@),
            ParseFilesError::MetadataMissing(path) => Fault::MetadataMissing(path@),
            ParseFilesError::TemplateEnvironment(why) => Fault::TemplateEnvironment(why@),
            ParseFilesError::TemplateRender(why) => Fault::TemplateRender(why@),
            ParseFilesError::Address(path) => Fault::Address(path@),
            ParseFilesError::Timestamp(name) => Fault::Timestamp(name@),
            ParseFilesError::OutOfTurn => Fault::OutOfTurn,
        }
    }
}

} // verus!
