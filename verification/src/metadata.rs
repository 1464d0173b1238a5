//! The metadata of an entry: what its front matter says, and what is
//! worked out from that.

use vstd::prelude::*;
use crate::error::ExtractMetadataError;
use crate::text::{copy_option, copy_pairs, copy_strings, option_text, option_texts, text_pairs, texts};

verus! {

/// The metadata of one entry. Timestamps are held as RFC 3339 text.
#[derive(Debug)]
pub struct Metadata {
    pub title: String,
    pub created_at: Option<String>,
    pub updated_at: Option<String>,
    /// Seconds from the Unix epoch to `created_at`; never read from input.
    pub unix_created_at: Option<i64>,
    /// Seconds from the Unix epoch to `updated_at`; never read from input.
    pub unix_updated_at: Option<i64>,
    pub tags: Vec<String>,
    /// The stem of the entry's file; never read from input.
    pub file_name: String,
    pub cover: Option<String>,
    pub summary: Option<String>,
    /// Further paths, relative to the page, under which the entry is found.
    pub aliases: Option<Vec<String>>,
    pub author_email: Option<String>,
    /// Keys and values that only templates read, in the order given.
    pub custom: Option<Vec<(String, String)>>,
}

/// The mathematical content of a `Metadata`.
pub struct MetadataView {
    pub title: Seq<char>,
    pub created_at: Option<Seq<char>>,
    pub updated_at: Option<Seq<char>>,
    pub unix_created_at: Option<i64>,
    pub unix_updated_at: Option<i64>,
    pub tags: Seq<Seq<char>>,
    pub file_name: Seq<char>,
    pub cover: Option<Seq<char>>,
    pub summary: Option<Seq<char>>,
    pub aliases: Option<Seq<Seq<char>>>,
    pub author_email: Option<Seq<char>>,
    pub custom: Option<Seq<(Seq<char>, Seq<char>)>>,
}

impl View for Metadata {
    type V = MetadataView;

    open spec fn view(&self) -> MetadataView {
        MetadataView {
            title: self.title@,
            created_at: option_text(self.created_at),
            updated_at: option_text(self.updated_at),
            unix_created_at: self.unix_created_at,
            unix_updated_at: self.unix_updated_at,
            tags: texts(self.tags@),
            file_name: self.file_name@,
            cover: option_text(self.cover),
            summary: option_text(self.summary),
            aliases: option_texts(self.aliases),
            author_email: option_text(self.author_email),
            custom: match self.custom {
                Some(pairs) => Some(text_pairs(pairs@)),
                None => None,
            },
        }
    }
}

/// The metadata of a list of entries, each by its content.
pub open spec fn metadata_views(list: Seq<Metadata>) -> Seq<MetadataView> {
    Seq::new(list.len(), |i: int| list[i]@)
}

/// The seconds from the Unix epoch to the instant that an RFC 3339
/// timestamp names; `None` where the text is no such timestamp.
pub uninterp spec fn rfc3339_epoch_seconds(timestamp: Seq<char>) -> Option<i64>;

/// The instant that an RFC 3339 timestamp names, written as RFC 2822 asks;
/// `None` where the text is no such timestamp or the instant cannot be
/// written that way.
pub uninterp spec fn rfc3339_as_rfc2822(timestamp: Seq<char>) -> Option<Seq<char>>;

/// Parses the text with `time::OffsetDateTime::parse` as RFC 3339 and
/// returns the `unix_timestamp` of what it has read.
#[verifier::external_body]
pub(crate) fn epoch_seconds(timestamp: &str) -> (r: Option<i64>)
    ensures
        r == rfc3339_epoch_seconds(timestamp@),
{
    let format = time::format_description::well_known::Rfc3339;
    time::OffsetDateTime::parse(timestamp, &format).ok().map(|t| t.unix_timestamp())
}

/// Parses the text with `time::OffsetDateTime::parse` as RFC 3339 and
/// writes it out with `format` as RFC 2822.
#[verifier::external_body]
pub(crate) fn as_rfc2822(timestamp: &str) -> (r: Option<String>)
    ensures
        option_text(r) == rfc3339_as_rfc2822(timestamp@),
{
    let read = time::format_description::well_known::Rfc3339;
    let write = time::format_description::well_known::Rfc2822;
    time::OffsetDateTime::parse(timestamp, &read).ok()?.format(&write).ok()
}

/// The seconds that belong to an optional timestamp.
pub open spec fn optional_seconds(timestamp: Option<Seq<char>>) -> Option<i64> {
    match timestamp {
        Some(text) => rfc3339_epoch_seconds(text),
        None => None,
    }
}

/// Whether an optional timestamp, where there is one, names an instant.
pub open spec fn timestamp_valid(timestamp: Option<Seq<char>>) -> bool {
    timestamp is Some ==> rfc3339_epoch_seconds(timestamp->0) is Some
}

impl MetadataView {
    /// Whether the derived fields say what the timestamps say: the seconds
    /// are those of the timestamp, and there are none without a timestamp.
    pub open spec fn timestamps_agree(self) -> bool {
        &&& timestamp_valid(self.created_at)
        &&& timestamp_valid(self.updated_at)
        &&& self.unix_created_at == optional_seconds(self.created_at)
        &&& self.unix_updated_at == optional_seconds(self.updated_at)
    }

    /// This metadata with its derived fields filled in for the entry whose
    /// file has the stem `stem`.
    pub open spec fn completed(self, stem: Seq<char>) -> MetadataView {
        MetadataView {
            unix_created_at: optional_seconds(self.created_at),
            unix_updated_at: optional_seconds(self.updated_at),
            file_name: stem,
            ..self
        }
    }
}

/// The message of the error for a `created_at` that names no instant.
pub open spec fn bad_created_at() -> Seq<char> {
    "created_at is not an RFC 3339 timestamp"@
}

/// The message of the error for an `updated_at` that names no instant.
pub open spec fn bad_updated_at() -> Seq<char> {
    "updated_at is not an RFC 3339 timestamp"@
}

impl Metadata {
    /// A copy of this metadata.
    pub fn duplicate(&self) -> (copy: Metadata)
        ensures
            copy@ == self@,
    {
        Metadata {
            title: self.title.clone(),
            created_at: copy_option(&self.created_at),
            updated_at: copy_option(&self.updated_at),
            unix_created_at: self.unix_created_at,
            unix_updated_at: self.unix_updated_at,
            tags: copy_strings(&self.tags),
            file_name: self.file_name.clone(),
            cover: copy_option(&self.cover),
            summary: copy_option(&self.summary),
            aliases: match &self.aliases {
                Some(list) => Some(copy_strings(list)),
                None => None,
            },
            author_email: copy_option(&self.author_email),
            custom: match &self.custom {
                Some(pairs) => Some(copy_pairs(pairs)),
                None => None,
            },
        }
    }

    /// Fills in what is worked out rather than read: the two Unix times, from
    /// the two timestamps, and the file name, which is `stem`. Whatever the
    /// three fields held before is dropped. `path` is the entry's file, for
    /// the error. A timestamp that names no instant is an error, that of
    /// `created_at` first.
    pub fn complete(self, stem: &str, path: &str) -> (r: Result<Metadata, ExtractMetadataError>)
        ensures
            match r {
                Ok(done) => {
                    &&& timestamp_valid(self@.created_at)
                    &&& timestamp_valid(self@.updated_at)
                    &&& done@ == self@.completed(stem@)
                    &&& done@.timestamps_agree()
                },
                Err(ExtractMetadataError::Deserialize(file, why)) => {
                    &&& file@ == path@
                    &&& if !timestamp_valid(self@.created_at) {
                        why@ == bad_created_at()
                    } else {
                        !timestamp_valid(self@.updated_at) && why@ == bad_updated_at()
                    }
                },
            },
    {
        let unix_created_at = match &self.created_at {
            Some(text) => {
                let seconds = epoch_seconds(text.as_str());
                if seconds.is_none() {
                    return Err(
                        ExtractMetadataError::Deserialize(
                            path.to_owned(),
                            "created_at is not an RFC 3339 timestamp".to_owned(),
                        ),
                    );
                }
                seconds
            },
            None => None,
        };
        let unix_updated_at = match &self.updated_at {
            Some(text) => {
                let seconds = epoch_seconds(text.as_str());
                if seconds.is_none() {
                    return Err(
                        ExtractMetadataError::Deserialize(
                            path.to_owned(),
                            "updated_at is not an RFC 3339 timestamp".to_owned(),
                        ),
                    );
                }
                seconds
            },
            None => None,
        };
        Ok(Metadata { unix_created_at, unix_updated_at, file_name: stem.to_owned(), ..self })
    }
}

} // verus!
