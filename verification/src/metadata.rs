//! Descriptive tags of an audio file, as far as the library shows them.

use vstd::prelude::*;

verus! {

/// The number that `str::parse::<u64>` reads from a text, if it reads one.
pub uninterp spec fn parsed_number(text: Seq<char>) -> Option<u64>;

/// Calls `str::parse::<u64>`. The contract only gives the result its name:
/// it is a function of the text.
#[verifier::external_body]
fn parse_number(text: &str) -> (number: Option<u64>)
    ensures
        number == parsed_number(text@),
{
    match text.parse::<u64>() {
        Ok(number) => Some(number),
        Err(_) => None,
    }
}

/// The number that a tag value stands for, where it is one that fits the
/// machine's word.
pub open spec fn number_in(text: Seq<char>) -> Option<usize> {
    match parsed_number(text) {
        Some(number) => if number <= usize::MAX {
            Some(number as usize)
        } else {
            None
        },
        None => None,
    }
}

/// What a tag is about.
#[derive(Clone, Copy, Debug, PartialEq, Eq, Structural)]
pub enum TagKind {
    Artist,
    TrackTitle,
    Album,
    Date,
    Genre,
    TrackNumber,
    /// Any other tag.
    Other,
}

/// One tag of a file.
#[derive(Debug)]
pub struct Tag {
    pub kind: TagKind,
    pub value: String,
}

/// The value of the last tag of the given kind, if there is one.
pub open spec fn last_of(tags: Seq<Tag>, kind: TagKind) -> Option<Seq<char>>
    decreases tags.len(),
{
    if tags.len() == 0 {
        None
    } else if tags.last().kind == kind {
        Some(tags.last().value@)
    } else {
        last_of(tags.drop_last(), kind)
    }
}

/// The number in the last tag of the given kind, if there is such a tag and
/// its value is a number.
pub open spec fn last_number_of(tags: Seq<Tag>, kind: TagKind) -> Option<usize> {
    match last_of(tags, kind) {
        Some(text) => number_in(text),
        None => None,
    }
}

/// The view of an optional text.
pub open spec fn text_of(text: Option<String>) -> Option<Seq<char>> {
    match text {
        Some(text) => Some(text@),
        None => None,
    }
}

/// The descriptive tags of one audio file.
#[derive(Debug)]
pub struct AudioMetadata {
    pub file_path: String,
    pub artist: Option<String>,
    pub title: Option<String>,
    pub album: Option<String>,
    pub year: Option<usize>,
    pub genre: Option<String>,
    pub track_number: Option<usize>,
}

impl AudioMetadata {
    /// The metadata of a file that carries no tag.
    pub fn untagged(file_path: String) -> (metadata: Self)
        ensures
            metadata.file_path@ == file_path@,
            metadata.artist is None,
            metadata.title is None,
            metadata.album is None,
            metadata.year is None,
            metadata.genre is None,
            metadata.track_number is None,
    {
        AudioMetadata {
            file_path,
            artist: None,
            title: None,
            album: None,
            year: None,
            genre: None,
            track_number: None,
        }
    }

    /// Reads the metadata of a file off its tags. Each field comes from the
    /// last tag of its kind; year and track number are kept where the tag
    /// holds a number.
    pub fn from_tags(file_path: String, tags: &Vec<Tag>) -> (metadata: Self)
        ensures
            metadata.file_path@ == file_path@,
            text_of(metadata.artist) == last_of(tags@, TagKind::Artist),
            text_of(metadata.title) == last_of(tags@, TagKind::TrackTitle),
            text_of(metadata.album) == last_of(tags@, TagKind::Album),
            text_of(metadata.genre) == last_of(tags@, TagKind::Genre),
            metadata.year == last_number_of(tags@, TagKind::Date),
            metadata.track_number == last_number_of(tags@, TagKind::TrackNumber),
    {
        let mut metadata = AudioMetadata::untagged(file_path);
        let mut i: usize = 0;
        while i < tags.len()
            invariant
                i <= tags@.len(),
                metadata.file_path@ == file_path@,
                text_of(metadata.artist) == last_of(tags@.take(i as int), TagKind::Artist),
                text_of(metadata.title) == last_of(tags@.take(i as int), TagKind::TrackTitle),
                text_of(metadata.album) == last_of(tags@.take(i as int), TagKind::Album),
                text_of(metadata.genre) == last_of(tags@.take(i as int), TagKind::Genre),
                metadata.year == last_number_of(tags@.take(i as int), TagKind::Date),
                metadata.track_number == last_number_of(
                    tags@.take(i as int),
                    TagKind::TrackNumber,
                ),
            decreases tags@.len() - i,
        {
            let tag = &tags[i];
            proof {
                let next = tags@.take(i as int + 1);
                assert(next.drop_last() =~= tags@.take(i as int));
                assert(next.last() == tags@[i as int]);
            }
            match tag.kind {
                TagKind::Artist => {
                    metadata.artist = Some(tag.value.clone());
                },
                TagKind::TrackTitle => {
                    metadata.title = Some(tag.value.clone());
                },
                TagKind::Album => {
                    metadata.album = Some(tag.value.clone());
                },
                TagKind::Date => {
                    metadata.year = to_word(parse_number(tag.value.as_str()));
                },
                TagKind::Genre => {
                    metadata.genre = Some(tag.value.clone());
                },
                TagKind::TrackNumber => {
                    metadata.track_number = to_word(parse_number(tag.value.as_str()));
                },
                TagKind::Other => {},
            }
            i = i + 1;
        }
        assert(tags@.take(tags@.len() as int) =~= tags@);
        metadata
    }
}

/// Keeps a number that fits the machine's word.
fn to_word(number: Option<u64>) -> (word: Option<usize>)
    ensures
        word == match number {
            Some(n) => if n <= usize::MAX {
                Some(n as usize)
            } else {
                None
            },
            None => None::<usize>,
        },
{
    match number {
        Some(n) => if n <= usize::MAX as u64 {
            Some(n as usize)
        } else {
            None
        },
        None => None,
    }
}

} // verus!
