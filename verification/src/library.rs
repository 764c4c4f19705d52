//! Entries of the music library: artists, albums and the tracks that were
//! found for them.

use crate::track::AudioFile;
use vstd::prelude::*;

verus! {

#[derive(Debug, Clone, PartialEq, Eq, Hash)]
pub struct Artist {
    name: String,
}

impl Artist {
    pub closed spec fn spec_name(&self) -> Seq<char> {
        self.name@
    }

    pub fn new(name: String) -> (artist: Self)
        ensures
            artist.spec_name() == name@,
    {
        Self { name }
    }

    pub fn name(&self) -> (name: &str)
        ensures
            name@ == self.spec_name(),
    {
        self.name.as_str()
    }

    pub fn is_named(&self, name: &String) -> (same: bool)
        ensures
            same == (self.spec_name() == name@),
    {
        self.name == *name
    }
}

#[derive(Debug, Clone, PartialEq, Eq, Hash)]
pub struct Album {
    name: String,
    cover_path: Option<String>,
}

impl Album {
    pub closed spec fn spec_name(&self) -> Seq<char> {
        self.name@
    }

    pub closed spec fn spec_cover_path(&self) -> Option<Seq<char>> {
        match self.cover_path {
            Some(path) => Some(path@),
            None => None,
        }
    }

    pub fn new(name: String, cover_path: Option<String>) -> (album: Self)
        ensures
            album.spec_name() == name@,
            album.spec_cover_path() == match cover_path {
                Some(path) => Some(path@),
                None => None,
            },
    {
        Self { name, cover_path }
    }

    pub fn name(&self) -> (name: &str)
        ensures
            name@ == self.spec_name(),
    {
        self.name.as_str()
    }

    pub fn is_named(&self, name: &String) -> (same: bool)
        ensures
            same == (self.spec_name() == name@),
    {
        self.name == *name
    }

    pub fn cover_path(&self) -> (path: Option<&str>)
        ensures
            path is Some <==> self.spec_cover_path() is Some,
            path is Some ==> path->Some_0@ == self.spec_cover_path()->Some_0,
    {
        match &self.cover_path {
            Some(path) => Some(path.as_str()),
            None => None,
        }
    }
}

/// A track of the library: where its file lies, and how it is titled and
/// numbered on its album, as far as the file says.
#[derive(Debug)]
pub struct Track {
    path: String,
    name: Option<String>,
    album_order: Option<usize>,
}

impl Track {
    pub closed spec fn spec_path(&self) -> Seq<char> {
        self.path@
    }

    pub closed spec fn spec_name(&self) -> Option<Seq<char>> {
        match self.name {
            Some(name) => Some(name@),
            None => None,
        }
    }

    pub closed spec fn spec_album_order(&self) -> Option<usize> {
        self.album_order
    }

    pub fn new(path: String, name: Option<String>, album_order: Option<usize>) -> (track: Self)
        ensures
            track.spec_path() == path@,
            track.spec_name() == match name {
                Some(name) => Some(name@),
                None => None,
            },
            track.spec_album_order() == album_order,
    {
        Self { path, name, album_order }
    }

    pub fn path(&self) -> (path: &str)
        ensures
            path@ == self.spec_path(),
    {
        self.path.as_str()
    }

    pub fn name(&self) -> (name: Option<&str>)
        ensures
            name is Some <==> self.spec_name() is Some,
            name is Some ==> name->Some_0@ == self.spec_name()->Some_0,
    {
        match &self.name {
            Some(name) => Some(name.as_str()),
            None => None,
        }
    }

    pub fn album_order(&self) -> (order: Option<usize>)
        ensures
            order == self.spec_album_order(),
    {
        self.album_order
    }

    /// The descriptor by which the player opens this track: the same path.
    pub fn audio_file(&self) -> (file: AudioFile)
        ensures
            file@ == self.spec_path(),
    {
        AudioFile::new(self.path.clone())
    }
}

} // verus!
