//! Grouping of the audio files that a scan found, by artist and by album.

use crate::library::{Album, Artist, Track};
use crate::metadata::{text_of, AudioMetadata};
use vstd::prelude::*;

verus! {

/// The tracks found for one album.
#[derive(Debug)]
pub struct AlbumTracks {
    pub album: Album,
    pub tracks: Vec<Track>,
}

/// The albums found for one artist.
#[derive(Debug)]
pub struct ArtistAlbums {
    pub artist: Artist,
    pub albums: Vec<AlbumTracks>,
}

/// The artist that a file is credited to: the one its tags name, or
/// `Unknown Artist`.
pub open spec fn artist_of(metadata: AudioMetadata) -> Seq<char> {
    match metadata.artist {
        Some(artist) => artist@,
        None => "Unknown Artist"@,
    }
}

/// The album that a file is filed under: the one its tags name, or
/// `Unknown Album`.
pub open spec fn album_of(metadata: AudioMetadata) -> Seq<char> {
    match metadata.album {
        Some(album) => album@,
        None => "Unknown Album"@,
    }
}

/// The files that are credited to `artist` and filed under `album`, in the
/// order in which they were found.
pub open spec fn credited(found: Seq<AudioMetadata>, artist: Seq<char>, album: Seq<char>) -> Seq<
    AudioMetadata,
>
    decreases found.len(),
{
    if found.len() == 0 {
        Seq::empty()
    } else {
        let rest = credited(found.drop_last(), artist, album);
        if artist_of(found.last()) == artist && album_of(found.last()) == album {
            rest.push(found.last())
        } else {
            rest
        }
    }
}

/// Whether a library track is the entry for a found file: same path, the
/// title as its name and the track number as its place on the album.
pub open spec fn entry_for(track: Track, metadata: AudioMetadata) -> bool {
    &&& track.spec_path() == metadata.file_path@
    &&& track.spec_name() == text_of(metadata.title)
    &&& track.spec_album_order() == metadata.track_number
}

/// Whether `tracks` are the entries for `files`, one for one and in order.
pub open spec fn entries_for(tracks: Seq<Track>, files: Seq<AudioMetadata>) -> bool {
    &&& tracks.len() == files.len()
    &&& forall|k: int| 0 <= k < tracks.len() ==> entry_for(#[trigger] tracks[k], files[k])
}

/// Whether `groups` is the grouping of `found`: no artist and, for one
/// artist, no album occurs twice; no group is empty; every album holds
/// exactly the files credited to its artist and filed under it, in the order
/// in which they were found; and every file found has its group.
pub open spec fn groups_of(found: Seq<AudioMetadata>, groups: Seq<ArtistAlbums>) -> bool {
    &&& forall|a: int, a2: int|
        0 <= a < groups.len() && 0 <= a2 < groups.len() && a != a2 ==> (#[trigger] groups[a]).artist.spec_name()
            != (#[trigger] groups[a2]).artist.spec_name()
    &&& forall|a: int, b: int, b2: int|
        0 <= a < groups.len() && 0 <= b < groups[a].albums@.len() && 0 <= b2
            < groups[a].albums@.len() && b != b2 ==> (#[trigger] groups[a].albums@[b]).album.spec_name()
            != (#[trigger] groups[a].albums@[b2]).album.spec_name()
    &&& forall|a: int| 0 <= a < groups.len() ==> (#[trigger] groups[a]).albums@.len() > 0
    &&& forall|a: int, b: int|
        0 <= a < groups.len() && 0 <= b < groups[a].albums@.len() ==> {
            let group = #[trigger] groups[a].albums@[b];
            &&& group.tracks@.len() > 0
            &&& group.album.spec_cover_path() is None
            &&& entries_for(
                group.tracks@,
                credited(found, groups[a].artist.spec_name(), group.album.spec_name()),
            )
        }
    &&& forall|i: int|
        0 <= i < found.len() ==> has_group(groups, artist_of(#[trigger] found[i]), album_of(found[i]))
}

/// Whether there is a group for the given artist and album.
pub open spec fn has_group(groups: Seq<ArtistAlbums>, artist: Seq<char>, album: Seq<char>) -> bool {
    exists|a: int, b: int|
        0 <= a < groups.len() && 0 <= b < groups[a].albums@.len() && (#[trigger] groups[a]).artist.spec_name()
            == artist && (#[trigger] groups[a].albums@[b]).album.spec_name() == album
}

/// Where no file found is credited to the artist and filed under the album,
/// the list of such files is empty.
proof fn lemma_credited_empty(found: Seq<AudioMetadata>, artist: Seq<char>, album: Seq<char>)
    requires
        forall|i: int|
            0 <= i < found.len() ==> !(artist_of(#[trigger] found[i]) == artist && album_of(found[i])
                == album),
    ensures
        credited(found, artist, album).len() == 0,
    decreases found.len(),
{
    if found.len() > 0 {
        let front = found.drop_last();
        assert forall|i: int| 0 <= i < front.len() implies !(artist_of(#[trigger] front[i])
            == artist && album_of(front[i]) == album) by {
            assert(front[i] == found[i]);
        }
        lemma_credited_empty(front, artist, album);
        assert(found.last() == found[found.len() - 1]);
    }
}

/// Position of the artist of the given name.
fn find_artist(groups: &Vec<ArtistAlbums>, name: &String) -> (at: Option<usize>)
    ensures
        match at {
            Some(a) => a < groups@.len() && groups@[a as int].artist.spec_name() == name@,
            None => forall|a: int|
                0 <= a < groups@.len() ==> (#[trigger] groups@[a]).artist.spec_name() != name@,
        },
{
    let mut a: usize = 0;
    while a < groups.len()
        invariant
            a <= groups@.len(),
            forall|j: int| 0 <= j < a ==> (#[trigger] groups@[j]).artist.spec_name() != name@,
        decreases groups@.len() - a,
    {
        if groups[a].artist.is_named(name) {
            return Some(a);
        }
        a = a + 1;
    }
    None
}

/// Position of the album of the given name.
fn find_album(albums: &Vec<AlbumTracks>, name: &String) -> (at: Option<usize>)
    ensures
        match at {
            Some(b) => b < albums@.len() && albums@[b as int].album.spec_name() == name@,
            None => forall|b: int|
                0 <= b < albums@.len() ==> (#[trigger] albums@[b]).album.spec_name() != name@,
        },
{
    let mut b: usize = 0;
    while b < albums.len()
        invariant
            b <= albums@.len(),
            forall|j: int| 0 <= j < b ==> (#[trigger] albums@[j]).album.spec_name() != name@,
        decreases albums@.len() - b,
    {
        if albums[b].album.is_named(name) {
            return Some(b);
        }
        b = b + 1;
    }
    None
}

/// The library entry for a found file.
fn entry_of(metadata: &AudioMetadata) -> (track: Track)
    ensures
        entry_for(track, *metadata),
{
    let title = match &metadata.title {
        Some(title) => Some(title.clone()),
        None => None,
    };
    Track::new(metadata.file_path.clone(), title, metadata.track_number)
}

/// The list of files credited to an artist and filed under an album, after
/// one more file has been found.
proof fn lemma_credited_step(
    found: Seq<AudioMetadata>,
    metadata: AudioMetadata,
    artist: Seq<char>,
    album: Seq<char>,
)
    ensures
        credited(found.push(metadata), artist, album) == if artist_of(metadata) == artist
            && album_of(metadata) == album {
            credited(found, artist, album).push(metadata)
        } else {
            credited(found, artist, album)
        },
{
    let next = found.push(metadata);
    assert(next.drop_last() =~= found);
    assert(next.last() == metadata);
}

/// While there is no group for an artist and an album, no file found is
/// credited to them.
proof fn lemma_without_group_nothing_credited(
    found: Seq<AudioMetadata>,
    groups: Seq<ArtistAlbums>,
    artist: Seq<char>,
    album: Seq<char>,
)
    requires
        groups_of(found, groups),
        !has_group(groups, artist, album),
    ensures
        credited(found, artist, album).len() == 0,
{
    assert forall|i: int| 0 <= i < found.len() implies !(artist_of(#[trigger] found[i]) == artist
        && album_of(found[i]) == album) by {
        assert(has_group(groups, artist_of(found[i]), album_of(found[i])));
    }
    lemma_credited_empty(found, artist, album);
}

/// Whether `after` has every artist and album of `before` at its old place
/// and under its old name.
spec fn keeps_names(before: Seq<ArtistAlbums>, after: Seq<ArtistAlbums>) -> bool {
    &&& before.len() <= after.len()
    &&& forall|a: int|
        0 <= a < before.len() ==> {
            &&& (#[trigger] after[a]).artist.spec_name() == before[a].artist.spec_name()
            &&& before[a].albums@.len() <= after[a].albums@.len()
        }
    &&& forall|a: int, b: int|
        0 <= a < before.len() && 0 <= b < before[a].albums@.len() ==> (
        #[trigger] after[a].albums@[b]).album.spec_name() == before[a].albums@[b].album.spec_name()
}

/// A group that was there is still there when all names have been kept.
proof fn lemma_group_stays(
    before: Seq<ArtistAlbums>,
    after: Seq<ArtistAlbums>,
    artist: Seq<char>,
    album: Seq<char>,
)
    requires
        keeps_names(before, after),
        has_group(before, artist, album),
    ensures
        has_group(after, artist, album),
{
    let (a, b) = choose|a: int, b: int|
        0 <= a < before.len() && 0 <= b < before[a].albums@.len() && (
        #[trigger] before[a]).artist.spec_name() == artist && (
        #[trigger] before[a].albums@[b]).album.spec_name() == album;
    assert(after[a].artist.spec_name() == artist && after[a].albums@[b].album.spec_name()
        == album);
}

/// After one more file has been filed at place `(a, b)`, every file found
/// so far has its group.
proof fn lemma_all_files_have_groups(
    found: Seq<AudioMetadata>,
    metadata: AudioMetadata,
    before: Seq<ArtistAlbums>,
    after: Seq<ArtistAlbums>,
    a: int,
    b: int,
)
    requires
        groups_of(found, before),
        keeps_names(before, after),
        0 <= a < after.len(),
        0 <= b < after[a].albums@.len(),
        after[a].artist.spec_name() == artist_of(metadata),
        after[a].albums@[b].album.spec_name() == album_of(metadata),
    ensures
        forall|i: int|
            0 <= i < found.push(metadata).len() ==> has_group(
                after,
                artist_of(#[trigger] found.push(metadata)[i]),
                album_of(found.push(metadata)[i]),
            ),
{
    let next = found.push(metadata);
    assert forall|i: int| 0 <= i < next.len() implies has_group(
        after,
        artist_of(#[trigger] next[i]),
        album_of(next[i]),
    ) by {
        if i < found.len() {
            assert(next[i] == found[i]);
            lemma_group_stays(before, after, artist_of(found[i]), album_of(found[i]));
        }
    }
}

/// Files the entry of one more found file under its artist and album,
/// opening the group where there is none yet.
fn add_file(groups: &mut Vec<ArtistAlbums>, metadata: &AudioMetadata, Ghost(found): Ghost<
    Seq<AudioMetadata>,
>)
    requires
        groups_of(found, old(groups)@),
    ensures
        groups_of(found.push(*metadata), final(groups)@),
{
    let artist_name = match &metadata.artist {
        Some(artist) => artist.clone(),
        None => "Unknown Artist".to_owned(),
    };
    let album_name = match &metadata.album {
        Some(album) => album.clone(),
        None => "Unknown Album".to_owned(),
    };
    let track = entry_of(metadata);
    let ghost before = groups@;
    let ghost next = found.push(*metadata);
    let ghost artist = artist_of(*metadata);
    let ghost album = album_of(*metadata);
    proof {
        assert forall|a: int, b: int|
            0 <= a < before.len() && 0 <= b < before[a].albums@.len() implies credited(
            next,
            before[a].artist.spec_name(),
            (#[trigger] before[a].albums@[b]).album.spec_name(),
        ) == if before[a].artist.spec_name() == artist && before[a].albums@[b].album.spec_name()
            == album {
            credited(found, artist, album).push(*metadata)
        } else {
            credited(found, before[a].artist.spec_name(), before[a].albums@[b].album.spec_name())
        } by {
            lemma_credited_step(
                found,
                *metadata,
                before[a].artist.spec_name(),
                before[a].albums@[b].album.spec_name(),
            );
        }
        lemma_credited_step(found, *metadata, artist, album);
    }
    match find_artist(groups, &artist_name) {
        Some(a) => {
            match find_album(&groups[a].albums, &album_name) {
                Some(b) => {
                    groups[a].albums[b].tracks.push(track);
                    proof {
                        lemma_all_files_have_groups(
                            found,
                            *metadata,
                            before,
                            groups@,
                            a as int,
                            b as int,
                        );
                    }
                },
                None => {
                    let mut tracks: Vec<Track> = Vec::new();
                    tracks.push(track);
                    groups[a].albums.push(AlbumTracks { album: Album::new(album_name, None), tracks });
                    proof {
                        lemma_without_group_nothing_credited(found, before, artist, album);
                        lemma_all_files_have_groups(
                            found,
                            *metadata,
                            before,
                            groups@,
                            a as int,
                            before[a as int].albums@.len() as int,
                        );
                    }
                },
            }
        },
        None => {
            let mut tracks: Vec<Track> = Vec::new();
            tracks.push(track);
            let mut albums: Vec<AlbumTracks> = Vec::new();
            albums.push(AlbumTracks { album: Album::new(album_name, None), tracks });
            groups.push(ArtistAlbums { artist: Artist::new(artist_name), albums });
            proof {
                lemma_without_group_nothing_credited(found, before, artist, album);
                assert forall|a: int| 0 <= a < before.len() implies #[trigger] groups@[a]
                    == before[a] by {}
                lemma_all_files_have_groups(
                    found,
                    *metadata,
                    before,
                    groups@,
                    before.len() as int,
                    0,
                );
            }
        },
    }
}

/// Groups the files that a scan found by artist and, for each artist, by
/// album. A file whose tags name no artist goes to `Unknown Artist`, one
/// whose tags name no album to `Unknown Album`.
pub fn group_tracks(found: &Vec<AudioMetadata>) -> (groups: Vec<ArtistAlbums>)
    ensures
        groups_of(found@, groups@),
{
    let mut groups: Vec<ArtistAlbums> = Vec::new();
    let mut i: usize = 0;
    while i < found.len()
        invariant
            i <= found@.len(),
            groups_of(found@.take(i as int), groups@),
        decreases found@.len() - i,
    {
        add_file(&mut groups, &found[i], Ghost(found@.take(i as int)));
        assert(found@.take(i as int).push(found@[i as int]) =~= found@.take(i as int + 1));
        i = i + 1;
    }
    assert(found@.take(found@.len() as int) =~= found@);
    groups
}

} // verus!
