//! Telling audio files from other files by their first bytes.

use vstd::prelude::*;

verus! {

/// Largest length, exclusive, of a buffer that is handed to the sniffer.
pub const SNIFF_LIMIT: usize = 512;

/// The MIME type that `infer::get` recognises in the leading bytes of a
/// file, if it recognises any.
pub uninterp spec fn sniffed_mime(header: Seq<u8>) -> Option<Seq<char>>;

/// Calls `infer::get` and keeps the MIME type of the file type it found.
/// The outside function matches the bytes against a fixed table of
/// signatures, so its answer is a function of the bytes; the contract only
/// gives that answer its name. The machine word must have 64 bits: two of the
/// outside matchers add to a length read from the bytes, which can overflow a
/// narrower word. The buffer must be shorter than 512 bytes: from there on
/// one matcher parses the buffer as a compound file.
#[verifier::external_body]
fn sniff_mime(header: &[u8]) -> (mime: Option<String>)
    requires
        usize::BITS == 64,
        header@.len() < SNIFF_LIMIT,
    ensures
        mime is Some <==> sniffed_mime(header@) is Some,
        mime is Some ==> mime->Some_0@ == sniffed_mime(header@)->Some_0,
{
    match infer::get(header) {
        Some(kind) => Some(String::from(kind.mime_type())),
        None => None,
    }
}

/// Whether a MIME type names audio: whether it starts with `audio/`.
pub open spec fn names_audio(mime: Seq<char>) -> bool {
    &&& mime.len() >= 6
    &&& mime[0] == 'a'
    &&& mime[1] == 'u'
    &&& mime[2] == 'd'
    &&& mime[3] == 'i'
    &&& mime[4] == 'o'
    &&& mime[5] == '/'
}

/// Whether a MIME type names audio.
pub fn is_audio_mime(mime: &str) -> (audio: bool)
    ensures
        audio == names_audio(mime@),
{
    mime.unicode_len() >= 6 && mime.get_char(0) == 'a' && mime.get_char(1) == 'u' && mime.get_char(
        2,
    ) == 'd' && mime.get_char(3) == 'i' && mime.get_char(4) == 'o' && mime.get_char(5) == '/'
}

/// Whether the bytes of a file are those of an audio file.
pub open spec fn holds_audio(header: Seq<u8>) -> bool {
    match sniffed_mime(header) {
        Some(mime) => names_audio(mime),
        None => false,
    }
}

/// Whether the bytes can be sniffed: on a machine with a 64-bit word, a
/// buffer shorter than 512 bytes.
pub open spec fn can_sniff(header: Seq<u8>) -> bool {
    usize::BITS == 64 && header.len() < SNIFF_LIMIT
}

/// Whether a file is an audio file, judged by its leading bytes: whether a
/// file type is recognised in them and its MIME type names audio. There is
/// no answer where the bytes cannot be sniffed.
pub fn is_audio_file(header: &[u8]) -> (audio: Option<bool>)
    ensures
        audio is Some <==> can_sniff(header@),
        audio is Some ==> audio->Some_0 == holds_audio(header@),
{
    if usize::BITS != 64 || header.len() >= SNIFF_LIMIT {
        return None;
    }
    match sniff_mime(header) {
        Some(mime) => Some(is_audio_mime(mime.as_str())),
        None => Some(false),
    }
}

} // verus!
