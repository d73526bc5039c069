use vstd::prelude::*;

verus! {

/// The kind of a media item.
#[derive(Debug, Clone, Copy, PartialEq, Eq, Structural)]
pub enum MediaType {
    Unspecified,
    Audiobook,
    Music,
}

/// The stored code of each media kind.
pub open spec fn media_type_code(t: MediaType) -> i32 {
    match t {
        MediaType::Unspecified => 0,
        MediaType::Audiobook => 2,
        MediaType::Music => 4,
    }
}

pub fn convert_media_type_to_int(media_type: &MediaType) -> (r: i32)
    ensures
        r == media_type_code(*media_type),
{
    match media_type {
        MediaType::Unspecified => 0,
        MediaType::Audiobook => 2,
        MediaType::Music => 4,
    }
}

/// Reads a stored code back; unknown codes read as unspecified.
pub fn convert_int_to_media_type(code: i32) -> (r: MediaType)
    ensures
        code == 2 ==> r == MediaType::Audiobook,
        code == 4 ==> r == MediaType::Music,
        code != 2 && code != 4 ==> r == MediaType::Unspecified,
        media_type_code(r) == code || r == MediaType::Unspecified,
{
    match code {
        2 => MediaType::Audiobook,
        4 => MediaType::Music,
        _ => MediaType::Unspecified,
    }
}

/// A chapter of a media item. Times are milliseconds from the item's start.
#[derive(Debug, Clone)]
pub struct MediaSourceChapter {
    pub name: String,
    pub start: u64,
    pub duration: u64,
}

impl MediaSourceChapter {
    /// The instant at which the chapter ends, in unbounded arithmetic.
    pub open spec fn spec_end(&self) -> int {
        self.start + self.duration
    }

    pub fn new(name: String, start: u64, duration: u64) -> (r: Self)
        ensures
            r.name@ == name@,
            r.start == start,
            r.duration == duration,
    {
        MediaSourceChapter { name, start, duration }
    }

    pub fn end(&self) -> (r: u64)
        requires
            self.spec_end() <= u64::MAX,
        ensures
            r == self.spec_end(),
    {
        self.start + self.duration
    }
}

/// The encoding of a cover picture.
#[derive(Debug, Clone, Copy, PartialEq, Eq, Structural)]
pub enum MediaSourceImageCodec {
    Unknown,
    Jpeg,
    Png,
    Tiff,
    Bmp,
    Gif,
    WebP,
}

/// How a cover was obtained for display.
#[derive(Debug, Clone, Copy, PartialEq, Eq, Structural)]
pub enum LoadCoverResult {
    Image,
    Placeholder,
    NoCover,
}

/// A cached picture, addressed by its content hash under a cache directory.
#[derive(Debug, Clone)]
pub struct MediaSourcePicture {
    pub cache_dir: String,
    pub hash: String,
    pub codec: MediaSourceImageCodec,
}

/// Tag data of a media item. `None` means unset, as opposed to empty.
#[derive(Debug, Clone)]
pub struct MediaSourceMetadata {
    pub artist: Option<String>,
    pub title: Option<String>,
    pub album: Option<String>,
    pub genre: Option<String>,
    pub composer: Option<String>,
    pub series: Option<String>,
    pub part: Option<String>,
    pub cover: Option<MediaSourcePicture>,
    pub chapters: Vec<MediaSourceChapter>,
}

impl MediaSourceMetadata {
    pub fn new(
        artist: Option<String>,
        title: Option<String>,
        album: Option<String>,
        composer: Option<String>,
        series: Option<String>,
        part: Option<String>,
        genre: Option<String>,
        cover: Option<MediaSourcePicture>,
        chapters: Vec<MediaSourceChapter>,
    ) -> (r: Self)
        ensures
            r.artist == artist,
            r.title == title,
            r.album == album,
            r.composer == composer,
            r.series == series,
            r.part == part,
            r.genre == genre,
            r.cover == cover,
            r.chapters@ == chapters@,
    {
        MediaSourceMetadata { artist, title, album, genre, composer, series, part, cover, chapters }
    }
}

/// A playable item as the media source resolves it.
#[derive(Debug, Clone)]
pub struct MediaSourceItem {
    pub id: String,
    pub location: String,
    pub title: String,
    pub media_type: MediaType,
    pub metadata: MediaSourceMetadata,
}

impl MediaSourceItem {
    pub fn new(id: String, location: String, title: String, media_type: MediaType, metadata: MediaSourceMetadata) -> (r: Self)
        ensures
            r.id@ == id@,
            r.location@ == location@,
            r.title@ == title@,
            r.media_type == media_type,
            r.metadata == metadata,
    {
        MediaSourceItem { id, location, title, media_type, metadata }
    }
}

} // verus!
