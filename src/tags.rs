//! Tags: what is read from a file for the library view, and the tag names
//! that can be written.
use vstd::prelude::*;
use std::collections::HashMap;

verus! {

/// What is read from an audio file for the library view.
pub struct AudioFileProperties {
    /// Tag values by tag name.
    pub tags: HashMap<String, String>,
    pub duration_millis: u32,
    /// The cover picture as a `data:` URL, where the file has one.
    pub cover_base64: Option<String>,
}

impl AudioFileProperties {
    /// The properties of a file that carries no tag: its length only.
    pub fn without_tags(duration_millis: u32) -> (r: Self)
        ensures
            r.tags@ == Map::<String, String>::empty(),
            r.duration_millis == duration_millis,
            r.cover_base64.is_none(),
    {
        AudioFileProperties { tags: HashMap::new(), duration_millis, cover_base64: None }
    }
}

/// How many tag names can be written.
pub const SUPPORTED_TAG_COUNT: usize = 103;

/// The writable tag name at position `i`, in the order they are offered.
pub open spec fn supported_tag_name(i: usize) -> Seq<char> {
    match i {
        0 => "AlbumTitle"@,
        1 => "SetSubtitle"@,
        2 => "ShowName"@,
        3 => "ContentGroup"@,
        4 => "TrackTitle"@,
        5 => "TrackSubtitle"@,
        6 => "OriginalAlbumTitle"@,
        7 => "OriginalArtist"@,
        8 => "OriginalLyricist"@,
        9 => "AlbumTitleSortOrder"@,
        10 => "AlbumArtistSortOrder"@,
        11 => "TrackTitleSortOrder"@,
        12 => "TrackArtistSortOrder"@,
        13 => "ShowNameSortOrder"@,
        14 => "ComposerSortOrder"@,
        15 => "AlbumArtist"@,
        16 => "TrackArtist"@,
        17 => "TrackArtists"@,
        18 => "Arranger"@,
        19 => "Writer"@,
        20 => "Composer"@,
        21 => "Conductor"@,
        22 => "Director"@,
        23 => "Engineer"@,
        24 => "Lyricist"@,
        25 => "MixDj"@,
        26 => "MixEngineer"@,
        27 => "MusicianCredits"@,
        28 => "Performer"@,
        29 => "Producer"@,
        30 => "Publisher"@,
        31 => "Label"@,
        32 => "InternetRadioStationName"@,
        33 => "InternetRadioStationOwner"@,
        34 => "Remixer"@,
        35 => "DiscNumber"@,
        36 => "DiscTotal"@,
        37 => "TrackNumber"@,
        38 => "TrackTotal"@,
        39 => "Popularimeter"@,
        40 => "ParentalAdvisory"@,
        41 => "RecordingDate"@,
        42 => "Year"@,
        43 => "ReleaseDate"@,
        44 => "OriginalReleaseDate"@,
        45 => "Isrc"@,
        46 => "Barcode"@,
        47 => "CatalogNumber"@,
        48 => "Work"@,
        49 => "Movement"@,
        50 => "MovementNumber"@,
        51 => "MovementTotal"@,
        52 => "MusicBrainzRecordingId"@,
        53 => "MusicBrainzTrackId"@,
        54 => "MusicBrainzReleaseId"@,
        55 => "MusicBrainzReleaseGroupId"@,
        56 => "MusicBrainzArtistId"@,
        57 => "MusicBrainzReleaseArtistId"@,
        58 => "MusicBrainzWorkId"@,
        59 => "FlagCompilation"@,
        60 => "FlagPodcast"@,
        61 => "FileType"@,
        62 => "FileOwner"@,
        63 => "TaggingTime"@,
        64 => "Length"@,
        65 => "OriginalFileName"@,
        66 => "OriginalMediaType"@,
        67 => "EncodedBy"@,
        68 => "EncoderSoftware"@,
        69 => "EncoderSettings"@,
        70 => "EncodingTime"@,
        71 => "ReplayGainAlbumGain"@,
        72 => "ReplayGainAlbumPeak"@,
        73 => "ReplayGainTrackGain"@,
        74 => "ReplayGainTrackPeak"@,
        75 => "AudioFileUrl"@,
        76 => "AudioSourceUrl"@,
        77 => "CommercialInformationUrl"@,
        78 => "CopyrightUrl"@,
        79 => "TrackArtistUrl"@,
        80 => "RadioStationUrl"@,
        81 => "PaymentUrl"@,
        82 => "PublisherUrl"@,
        83 => "Genre"@,
        84 => "InitialKey"@,
        85 => "Color"@,
        86 => "Mood"@,
        87 => "Bpm"@,
        88 => "IntegerBpm"@,
        89 => "CopyrightMessage"@,
        90 => "License"@,
        91 => "PodcastDescription"@,
        92 => "PodcastSeriesCategory"@,
        93 => "PodcastUrl"@,
        94 => "PodcastGlobalUniqueId"@,
        95 => "PodcastKeywords"@,
        96 => "Comment"@,
        97 => "Description"@,
        98 => "Language"@,
        99 => "Script"@,
        100 => "Lyrics"@,
        101 => "AppleXid"@,
        102 => "AppleId3v2ContentGroup"@,
        _ => Seq::empty(),
    }
}

fn supported_tag_name_at(i: usize) -> (r: &'static str)
    requires
        i < SUPPORTED_TAG_COUNT,
    ensures
        r@ == supported_tag_name(i),
{
    match i {
        0 => "AlbumTitle",
        1 => "SetSubtitle",
        2 => "ShowName",
        3 => "ContentGroup",
        4 => "TrackTitle",
        5 => "TrackSubtitle",
        6 => "OriginalAlbumTitle",
        7 => "OriginalArtist",
        8 => "OriginalLyricist",
        9 => "AlbumTitleSortOrder",
        10 => "AlbumArtistSortOrder",
        11 => "TrackTitleSortOrder",
        12 => "TrackArtistSortOrder",
        13 => "ShowNameSortOrder",
        14 => "ComposerSortOrder",
        15 => "AlbumArtist",
        16 => "TrackArtist",
        17 => "TrackArtists",
        18 => "Arranger",
        19 => "Writer",
        20 => "Composer",
        21 => "Conductor",
        22 => "Director",
        23 => "Engineer",
        24 => "Lyricist",
        25 => "MixDj",
        26 => "MixEngineer",
        27 => "MusicianCredits",
        28 => "Performer",
        29 => "Producer",
        30 => "Publisher",
        31 => "Label",
        32 => "InternetRadioStationName",
        33 => "InternetRadioStationOwner",
        34 => "Remixer",
        35 => "DiscNumber",
        36 => "DiscTotal",
        37 => "TrackNumber",
        38 => "TrackTotal",
        39 => "Popularimeter",
        40 => "ParentalAdvisory",
        41 => "RecordingDate",
        42 => "Year",
        43 => "ReleaseDate",
        44 => "OriginalReleaseDate",
        45 => "Isrc",
        46 => "Barcode",
        47 => "CatalogNumber",
        48 => "Work",
        49 => "Movement",
        50 => "MovementNumber",
        51 => "MovementTotal",
        52 => "MusicBrainzRecordingId",
        53 => "MusicBrainzTrackId",
        54 => "MusicBrainzReleaseId",
        55 => "MusicBrainzReleaseGroupId",
        56 => "MusicBrainzArtistId",
        57 => "MusicBrainzReleaseArtistId",
        58 => "MusicBrainzWorkId",
        59 => "FlagCompilation",
        60 => "FlagPodcast",
        61 => "FileType",
        62 => "FileOwner",
        63 => "TaggingTime",
        64 => "Length",
        65 => "OriginalFileName",
        66 => "OriginalMediaType",
        67 => "EncodedBy",
        68 => "EncoderSoftware",
        69 => "EncoderSettings",
        70 => "EncodingTime",
        71 => "ReplayGainAlbumGain",
        72 => "ReplayGainAlbumPeak",
        73 => "ReplayGainTrackGain",
        74 => "ReplayGainTrackPeak",
        75 => "AudioFileUrl",
        76 => "AudioSourceUrl",
        77 => "CommercialInformationUrl",
        78 => "CopyrightUrl",
        79 => "TrackArtistUrl",
        80 => "RadioStationUrl",
        81 => "PaymentUrl",
        82 => "PublisherUrl",
        83 => "Genre",
        84 => "InitialKey",
        85 => "Color",
        86 => "Mood",
        87 => "Bpm",
        88 => "IntegerBpm",
        89 => "CopyrightMessage",
        90 => "License",
        91 => "PodcastDescription",
        92 => "PodcastSeriesCategory",
        93 => "PodcastUrl",
        94 => "PodcastGlobalUniqueId",
        95 => "PodcastKeywords",
        96 => "Comment",
        97 => "Description",
        98 => "Language",
        99 => "Script",
        100 => "Lyrics",
        101 => "AppleXid",
        102 => "AppleId3v2ContentGroup",
        _ => "",
    }
}

/// All tag names that can be used for writing tags.
pub fn get_supported_tags() -> (r: Vec<String>)
    ensures
        r.len() == SUPPORTED_TAG_COUNT,
        forall|i: int| 0 <= i < r.len() ==> #[trigger] r[i]@ == supported_tag_name(i as usize),
{
    let mut names: Vec<String> = Vec::new();
    let mut i: usize = 0;
    while i < SUPPORTED_TAG_COUNT
        invariant
            i <= SUPPORTED_TAG_COUNT,
            names.len() == i,
            forall|j: int| 0 <= j < names.len() ==> #[trigger] names[j]@ == supported_tag_name(j as usize),
        decreases SUPPORTED_TAG_COUNT - i,
    {
        names.push(supported_tag_name_at(i).to_owned());
        i = i + 1;
    }
    names
}

} // verus!
