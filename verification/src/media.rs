//! Media discovery: which entries of a directory listing count as images,
//! videos and fonts, and in what order they are offered.
//!
//! Reading a directory is left to the caller, who passes what was found.
//! Whatever the order of the listing, the result is ordered by name, and only
//! names with a recognised extension are kept.

use crate::media::names::{name_bytes, names_bytes, sort_order, sorted_order};
use vstd::prelude::*;

pub mod laws;
pub mod names;

verus! {

// ── What a directory holds ───────────────────────────────────────────

/// An entry found in a directory of files.
#[derive(Debug, PartialEq, Eq)]
pub struct ListedFile {
    /// The entry's name within the directory
    pub name: String,
    /// Whether the entry is a regular file
    pub is_file: bool,
    /// File size in bytes
    pub size: u64,
}

/// An entry found in the directory of videos.
#[derive(Debug, PartialEq, Eq)]
pub struct ListedDir {
    /// The entry's name within the directory
    pub name: String,
    /// Whether the entry is a directory
    pub is_dir: bool,
    /// The names of the entries inside it
    pub files: Vec<String>,
}

/// An entry of a directory of files as a mathematical value.
pub struct ListedFileView {
    pub name: Seq<char>,
    pub is_file: bool,
    pub size: u64,
}

/// An entry of the directory of videos as a mathematical value.
pub struct ListedDirView {
    pub name: Seq<char>,
    pub is_dir: bool,
    pub files: Seq<Seq<char>>,
}

impl View for ListedFile {
    type V = ListedFileView;

    open spec fn view(&self) -> ListedFileView {
        ListedFileView { name: self.name@, is_file: self.is_file, size: self.size }
    }
}

impl View for ListedDir {
    type V = ListedDirView;

    open spec fn view(&self) -> ListedDirView {
        ListedDirView {
            name: self.name@,
            is_dir: self.is_dir,
            files: self.files@.map_values(|name: String| name@),
        }
    }
}

// ── What is offered ──────────────────────────────────────────────────

/// Information about a single media file.
#[derive(Debug, PartialEq, Eq)]
pub struct MediaEntry {
    /// Filename (e.g., "sunset.png")
    pub name: String,
    /// Relative path from media dir (e.g., "images/sunset.png")
    pub path: String,
    /// File size in bytes
    pub size: u64,
}

/// Information about a video directory (folder of frame images).
#[derive(Debug, PartialEq, Eq)]
pub struct VideoEntry {
    /// Directory name (e.g., "flame")
    pub name: String,
    /// Relative path from media dir (e.g., "videos/flame")
    pub path: String,
    /// Number of frame files in the directory
    pub frame_count: usize,
}

/// A media entry as a mathematical value.
pub struct MediaEntryView {
    pub name: Seq<char>,
    pub path: Seq<char>,
    pub size: u64,
}

/// A video entry as a mathematical value.
pub struct VideoEntryView {
    pub name: Seq<char>,
    pub path: Seq<char>,
    pub frame_count: usize,
}

impl View for MediaEntry {
    type V = MediaEntryView;

    open spec fn view(&self) -> MediaEntryView {
        MediaEntryView { name: self.name@, path: self.path@, size: self.size }
    }
}

impl View for VideoEntry {
    type V = VideoEntryView;

    open spec fn view(&self) -> VideoEntryView {
        VideoEntryView { name: self.name@, path: self.path@, frame_count: self.frame_count }
    }
}

// ── Extensions ───────────────────────────────────────────────────────

/// The byte of the dot that sets an extension off.
pub const DOT: u8 = 0x2e;

/// The bytes of `png`.
pub open spec fn png() -> Seq<u8> {
    seq![0x70u8, 0x6eu8, 0x67u8]
}

/// The bytes of `jpg`.
pub open spec fn jpg() -> Seq<u8> {
    seq![0x6au8, 0x70u8, 0x67u8]
}

/// The bytes of `jpeg`.
pub open spec fn jpeg() -> Seq<u8> {
    seq![0x6au8, 0x70u8, 0x65u8, 0x67u8]
}

/// The bytes of `gif`.
pub open spec fn gif() -> Seq<u8> {
    seq![0x67u8, 0x69u8, 0x66u8]
}

/// The bytes of `bmp`.
pub open spec fn bmp() -> Seq<u8> {
    seq![0x62u8, 0x6du8, 0x70u8]
}

/// The bytes of `bdf`.
pub open spec fn bdf() -> Seq<u8> {
    seq![0x62u8, 0x64u8, 0x66u8]
}

/// Whether `name` has the extension `ext`: it ends in a dot and `ext`, with
/// something before the dot. For an `ext` without a dot this is to say that
/// what follows the last dot of the name is `ext`.
pub open spec fn has_extension(name: Seq<u8>, ext: Seq<u8>) -> bool {
    &&& name.len() > ext.len() + 1
    &&& name[name.len() - ext.len() - 1] == DOT
    &&& name.subrange(name.len() - ext.len(), name.len() as int) == ext
}

/// What stands before the extension `ext` of `name`, and before its dot.
pub open spec fn stem(name: Seq<u8>, ext: Seq<u8>) -> Seq<u8> {
    name.subrange(0, name.len() - ext.len() - 1)
}

/// Whether a name is that of an image: PNG, JPEG, GIF or BMP.
pub open spec fn is_image_name(name: Seq<u8>) -> bool {
    ||| has_extension(name, png())
    ||| has_extension(name, jpg())
    ||| has_extension(name, jpeg())
    ||| has_extension(name, gif())
    ||| has_extension(name, bmp())
}

/// Whether a name is that of a video frame: PNG or JPEG.
pub open spec fn is_frame_name(name: Seq<u8>) -> bool {
    ||| has_extension(name, png())
    ||| has_extension(name, jpg())
    ||| has_extension(name, jpeg())
}

/// Whether a name is that of a BDF font.
pub open spec fn is_font_name(name: Seq<u8>) -> bool {
    has_extension(name, bdf())
}

/// Whether `name` has the extension `ext`.
pub fn ends_with_extension(name: &[u8], ext: &[u8]) -> (found: bool)
    ensures
        found == has_extension(name@, ext@),
{
    if name.len() <= ext.len() || name.len() - ext.len() < 2 {
        return false;
    }
    let start: usize = name.len() - ext.len();
    if name[start - 1] != DOT {
        return false;
    }
    let mut i: usize = 0;
    while i < ext.len()
        invariant
            i <= ext.len(),
            start + ext.len() == name.len(),
            forall|j: int| 0 <= j < i ==> name@[start + j] == ext@[j],
        decreases ext.len() - i,
    {
        if name[start + i] != ext[i] {
            assert(name@.subrange(start as int, name@.len() as int)[i as int] != ext@[i as int]);
            return false;
        }
        i += 1;
    }
    assert(name@.subrange(start as int, name@.len() as int) =~= ext@);
    true
}

/// Whether a name is that of an image: PNG, JPEG, GIF or BMP.
pub fn image_name(name: &String) -> (found: bool)
    ensures
        found == is_image_name(name_bytes(name@)),
{
    let bytes = name.as_str().as_bytes();
    let png: [u8; 3] = [0x70, 0x6e, 0x67];
    let jpg: [u8; 3] = [0x6a, 0x70, 0x67];
    let jpeg: [u8; 4] = [0x6a, 0x70, 0x65, 0x67];
    let gif: [u8; 3] = [0x67, 0x69, 0x66];
    let bmp: [u8; 3] = [0x62, 0x6d, 0x70];
    assert(png@ =~= self::png());
    assert(jpg@ =~= self::jpg());
    assert(jpeg@ =~= self::jpeg());
    assert(gif@ =~= self::gif());
    assert(bmp@ =~= self::bmp());
    ends_with_extension(bytes, png.as_slice()) || ends_with_extension(bytes, jpg.as_slice())
        || ends_with_extension(bytes, jpeg.as_slice()) || ends_with_extension(
        bytes,
        gif.as_slice(),
    ) || ends_with_extension(bytes, bmp.as_slice())
}

/// Whether a name is that of a video frame: PNG or JPEG.
pub fn frame_name(name: &String) -> (found: bool)
    ensures
        found == is_frame_name(name_bytes(name@)),
{
    let bytes = name.as_str().as_bytes();
    let png: [u8; 3] = [0x70, 0x6e, 0x67];
    let jpg: [u8; 3] = [0x6a, 0x70, 0x67];
    let jpeg: [u8; 4] = [0x6a, 0x70, 0x65, 0x67];
    assert(png@ =~= self::png());
    assert(jpg@ =~= self::jpg());
    assert(jpeg@ =~= self::jpeg());
    ends_with_extension(bytes, png.as_slice()) || ends_with_extension(bytes, jpg.as_slice())
        || ends_with_extension(bytes, jpeg.as_slice())
}

/// The name of the font that a file holds: the file's name without `.bdf`,
/// or `None` if the file is no BDF font.
pub fn font_name(file: &String) -> (font: Option<String>)
    ensures
        font is Some <==> is_font_name(name_bytes(file@)),
        font matches Some(name) ==> name_bytes(name@) == stem(name_bytes(file@), bdf()),
{
    let name = file.as_str();
    let bytes = name.as_bytes();
    let bdf: [u8; 3] = [0x62, 0x64, 0x66];
    assert(bdf@ =~= self::bdf());
    if !ends_with_extension(bytes, bdf.as_slice()) {
        return None;
    }
    let cut: usize = bytes.len() - 4;
    proof {
        // A dot is no continuation byte, so a character starts at it.
        vstd::utf8::encode_utf8_valid_utf8(file@);
        vstd::utf8::is_char_boundary_iff_not_is_continuation_byte(bytes@, cut as int);
    }
    let (before, _after) = name.split_at(cut);
    Some(String::from_str(before))
}

// ── Listings ─────────────────────────────────────────────────────────

/// The items at the positions that `order` gives, one after the other.
pub open spec fn arranged<T>(items: Seq<T>, order: Seq<int>) -> Seq<T> {
    Seq::new(order.len(), |at: int| items[order[at]])
}

/// The items in the order of their keys, items with equal keys in the order
/// in which they stand.
pub open spec fn sorted_by<T>(items: Seq<T>, keys: Seq<Seq<u8>>) -> Seq<T> {
    arranged(items, sorted_order(keys))
}

/// The entry offered for an image file.
pub open spec fn image_entry(file: ListedFileView) -> MediaEntryView {
    MediaEntryView { name: file.name, path: "images/"@ + file.name, size: file.size }
}

/// The images among `files`, as they stand.
pub open spec fn images_found(files: Seq<ListedFileView>) -> Seq<MediaEntryView>
    decreases files.len(),
{
    if files.len() == 0 {
        Seq::empty()
    } else {
        let before = images_found(files.drop_last());
        let file = files.last();
        if file.is_file && is_image_name(name_bytes(file.name)) {
            before.push(image_entry(file))
        } else {
            before
        }
    }
}

/// The images to offer: those found, ordered by name; none where there is no
/// directory.
pub open spec fn images_listed(listing: Option<Seq<ListedFileView>>) -> Seq<MediaEntryView> {
    match listing {
        None => Seq::empty(),
        Some(files) => {
            let found = images_found(files);
            sorted_by(found, found.map_values(|entry: MediaEntryView| name_bytes(entry.name)))
        },
    }
}

/// How many of `names` are names of video frames.
pub open spec fn frames_counted(names: Seq<Seq<char>>) -> nat
    decreases names.len(),
{
    if names.len() == 0 {
        0
    } else {
        let before = frames_counted(names.drop_last());
        if is_frame_name(name_bytes(names.last())) {
            before + 1
        } else {
            before
        }
    }
}

/// The entry offered for a video directory.
pub open spec fn video_entry(dir: ListedDirView) -> VideoEntryView {
    VideoEntryView {
        name: dir.name,
        path: "videos/"@ + dir.name,
        frame_count: frames_counted(dir.files) as usize,
    }
}

/// The videos among `dirs`, as they stand: the directories that hold at
/// least one frame.
pub open spec fn videos_found(dirs: Seq<ListedDirView>) -> Seq<VideoEntryView>
    decreases dirs.len(),
{
    if dirs.len() == 0 {
        Seq::empty()
    } else {
        let before = videos_found(dirs.drop_last());
        let dir = dirs.last();
        if dir.is_dir && frames_counted(dir.files) > 0 {
            before.push(video_entry(dir))
        } else {
            before
        }
    }
}

/// The videos to offer: those found, ordered by name; none where there is no
/// directory.
pub open spec fn videos_listed(listing: Option<Seq<ListedDirView>>) -> Seq<VideoEntryView> {
    match listing {
        None => Seq::empty(),
        Some(dirs) => {
            let found = videos_found(dirs);
            sorted_by(found, found.map_values(|entry: VideoEntryView| name_bytes(entry.name)))
        },
    }
}

/// The bytes of the names of the fonts among `files`, as they stand.
pub open spec fn fonts_found(files: Seq<ListedFileView>) -> Seq<Seq<u8>>
    decreases files.len(),
{
    if files.len() == 0 {
        Seq::empty()
    } else {
        let before = fonts_found(files.drop_last());
        let file = files.last();
        if file.is_file && is_font_name(name_bytes(file.name)) {
            before.push(stem(name_bytes(file.name), bdf()))
        } else {
            before
        }
    }
}

/// The bytes of the names of the fonts to offer: those found, in order; none
/// where there is no directory.
pub open spec fn fonts_listed(listing: Option<Seq<ListedFileView>>) -> Seq<Seq<u8>> {
    match listing {
        None => Seq::empty(),
        Some(files) => {
            let found = fonts_found(files);
            sorted_by(found, found)
        },
    }
}

/// A listing of files as a mathematical value.
pub open spec fn listed_files(files: Option<Vec<ListedFile>>) -> Option<Seq<ListedFileView>> {
    match files {
        Some(files) => Some(files@.map_values(|file: ListedFile| file@)),
        None => None,
    }
}

/// A listing of directories as a mathematical value.
pub open spec fn listed_dirs(dirs: Option<Vec<ListedDir>>) -> Option<Seq<ListedDirView>> {
    match dirs {
        Some(dirs) => Some(dirs@.map_values(|dir: ListedDir| dir@)),
        None => None,
    }
}

/// The images of the `images` directory, given what the directory holds
/// (`None` if it cannot be read): the PNG, JPEG, GIF and BMP files, ordered
/// by name.
pub fn list_images(listing: Option<Vec<ListedFile>>) -> (entries: Vec<MediaEntry>)
    ensures
        entries@.map_values(|entry: MediaEntry| entry@) == images_listed(listed_files(listing)),
{
    let files = match listing {
        Some(files) => files,
        None => {
            let none: Vec<MediaEntry> = Vec::new();
            assert(none@.map_values(|entry: MediaEntry| entry@) =~= Seq::empty());
            return none;
        },
    };
    let ghost listed = files@.map_values(|file: ListedFile| file@);
    let mut found: Vec<MediaEntry> = Vec::new();
    let mut names: Vec<String> = Vec::new();
    let mut i: usize = 0;
    assert(listed.take(0) =~= Seq::empty());
    assert(found@.map_values(|entry: MediaEntry| entry@) =~= Seq::empty());
    while i < files.len()
        invariant
            i <= files.len(),
            listed == files@.map_values(|file: ListedFile| file@),
            found@.map_values(|entry: MediaEntry| entry@) == images_found(listed.take(i as int)),
            names@.len() == found@.len(),
            forall|k: int| 0 <= k < names@.len() ==> (#[trigger] names@[k])@ == found@[k].name@,
        decreases files.len() - i,
    {
        let file = &files[i];
        let ghost shown = found@.map_values(|entry: MediaEntry| entry@);
        assert(listed.take(i + 1).drop_last() =~= listed.take(i as int));
        assert(listed.take(i + 1).last() == file@);
        if file.is_file && image_name(&file.name) {
            let entry = MediaEntry {
                name: file.name.clone(),
                path: String::from_str("images/").concat(file.name.as_str()),
                size: file.size,
            };
            names.push(file.name.clone());
            found.push(entry);
            assert(found@.map_values(|entry: MediaEntry| entry@) =~= shown.push(
                image_entry(file@),
            ));
        }
        i += 1;
    }
    assert(listed.take(files@.len() as int) =~= listed);
    let ghost shown = found@.map_values(|entry: MediaEntry| entry@);
    let ghost keys = shown.map_values(|entry: MediaEntryView| name_bytes(entry.name));
    assert(names_bytes(names@) =~= keys);
    let order = sort_order(&names);
    let ghost places = order@.map_values(|at: usize| at as int);
    let mut entries: Vec<MediaEntry> = Vec::new();
    let mut j: usize = 0;
    while j < order.len()
        invariant
            j <= order.len(),
            order@.len() == found@.len(),
            places == order@.map_values(|at: usize| at as int),
            shown == found@.map_values(|entry: MediaEntry| entry@),
            forall|a: int| 0 <= a < order@.len() ==> #[trigger] order@[a] < found@.len(),
            entries@.len() == j,
            forall|a: int|
                0 <= a < j ==> (#[trigger] entries@[a])@ == shown[places[a]],
        decreases order.len() - j,
    {
        let entry = &found[order[j]];
        entries.push(
            MediaEntry { name: entry.name.clone(), path: entry.path.clone(), size: entry.size },
        );
        j += 1;
    }
    assert(entries@.map_values(|entry: MediaEntry| entry@) =~= arranged(shown, places));
    entries
}

/// How many of `names` are names of video frames.
pub fn count_frames(names: &Vec<String>) -> (count: usize)
    ensures
        count == frames_counted(names@.map_values(|name: String| name@)),
{
    let ghost listed = names@.map_values(|name: String| name@);
    let mut count: usize = 0;
    let mut i: usize = 0;
    assert(listed.take(0) =~= Seq::empty());
    while i < names.len()
        invariant
            i <= names.len(),
            listed == names@.map_values(|name: String| name@),
            count == frames_counted(listed.take(i as int)),
            count <= i,
        decreases names.len() - i,
    {
        assert(listed.take(i + 1).drop_last() =~= listed.take(i as int));
        assert(listed.take(i + 1).last() == names@[i as int]@);
        if frame_name(&names[i]) {
            count += 1;
        }
        i += 1;
    }
    assert(listed.take(names@.len() as int) =~= listed);
    count
}

/// The videos of the `videos` directory, given what the directory holds
/// (`None` if it cannot be read): the directories with at least one PNG or
/// JPEG file in them, ordered by name, each with the number of its frames.
pub fn list_videos(listing: Option<Vec<ListedDir>>) -> (entries: Vec<VideoEntry>)
    ensures
        entries@.map_values(|entry: VideoEntry| entry@) == videos_listed(listed_dirs(listing)),
{
    let dirs = match listing {
        Some(dirs) => dirs,
        None => {
            let none: Vec<VideoEntry> = Vec::new();
            assert(none@.map_values(|entry: VideoEntry| entry@) =~= Seq::empty());
            return none;
        },
    };
    let ghost listed = dirs@.map_values(|dir: ListedDir| dir@);
    let mut found: Vec<VideoEntry> = Vec::new();
    let mut names: Vec<String> = Vec::new();
    let mut i: usize = 0;
    assert(listed.take(0) =~= Seq::empty());
    assert(found@.map_values(|entry: VideoEntry| entry@) =~= Seq::empty());
    while i < dirs.len()
        invariant
            i <= dirs.len(),
            listed == dirs@.map_values(|dir: ListedDir| dir@),
            found@.map_values(|entry: VideoEntry| entry@) == videos_found(listed.take(i as int)),
            names@.len() == found@.len(),
            forall|k: int| 0 <= k < names@.len() ==> (#[trigger] names@[k])@ == found@[k].name@,
        decreases dirs.len() - i,
    {
        let dir = &dirs[i];
        let ghost shown = found@.map_values(|entry: VideoEntry| entry@);
        assert(listed.take(i + 1).drop_last() =~= listed.take(i as int));
        assert(listed.take(i + 1).last() == dir@);
        if dir.is_dir {
            let frame_count = count_frames(&dir.files);
            if frame_count > 0 {
                let entry = VideoEntry {
                    name: dir.name.clone(),
                    path: String::from_str("videos/").concat(dir.name.as_str()),
                    frame_count,
                };
                names.push(dir.name.clone());
                found.push(entry);
                assert(found@.map_values(|entry: VideoEntry| entry@) =~= shown.push(
                    video_entry(dir@),
                ));
            }
        }
        i += 1;
    }
    assert(listed.take(dirs@.len() as int) =~= listed);
    let ghost shown = found@.map_values(|entry: VideoEntry| entry@);
    let ghost keys = shown.map_values(|entry: VideoEntryView| name_bytes(entry.name));
    assert(names_bytes(names@) =~= keys);
    let order = sort_order(&names);
    let ghost places = order@.map_values(|at: usize| at as int);
    let mut entries: Vec<VideoEntry> = Vec::new();
    let mut j: usize = 0;
    while j < order.len()
        invariant
            j <= order.len(),
            order@.len() == found@.len(),
            places == order@.map_values(|at: usize| at as int),
            shown == found@.map_values(|entry: VideoEntry| entry@),
            forall|a: int| 0 <= a < order@.len() ==> #[trigger] order@[a] < found@.len(),
            entries@.len() == j,
            forall|a: int|
                0 <= a < j ==> (#[trigger] entries@[a])@ == shown[places[a]],
        decreases order.len() - j,
    {
        let entry = &found[order[j]];
        entries.push(
            VideoEntry {
                name: entry.name.clone(),
                path: entry.path.clone(),
                frame_count: entry.frame_count,
            },
        );
        j += 1;
    }
    assert(entries@.map_values(|entry: VideoEntry| entry@) =~= arranged(shown, places));
    entries
}

/// The names in the order of their bytes, equal names as they stand.
pub fn sort_names(names: Vec<String>) -> (sorted: Vec<String>)
    ensures
        names_bytes(sorted@) == sorted_by(names_bytes(names@), names_bytes(names@)),
        sorted@.map_values(|name: String| name@) == sorted_by(
            names@.map_values(|name: String| name@),
            names_bytes(names@),
        ),
{
    let order = sort_order(&names);
    let ghost places = order@.map_values(|at: usize| at as int);
    let mut sorted: Vec<String> = Vec::new();
    let mut j: usize = 0;
    while j < order.len()
        invariant
            j <= order.len(),
            order@.len() == names@.len(),
            places == order@.map_values(|at: usize| at as int),
            forall|a: int| 0 <= a < order@.len() ==> #[trigger] order@[a] < names@.len(),
            sorted@.len() == j,
            forall|a: int| 0 <= a < j ==> (#[trigger] sorted@[a])@ == names@[places[a]]@,
        decreases order.len() - j,
    {
        sorted.push(names[order[j]].clone());
        j += 1;
    }
    assert(names_bytes(sorted@) =~= arranged(names_bytes(names@), places));
    assert(sorted@.map_values(|name: String| name@) =~= arranged(
        names@.map_values(|name: String| name@),
        places,
    ));
    sorted
}

/// The fonts of the fonts directory, given what the directory holds (`None`
/// if it cannot be read): the names of the BDF files without their
/// extension, in order.
pub fn list_fonts(listing: Option<Vec<ListedFile>>) -> (fonts: Vec<String>)
    ensures
        names_bytes(fonts@) == fonts_listed(listed_files(listing)),
{
    let files = match listing {
        Some(files) => files,
        None => {
            let none: Vec<String> = Vec::new();
            assert(names_bytes(none@) =~= Seq::empty());
            return none;
        },
    };
    let ghost listed = files@.map_values(|file: ListedFile| file@);
    let mut found: Vec<String> = Vec::new();
    let mut i: usize = 0;
    assert(listed.take(0) =~= Seq::empty());
    assert(names_bytes(found@) =~= Seq::empty());
    while i < files.len()
        invariant
            i <= files.len(),
            listed == files@.map_values(|file: ListedFile| file@),
            names_bytes(found@) == fonts_found(listed.take(i as int)),
        decreases files.len() - i,
    {
        let file = &files[i];
        let ghost shown = names_bytes(found@);
        assert(listed.take(i + 1).drop_last() =~= listed.take(i as int));
        assert(listed.take(i + 1).last() == file@);
        if file.is_file {
            match font_name(&file.name) {
                Some(font) => {
                    found.push(font);
                    assert(names_bytes(found@) =~= shown.push(
                        stem(name_bytes(file.name@), bdf()),
                    ));
                },
                None => {},
            }
        }
        i += 1;
    }
    assert(listed.take(files@.len() as int) =~= listed);
    sort_names(found)
}

} // verus!
