//! Videos as directories of frame files: which files of a directory are
//! frames, and in what order they play.

use crate::media::names::{name_bytes, names_bytes};
use crate::media::{frame_name, is_frame_name, sort_names, sorted_by};
use vstd::prelude::*;

verus! {

/// Why a directory yields no frames to play.
#[derive(Clone, Copy, Debug, PartialEq, Eq, Structural)]
pub enum FramePathsError {
    /// The directory could not be read.
    Unreadable,
    /// The directory holds no PNG or JPEG file.
    NoImageFiles,
}

impl FramePathsError {
    /// The error in words.
    pub fn message(&self) -> (text: String)
        ensures
            text@ == match *self {
                FramePathsError::Unreadable => "Directory cannot be read"@,
                FramePathsError::NoImageFiles => "No image files found"@,
            },
    {
        match self {
            FramePathsError::Unreadable => String::from_str("Directory cannot be read"),
            FramePathsError::NoImageFiles => String::from_str("No image files found"),
        }
    }
}

/// The names of frame files among `names`, as they stand.
pub open spec fn frame_files_found(names: Seq<Seq<char>>) -> Seq<Seq<char>>
    decreases names.len(),
{
    if names.len() == 0 {
        Seq::empty()
    } else {
        let before = frame_files_found(names.drop_last());
        if is_frame_name(name_bytes(names.last())) {
            before.push(names.last())
        } else {
            before
        }
    }
}

/// The frames of a directory in playing order: its PNG and JPEG files,
/// ordered by name.
pub open spec fn frame_files_in_order(names: Seq<Seq<char>>) -> Seq<Seq<char>> {
    let found = frame_files_found(names);
    sorted_by(found, found.map_values(|name: Seq<char>| name_bytes(name)))
}

/// The frame files of a video directory, in playing order, given the names
/// of what the directory holds (`None` if it cannot be read).
///
/// Frames are the files named `*.jpg`, `*.jpeg` or `*.png`; they play in the
/// lexicographic order of their names. A directory without any is an error.
pub fn load_frame_paths(listing: Option<Vec<String>>) -> (frames: Result<
    Vec<String>,
    FramePathsError,
>)
    ensures
        listing is None <==> frames == Err::<Vec<String>, _>(FramePathsError::Unreadable),
        listing matches Some(names) ==> {
            let found = frame_files_found(names@.map_values(|name: String| name@));
            &&& found.len() == 0 <==> frames == Err::<Vec<String>, _>(
                FramePathsError::NoImageFiles,
            )
            &&& frames matches Ok(sorted) ==> sorted@.map_values(|name: String| name@)
                == frame_files_in_order(names@.map_values(|name: String| name@))
        },
        frames matches Ok(sorted) ==> sorted@.len() > 0,
{
    let names = match listing {
        Some(names) => names,
        None => {
            return Err(FramePathsError::Unreadable);
        },
    };
    let ghost listed = names@.map_values(|name: String| name@);
    let mut found: Vec<String> = Vec::new();
    let mut i: usize = 0;
    assert(listed.take(0) =~= Seq::empty());
    assert(found@.map_values(|name: String| name@) =~= Seq::empty());
    while i < names.len()
        invariant
            i <= names.len(),
            listed == names@.map_values(|name: String| name@),
            found@.map_values(|name: String| name@) == frame_files_found(listed.take(i as int)),
        decreases names.len() - i,
    {
        let ghost shown = found@.map_values(|name: String| name@);
        assert(listed.take(i + 1).drop_last() =~= listed.take(i as int));
        assert(listed.take(i + 1).last() == names@[i as int]@);
        if frame_name(&names[i]) {
            found.push(names[i].clone());
            assert(found@.map_values(|name: String| name@) =~= shown.push(names@[i as int]@));
        }
        i += 1;
    }
    assert(listed.take(names@.len() as int) =~= listed);
    if found.len() == 0 {
        return Err(FramePathsError::NoImageFiles);
    }
    let ghost shown = found@.map_values(|name: String| name@);
    assert(names_bytes(found@) =~= shown.map_values(|name: Seq<char>| name_bytes(name)));
    let sorted = sort_names(found);
    Ok(sorted)
}

} // verus!
