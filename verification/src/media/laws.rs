//! What holds of every listing: it is ordered by name, it holds what was
//! found and nothing else, and what was found is what the extensions admit.

use crate::media::names::{
    bytes_le, in_order, is_arrangement, keeps_ties, name_bytes, sorted_order, stable_order_sorts,
};
use crate::media::{
    arranged, bdf, fonts_found, fonts_listed, frames_counted, image_entry, images_found,
    images_listed, is_font_name, is_frame_name, is_image_name, sorted_by, stem, video_entry,
    videos_found, videos_listed, ListedDirView, ListedFileView, MediaEntryView, VideoEntryView,
};
use vstd::prelude::*;

verus! {

/// Items sorted by their keys are the same items, each once, in an order in
/// which the keys never go down and equal keys stay as they stood.
pub proof fn sorting_arranges_in_order<T>(items: Seq<T>, keys: Seq<Seq<u8>>)
    requires
        items.len() == keys.len(),
    ensures
        sorted_by(items, keys) == arranged(items, sorted_order(keys)),
        sorted_by(items, keys).len() == items.len(),
        is_arrangement(sorted_order(keys), items.len()),
        in_order(keys, sorted_order(keys)),
        keeps_ties(keys, sorted_order(keys)),
        forall|a: int, b: int|
            0 <= a < b < items.len() ==> bytes_le(
                arranged(keys, sorted_order(keys))[a],
                arranged(keys, sorted_order(keys))[b],
            ),
{
    stable_order_sorts(keys, keys.len());
    let order = sorted_order(keys);
    assert forall|a: int, b: int| 0 <= a < b < items.len() implies bytes_le(
        arranged(keys, order)[a],
        arranged(keys, order)[b],
    ) by {
        assert(bytes_le(keys[order[a]], keys[order[b]]));
    }
}

/// Every image found is the entry of a listed file with an image's name.
pub proof fn images_found_are_images(files: Seq<ListedFileView>, at: int)
    requires
        0 <= at < images_found(files).len(),
    ensures
        is_image_name(name_bytes(images_found(files)[at].name)),
        exists|i: int|
            0 <= i < files.len() && files[i].is_file && images_found(files)[at] == image_entry(
                #[trigger] files[i],
            ),
    decreases files.len(),
{
    let file = files.last();
    let before = images_found(files.drop_last());
    if at < before.len() {
        images_found_are_images(files.drop_last(), at);
        let i = choose|i: int|
            0 <= i < files.drop_last().len() && files.drop_last()[i].is_file && before[at]
                == image_entry(#[trigger] files.drop_last()[i]);
        assert(files[i] == files.drop_last()[i]);
    } else {
        assert(images_found(files)[at] == image_entry(files[files.len() - 1]));
    }
}

/// Every listed file with an image's name is among the images found.
pub proof fn image_files_are_found(files: Seq<ListedFileView>, i: int)
    requires
        0 <= i < files.len(),
        files[i].is_file,
        is_image_name(name_bytes(files[i].name)),
    ensures
        images_found(files).contains(image_entry(files[i])),
    decreases files.len(),
{
    let before = images_found(files.drop_last());
    if i < files.len() - 1 {
        image_files_are_found(files.drop_last(), i);
        let at = choose|at: int| 0 <= at < before.len() && before[at] == image_entry(files[i]);
        assert(images_found(files)[at] == image_entry(files[i]));
    } else {
        assert(images_found(files)[before.len() as int] == image_entry(files[i]));
    }
}

/// The images offered stand in the order of their names, and they are the
/// images found, each once.
pub proof fn images_are_listed_in_order(files: Seq<ListedFileView>)
    ensures
        images_listed(Some(files)).len() == images_found(files).len(),
        forall|a: int, b: int|
            0 <= a < b < images_listed(Some(files)).len() ==> bytes_le(
                name_bytes(#[trigger] images_listed(Some(files))[a].name),
                name_bytes(#[trigger] images_listed(Some(files))[b].name),
            ),
        forall|a: int|
            0 <= a < images_listed(Some(files)).len() ==> is_image_name(
                name_bytes(#[trigger] images_listed(Some(files))[a].name),
            ),
        images_listed(None).len() == 0,
{
    let found = images_found(files);
    let keys = found.map_values(|entry: MediaEntryView| name_bytes(entry.name));
    let order = sorted_order(keys);
    let listed = images_listed(Some(files));
    sorting_arranges_in_order(found, keys);
    assert forall|a: int, b: int| 0 <= a < b < listed.len() implies bytes_le(
        name_bytes(#[trigger] listed[a].name),
        name_bytes(#[trigger] listed[b].name),
    ) by {
        assert(bytes_le(keys[order[a]], keys[order[b]]));
    }
    assert forall|a: int| 0 <= a < listed.len() implies is_image_name(
        name_bytes(#[trigger] listed[a].name),
    ) by {
        assert(0 <= order[a] < found.len());
        images_found_are_images(files, order[a]);
    }
}

/// Every video found is the entry of a listed directory that holds a frame.
pub proof fn videos_found_hold_frames(dirs: Seq<ListedDirView>, at: int)
    requires
        0 <= at < videos_found(dirs).len(),
    ensures
        exists|i: int|
            0 <= i < dirs.len() && dirs[i].is_dir && frames_counted(dirs[i].files) > 0
                && videos_found(dirs)[at] == video_entry(#[trigger] dirs[i]),
    decreases dirs.len(),
{
    let before = videos_found(dirs.drop_last());
    if at < before.len() {
        videos_found_hold_frames(dirs.drop_last(), at);
        let i = choose|i: int|
            0 <= i < dirs.drop_last().len() && dirs.drop_last()[i].is_dir && frames_counted(
                dirs.drop_last()[i].files,
            ) > 0 && before[at] == video_entry(#[trigger] dirs.drop_last()[i]);
        assert(dirs[i] == dirs.drop_last()[i]);
    } else {
        assert(videos_found(dirs)[at] == video_entry(dirs[dirs.len() - 1]));
    }
}

/// No more frames are counted than there are names, and none where no name
/// is a frame's.
pub proof fn frames_counted_is_bounded(names: Seq<Seq<char>>)
    ensures
        frames_counted(names) <= names.len(),
        frames_counted(names) > 0 <==> exists|i: int|
            0 <= i < names.len() && is_frame_name(name_bytes(#[trigger] names[i])),
    decreases names.len(),
{
    if names.len() > 0 {
        let shorter = names.drop_last();
        frames_counted_is_bounded(shorter);
        if frames_counted(names) > 0 {
            if is_frame_name(name_bytes(names.last())) {
                assert(is_frame_name(name_bytes(names[names.len() - 1])));
            } else {
                let i = choose|i: int|
                    0 <= i < shorter.len() && is_frame_name(name_bytes(#[trigger] shorter[i]));
                assert(names[i] == shorter[i]);
            }
        }
        if exists|i: int| 0 <= i < names.len() && is_frame_name(name_bytes(#[trigger] names[i])) {
            let i = choose|i: int|
                0 <= i < names.len() && is_frame_name(name_bytes(#[trigger] names[i]));
            if i < shorter.len() {
                assert(shorter[i] == names[i]);
            }
        }
    }
}

/// The videos offered stand in the order of their names, and they are the
/// videos found, each once.
pub proof fn videos_are_listed_in_order(dirs: Seq<ListedDirView>)
    ensures
        videos_listed(Some(dirs)).len() == videos_found(dirs).len(),
        forall|a: int, b: int|
            0 <= a < b < videos_listed(Some(dirs)).len() ==> bytes_le(
                name_bytes(#[trigger] videos_listed(Some(dirs))[a].name),
                name_bytes(#[trigger] videos_listed(Some(dirs))[b].name),
            ),
        videos_listed(None).len() == 0,
{
    let found = videos_found(dirs);
    let keys = found.map_values(|entry: VideoEntryView| name_bytes(entry.name));
    let order = sorted_order(keys);
    let listed = videos_listed(Some(dirs));
    sorting_arranges_in_order(found, keys);
    assert forall|a: int, b: int| 0 <= a < b < listed.len() implies bytes_le(
        name_bytes(#[trigger] listed[a].name),
        name_bytes(#[trigger] listed[b].name),
    ) by {
        assert(bytes_le(keys[order[a]], keys[order[b]]));
    }
}

/// Every font found is the name, without its extension, of a listed BDF
/// file.
pub proof fn fonts_found_are_fonts(files: Seq<ListedFileView>, at: int)
    requires
        0 <= at < fonts_found(files).len(),
    ensures
        exists|i: int|
            0 <= i < files.len() && files[i].is_file && is_font_name(
                name_bytes(#[trigger] files[i].name),
            ) && fonts_found(files)[at] == stem(name_bytes(files[i].name), bdf()),
    decreases files.len(),
{
    let before = fonts_found(files.drop_last());
    if at < before.len() {
        fonts_found_are_fonts(files.drop_last(), at);
        let i = choose|i: int|
            0 <= i < files.drop_last().len() && files.drop_last()[i].is_file && is_font_name(
                name_bytes(#[trigger] files.drop_last()[i].name),
            ) && before[at] == stem(name_bytes(files.drop_last()[i].name), bdf());
        assert(files[i] == files.drop_last()[i]);
    } else {
        assert(is_font_name(name_bytes(files[files.len() - 1].name)));
    }
}

/// The fonts offered stand in order, and they are the fonts found, each
/// once.
pub proof fn fonts_are_listed_in_order(files: Seq<ListedFileView>)
    ensures
        fonts_listed(Some(files)).len() == fonts_found(files).len(),
        forall|a: int, b: int|
            0 <= a < b < fonts_listed(Some(files)).len() ==> bytes_le(
                #[trigger] fonts_listed(Some(files))[a],
                #[trigger] fonts_listed(Some(files))[b],
            ),
        fonts_listed(None).len() == 0,
{
    let found = fonts_found(files);
    let order = sorted_order(found);
    let listed = fonts_listed(Some(files));
    sorting_arranges_in_order(found, found);
    assert forall|a: int, b: int| 0 <= a < b < listed.len() implies bytes_le(
        #[trigger] listed[a],
        #[trigger] listed[b],
    ) by {
        assert(bytes_le(found[order[a]], found[order[b]]));
    }
}

} // verus!
