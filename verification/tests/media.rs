use led_matrix_rs::media::names::{bytes_before_or_equal, name_before_or_equal, sort_order};
use led_matrix_rs::media::{
    count_frames, ends_with_extension, font_name, frame_name, image_name, list_fonts,
    list_images, list_videos, sort_names, ListedDir, ListedFile, MediaEntry, VideoEntry,
};
use led_matrix_rs::render::{load_frame_paths, FramePathsError};

fn file(name: &str) -> ListedFile {
    ListedFile { name: name.to_string(), is_file: true, size: 4 }
}

fn dir(name: &str, files: &[&str]) -> ListedDir {
    ListedDir {
        name: name.to_string(),
        is_dir: true,
        files: files.iter().map(|f| f.to_string()).collect(),
    }
}

fn strings(names: &[&str]) -> Vec<String> {
    names.iter().map(|n| n.to_string()).collect()
}

#[test]
fn list_images_finds_supported_formats() {
    let listing = vec![
        file("photo.png"),
        file("pic.jpg"),
        file("shot.jpeg"),
        file("anim.gif"),
        file("raw.bmp"),
        file("readme.txt"), // should be excluded
    ];

    let entries = list_images(Some(listing));
    let names: Vec<&str> = entries.iter().map(|e| e.name.as_str()).collect();

    assert_eq!(entries.len(), 5);
    assert!(names.contains(&"photo.png"));
    assert!(names.contains(&"pic.jpg"));
    assert!(names.contains(&"shot.jpeg"));
    assert!(names.contains(&"anim.gif"));
    assert!(names.contains(&"raw.bmp"));
}

#[test]
fn list_images_returns_empty_when_no_dir() {
    let entries = list_images(None);
    assert!(entries.is_empty());
}

#[test]
fn list_images_sorted_alphabetically() {
    let listing = vec![file("zebra.png"), file("apple.png"), file("mango.jpg")];

    let entries = list_images(Some(listing));
    let names: Vec<&str> = entries.iter().map(|e| e.name.as_str()).collect();
    assert_eq!(names, vec!["apple.png", "mango.jpg", "zebra.png"]);
}

#[test]
fn list_images_builds_entries() {
    let listing = vec![
        ListedFile { name: "b.png".to_string(), is_file: true, size: 20 },
        ListedFile { name: "a.jpg".to_string(), is_file: true, size: 10 },
    ];
    let entries = list_images(Some(listing));
    assert_eq!(
        entries,
        vec![
            MediaEntry { name: "a.jpg".to_string(), path: "images/a.jpg".to_string(), size: 10 },
            MediaEntry { name: "b.png".to_string(), path: "images/b.png".to_string(), size: 20 },
        ]
    );
}

#[test]
fn list_images_skips_what_is_no_file() {
    let listing = vec![
        ListedFile { name: "folder.png".to_string(), is_file: false, size: 0 },
        file("real.png"),
    ];
    let entries = list_images(Some(listing));
    assert_eq!(entries.len(), 1);
    assert_eq!(entries[0].name, "real.png");
}

#[test]
fn list_images_keeps_equal_names_in_listing_order() {
    let listing = vec![
        ListedFile { name: "same.png".to_string(), is_file: true, size: 1 },
        ListedFile { name: "a.png".to_string(), is_file: true, size: 2 },
        ListedFile { name: "same.png".to_string(), is_file: true, size: 3 },
    ];
    let entries = list_images(Some(listing));
    let sizes: Vec<u64> = entries.iter().map(|e| e.size).collect();
    assert_eq!(sizes, vec![2, 1, 3]);
}

#[test]
fn list_images_of_an_empty_directory() {
    assert!(list_images(Some(Vec::new())).is_empty());
}

#[test]
fn list_videos_finds_directories_with_frames() {
    let listing = vec![dir("flame", &["frame_0001.jpg", "frame_0002.jpg", "frame_0003.png"])];

    let entries = list_videos(Some(listing));
    assert_eq!(entries.len(), 1);
    assert_eq!(entries[0].name, "flame");
    assert_eq!(entries[0].frame_count, 3);
    assert_eq!(entries[0].path, "videos/flame");
}

#[test]
fn list_videos_skips_empty_dirs() {
    let listing = vec![dir("empty", &[])];

    let entries = list_videos(Some(listing));
    assert!(entries.is_empty());
}

#[test]
fn list_videos_returns_empty_when_no_dir() {
    assert!(list_videos(None).is_empty());
}

#[test]
fn list_videos_sorts_and_counts_frames_only() {
    let listing = vec![
        dir("zoo", &["a.png", "notes.txt", "b.gif", "c.jpeg"]),
        ListedDir { name: "file.png".to_string(), is_dir: false, files: strings(&["x.png"]) },
        dir("docs", &["readme.md"]),
        dir("ants", &["1.jpg"]),
    ];
    let entries = list_videos(Some(listing));
    assert_eq!(
        entries,
        vec![
            VideoEntry {
                name: "ants".to_string(),
                path: "videos/ants".to_string(),
                frame_count: 1
            },
            VideoEntry { name: "zoo".to_string(), path: "videos/zoo".to_string(), frame_count: 2 },
        ]
    );
}

#[test]
fn list_fonts_finds_bdf_files() {
    let listing = vec![
        file("6x13.bdf"),
        file("9x18.bdf"),
        file("readme.txt"), // should be excluded
    ];

    let fonts = list_fonts(Some(listing));
    assert_eq!(fonts, vec!["6x13", "9x18"]);
}

#[test]
fn list_fonts_returns_empty_when_no_dir() {
    let fonts = list_fonts(None);
    assert!(fonts.is_empty());
}

#[test]
fn list_fonts_sorts_names() {
    let listing = vec![
        file("9x18.bdf"),
        file("10x20.bdf"),
        ListedFile { name: "dir.bdf".to_string(), is_file: false, size: 0 },
        file("6x13B.bdf"),
        file("6x13.bdf"),
    ];
    let fonts = list_fonts(Some(listing));
    assert_eq!(fonts, vec!["10x20", "6x13", "6x13B", "9x18"]);
}

#[test]
fn extensions_are_what_follows_the_last_dot() {
    assert!(ends_with_extension(b"a.png", b"png"));
    assert!(ends_with_extension(b"archive.tar.png", b"png"));
    assert!(ends_with_extension(b"..png", b"png"));
    // A name that is all extension has none.
    assert!(!ends_with_extension(b".png", b"png"));
    assert!(!ends_with_extension(b"png", b"png"));
    assert!(!ends_with_extension(b"apng", b"png"));
    assert!(!ends_with_extension(b"a.png.txt", b"png"));
    assert!(!ends_with_extension(b"a.jpeg", b"jpg"));
    assert!(!ends_with_extension(b"", b"png"));
    assert!(!ends_with_extension(b"a.pn", b"png"));
}

#[test]
fn extensions_are_case_sensitive() {
    assert!(image_name(&"a.png".to_string()));
    assert!(!image_name(&"a.PNG".to_string()));
    assert!(!image_name(&"a.Jpg".to_string()));
    assert!(image_name(&"a.gif".to_string()));
    assert!(image_name(&"a.bmp".to_string()));
    assert!(!frame_name(&"a.gif".to_string()));
    assert!(!frame_name(&"a.bmp".to_string()));
    assert!(frame_name(&"a.jpeg".to_string()));
    assert!(frame_name(&"a.jpg".to_string()));
    assert!(frame_name(&"a.png".to_string()));
}

#[test]
fn font_names_lose_their_extension() {
    assert_eq!(font_name(&"6x13.bdf".to_string()), Some("6x13".to_string()));
    assert_eq!(font_name(&"a.b.bdf".to_string()), Some("a.b".to_string()));
    assert_eq!(font_name(&"schrift-ü.bdf".to_string()), Some("schrift-ü".to_string()));
    assert_eq!(font_name(&".bdf".to_string()), None);
    assert_eq!(font_name(&"6x13.txt".to_string()), None);
    assert_eq!(font_name(&"bdf".to_string()), None);
}

#[test]
fn names_are_ordered_by_their_bytes() {
    assert!(bytes_before_or_equal(b"", b""));
    assert!(bytes_before_or_equal(b"", b"a"));
    assert!(!bytes_before_or_equal(b"a", b""));
    assert!(bytes_before_or_equal(b"a", b"a"));
    assert!(bytes_before_or_equal(b"a", b"ab"));
    assert!(!bytes_before_or_equal(b"ab", b"a"));
    assert!(bytes_before_or_equal(b"ab", b"b"));
    assert!(bytes_before_or_equal(b"Z", b"a"));
    assert!(!bytes_before_or_equal(b"a", b"Z"));
    assert!(name_before_or_equal(&"frame_0009.png".to_string(), &"frame_0010.png".to_string()));
    // Digits compare as bytes, not as numbers.
    assert!(name_before_or_equal(&"frame_10.png".to_string(), &"frame_9.png".to_string()));
    assert!(!name_before_or_equal(&"frame_9.png".to_string(), &"frame_10.png".to_string()));
    assert!(name_before_or_equal(&"z".to_string(), &"é".to_string()));
}

#[test]
fn name_order_agrees_with_string_order() {
    let names = strings(&["", "a", "A", "ab", "b", "é", "z", "a.png", "a-b", "a/b", "10", "9"]);
    for a in &names {
        for b in &names {
            assert_eq!(name_before_or_equal(a, b), a <= b, "{:?} {:?}", a, b);
        }
    }
}

#[test]
fn sort_order_is_stable() {
    let names = strings(&["b", "a", "b", "a", "c"]);
    assert_eq!(sort_order(&names), vec![1, 3, 0, 2, 4]);
    assert_eq!(sort_order(&Vec::new()), Vec::<usize>::new());
}

#[test]
fn sort_names_agrees_with_the_standard_sort() {
    let names = strings(&["pear", "apple", "fig", "Apple", "apple2", "", "zebra", "fig"]);
    let mut expected = names.clone();
    expected.sort();
    assert_eq!(sort_names(names), expected);
}

#[test]
fn count_frames_counts_png_and_jpeg() {
    assert_eq!(count_frames(&strings(&["a.png", "b.jpg", "c.jpeg", "d.gif", "e"])), 3);
    assert_eq!(count_frames(&Vec::new()), 0);
}

#[test]
fn load_frame_paths_sorts_frames() {
    let listing = strings(&["frame_0003.png", "notes.txt", "frame_0001.jpg", "frame_0002.jpeg"]);
    assert_eq!(
        load_frame_paths(Some(listing)),
        Ok(strings(&["frame_0001.jpg", "frame_0002.jpeg", "frame_0003.png"]))
    );
}

#[test]
fn load_frame_paths_needs_a_directory() {
    assert_eq!(load_frame_paths(None), Err(FramePathsError::Unreadable));
}

#[test]
fn load_frame_paths_needs_frames() {
    assert_eq!(load_frame_paths(Some(Vec::new())), Err(FramePathsError::NoImageFiles));
    assert_eq!(
        load_frame_paths(Some(strings(&["a.gif", "b.bmp", "c.txt", ".png"]))),
        Err(FramePathsError::NoImageFiles)
    );
}

#[test]
fn frame_path_errors_have_messages() {
    assert_eq!(FramePathsError::NoImageFiles.message(), "No image files found");
    assert_eq!(FramePathsError::Unreadable.message(), "Directory cannot be read");
}
