use openmixture::components::{
    bus_flag, clip_status_text, duration_label, format_clock,
};
use openmixture::paths::{extension, file_name, insert_path, path_component_list, path_less, same_path};
use openmixture::platform_file_dialog::{
    linux_dialog_texts, mac_media_filter, picked_path, trim, windows_media_filter,
};
use openmixture::model::InputTemplate;
use openmixture::text::{compact_name, push_decimal, same_text, to_ascii_lowercase};

#[test]
fn compact_name_keeps_short_names() {
    assert_eq!(compact_name("Clip 1", 16), "Clip 1");
    assert_eq!(compact_name("exactly-16-chars", 16), "exactly-16-chars");
    assert_eq!(compact_name("", 4), "");
}

#[test]
fn compact_name_cuts_long_names_with_an_ellipsis() {
    assert_eq!(compact_name("a-very-long-file-name.mp4", 12), "a-very-long\u{2026}");
    assert_eq!(compact_name("abcdef", 1), "\u{2026}");
    assert_eq!(compact_name("abcdef", 0), "\u{2026}");
    assert_eq!(compact_name("é-ü-ö-ä-ß", 4), "é-ü\u{2026}");
}

#[test]
fn compact_name_never_exceeds_its_width() {
    for max in 1..20usize {
        let out = compact_name("the quick brown fox jumps", max);
        assert!(out.chars().count() <= max);
    }
}

#[test]
fn push_decimal_appends_digits() {
    let mut s = String::from("n=");
    push_decimal(&mut s, 0);
    assert_eq!(s, "n=0");
    push_decimal(&mut s, 1234567);
    assert_eq!(s, "n=01234567");
}

#[test]
fn same_text_compares_characters() {
    assert!(same_text("abc", "abc"));
    assert!(!same_text("abc", "abd"));
    assert!(!same_text("abc", "ab"));
}

#[test]
fn ascii_lowercase_leaves_other_characters() {
    let chars: Vec<char> = "MP4-Ünï".chars().collect();
    let lower: String = to_ascii_lowercase(&chars).into_iter().collect();
    assert_eq!(lower, "mp4-Ünï");
}

#[test]
fn file_name_reads_the_last_component() {
    assert_eq!(file_name("/home/me/clip.mp4").as_deref(), Some("clip.mp4"));
    assert_eq!(file_name("clip.mp4").as_deref(), Some("clip.mp4"));
    assert_eq!(file_name("/home/me/").as_deref(), Some("me"));
    assert_eq!(file_name("a/b/.").as_deref(), Some("b"));
    assert_eq!(file_name("a//b//").as_deref(), Some("b"));
    assert_eq!(file_name("/"), None);
    assert_eq!(file_name(""), None);
    assert_eq!(file_name("a/.."), None);
    assert_eq!(file_name(".."), None);
}

#[test]
fn extension_follows_the_last_dot() {
    assert_eq!(extension("/x/clip.MP4").as_deref(), Some("MP4"));
    assert_eq!(extension("archive.tar.gz").as_deref(), Some("gz"));
    assert_eq!(extension("name.").as_deref(), Some(""));
    assert_eq!(extension(".bashrc"), None);
    assert_eq!(extension("/x/README"), None);
    assert_eq!(extension("/x/dir.d/"), Some("d".to_string()));
}

#[test]
fn trim_removes_surrounding_white_space() {
    assert_eq!(trim("  /tmp/a b.png \n"), "/tmp/a b.png");
    assert_eq!(trim("\t\u{3000}x\u{a0}"), "x");
    assert_eq!(trim(" \n "), "");
    assert_eq!(trim(""), "");
}

#[test]
fn picked_path_reads_dialog_output() {
    assert_eq!(
        picked_path(true, b"/home/me/clip.mov\n".to_vec()).as_deref(),
        Some("/home/me/clip.mov")
    );
    assert_eq!(picked_path(false, b"/home/me/clip.mov\n".to_vec()), None);
    assert_eq!(picked_path(true, b"  \n".to_vec()), None);
    assert_eq!(picked_path(true, vec![0x2f, 0xff, 0xfe]), None);
    assert_eq!(
        picked_path(true, "  /tmp/été.png\r\n".as_bytes().to_vec()).as_deref(),
        Some("/tmp/été.png")
    );
}

#[test]
fn dialog_filters_follow_the_template() {
    assert_eq!(mac_media_filter(InputTemplate::Video), Some("{\"public.movie\"}"));
    assert_eq!(mac_media_filter(InputTemplate::Photo), Some("{\"public.image\"}"));
    assert_eq!(mac_media_filter(InputTemplate::Black), None);
    assert_eq!(
        windows_media_filter(InputTemplate::Video),
        Some("Video Files|*.mp4;*.mov;*.mkv;*.webm;*.avi;*.m4v|All Files|*.*")
    );
    assert_eq!(windows_media_filter(InputTemplate::ScreenBar), None);
    let (title, zenity, kdialog) = linux_dialog_texts(InputTemplate::Photo).unwrap();
    assert_eq!(title, "Select Image File");
    assert_eq!(zenity, "Image files | *.jpg *.jpeg *.png *.bmp *.webp *.gif");
    assert_eq!(kdialog, "*.jpg *.jpeg *.png *.bmp *.webp *.gif|Image files");
    assert_eq!(linux_dialog_texts(InputTemplate::Black), None);
}

#[test]
fn status_texts() {
    assert_eq!(clip_status_text(3, 8), "3/8 Clips");
    assert_eq!(clip_status_text(0, 12), "0/12 Clips");
    assert_eq!(bus_flag(true), "LIVE");
    assert_eq!(bus_flag(false), "READY");
    assert_eq!(duration_label(350), "350 ms");
    assert_eq!(duration_label(0), "0 ms");
}

#[test]
fn clock_shows_minutes_and_seconds() {
    assert_eq!(format_clock(0), "00:00");
    assert_eq!(format_clock(59), "00:59");
    assert_eq!(format_clock(61), "01:01");
    assert_eq!(format_clock(600), "10:00");
    assert_eq!(format_clock(6005), "100:05");
}

#[test]
fn paths_are_compared_component_by_component() {
    assert!(same_path("/m//a.png", "/m/a.png"));
    assert!(same_path("/m/./a.png", "/m/a.png"));
    assert!(same_path("/m/a.png/", "/m/a.png"));
    assert!(same_path("m/a.png", "m//a.png/."));
    assert!(!same_path("/m/a.png", "m/a.png"));
    assert!(!same_path("./a.png", "a.png"));
    assert!(same_path("./a.png", ".//a.png"));
    assert!(!same_path("/m/../a.png", "/a.png"));
    assert!(!same_path("/m/a.png", "/m/A.png"));
    assert_eq!(path_component_list("/m//x/./y/"), vec!["/", "m", "x", "y"]);
    assert_eq!(path_component_list("./a/.."), vec![".", "a", ".."]);
    assert_eq!(path_component_list(""), Vec::<String>::new());
    assert_eq!(path_component_list("/"), vec!["/"]);
    assert_eq!(path_component_list("a/./b"), vec!["a", "b"]);
}

#[test]
fn paths_sort_by_components() {
    assert!(path_less("/m/a/b.mp4", "/m/a b.mp4"));
    assert!(!path_less("/m/a b.mp4", "/m/a/b.mp4"));
    assert!(path_less("/z", "a"));
    assert!(path_less("./z", "a"));
    assert!(path_less("../z", "a"));
    assert!(path_less("/a", "/a/b"));
    assert!(!path_less("/a//", "/a"));
    assert!(!path_less("/a", "/a"));
    assert!(path_less("/B", "/a"));
    let mut v: Vec<String> = Vec::new();
    insert_path(&mut v, "/m/c".to_string());
    insert_path(&mut v, "/m/a".to_string());
    insert_path(&mut v, "/m//c/".to_string());
    insert_path(&mut v, "/m/b".to_string());
    assert_eq!(v, vec!["/m/a", "/m/b", "/m/c"]);
}
