use iced::window;
use openmixture::input_picker_state::{InputPickerState, any_slot_uses};
use openmixture::model::{
    ClipSlot, ClipSource, FileMediaKind, FileSource, InputTemplate, Rgb, Transition,
    classify_file_kind, default_scenes,
};

#[test]
fn transitions_have_labels() {
    let labels: Vec<&str> = Transition::ALL.iter().map(|t| t.label()).collect();
    assert_eq!(labels, vec!["Cut", "Fade", "Wipe", "Zoom"]);
}

#[test]
fn templates_describe_themselves() {
    assert_eq!(InputTemplate::Video.title(), "Video");
    assert_eq!(InputTemplate::ScreenBar.title(), "Screen Bar");
    assert_eq!(InputTemplate::Photo.prompt(), "Select an image file to add as input.");
    assert_eq!(InputTemplate::Black.description(), "Solid black frame");
    assert_eq!(InputTemplate::Black.icon(), "square");
    assert!(InputTemplate::Video.is_media());
    assert!(InputTemplate::Photo.is_media());
    assert!(!InputTemplate::Black.is_media());
    assert!(!InputTemplate::ScreenBar.is_media());
    assert!(InputTemplate::Video.accepts_kind(FileMediaKind::Video));
    assert!(!InputTemplate::Video.accepts_kind(FileMediaKind::Image));
    assert!(InputTemplate::Photo.accepts_kind(FileMediaKind::Image));
    assert!(InputTemplate::Black.accepts_kind(FileMediaKind::Video));
}

#[test]
fn file_kinds_come_from_extensions() {
    assert_eq!(classify_file_kind("/m/a.MP4"), Some(FileMediaKind::Video));
    assert_eq!(classify_file_kind("/m/a.webm"), Some(FileMediaKind::Video));
    assert_eq!(classify_file_kind("/m/a.JpEg"), Some(FileMediaKind::Image));
    assert_eq!(classify_file_kind("/m/a.svg"), Some(FileMediaKind::Image));
    assert_eq!(classify_file_kind("/m/a.txt"), None);
    assert_eq!(classify_file_kind("/m/.png"), None);
    assert_eq!(classify_file_kind("/m/noext"), None);
}

#[test]
fn kinds_have_icons_labels_and_accents() {
    assert_eq!(FileMediaKind::Video.icon(), "film");
    assert_eq!(FileMediaKind::Image.label(), "IMAGE");
    assert_eq!(FileMediaKind::Video.accent(), Rgb { r: 45, g: 141, b: 203 });
}

#[test]
fn file_sources_are_named_by_their_file() {
    let f = FileSource::from_path("/media/show/intro.mov".to_string()).unwrap();
    assert_eq!(f.name, "intro.mov");
    assert_eq!(f.path, "/media/show/intro.mov");
    assert_eq!(f.kind, FileMediaKind::Video);
    assert!(FileSource::from_path("/media/notes.txt".to_string()).is_none());
}

#[test]
fn clip_sources_describe_themselves() {
    let black = ClipSource::black();
    assert!(black.is_black());
    assert_eq!(black.kind_label(), "BLACK");
    assert_eq!(black.tile_name(3), "Clip 3");
    assert_eq!(black.accent(), Rgb { r: 62, g: 74, b: 89 });
    assert_eq!(ClipSource::ScreenBar.tile_name(12), "ScreenBar 12");
    assert_eq!(ClipSource::ScreenBar.icon(), "bars");
    let ndi = ClipSource::Ndi { source_name: "CAM 2".to_string() };
    assert_eq!(ndi.tile_name(1), "CAM 2");
    assert_eq!(ndi.kind_label(), "NDI");
    assert_eq!(ndi.icon(), "tower-broadcast");
    let img = ClipSource::from_path("/p/logo.png".to_string()).unwrap();
    assert_eq!(img.kind_label(), "IMAGE");
    assert_eq!(img.tile_name(9), "logo.png");
    assert!(img.uses_path("/p/logo.png"));
    assert!(!img.uses_path("/p/logo.PNG"));
    assert!(!black.uses_path("/p/logo.png"));
    assert!(ClipSource::from_path("/p/readme".to_string()).is_none());
}

#[test]
fn slots_start_black() {
    assert!(ClipSlot::black().is_black());
    assert!(!ClipSlot::with_source(ClipSource::ScreenBar).is_black());
}

#[test]
fn built_in_scenes() {
    let names: Vec<String> = default_scenes().into_iter().map(|s| s.name).collect();
    assert_eq!(
        names,
        vec![
            "Opening Wide",
            "Host Close",
            "Guest Split",
            "Lower Third",
            "Demo Feed",
            "Fullscreen Slide"
        ]
    );
}

#[test]
fn picker_starts_on_video_without_media() {
    let p = InputPickerState::default();
    assert_eq!(p.selection(), InputTemplate::Video);
    assert_eq!(p.media_path(), None);
    assert!(!p.can_confirm());
    assert!(!p.is_window(window::Id::unique()));
}

#[test]
fn picker_opens_once() {
    let mut p = InputPickerState::default();
    p.select_template(InputTemplate::Black);
    assert!(p.open());
    assert_eq!(p.selection(), InputTemplate::Video);
    let id = window::Id::unique();
    p.mark_opened(id);
    assert!(p.is_window(id));
    assert!(!p.open());
    assert_eq!(p.close(), Some(id));
    assert!(!p.is_window(id));
    assert_eq!(p.close(), None);
}

#[test]
fn picker_forgets_a_closed_window() {
    let mut p = InputPickerState::default();
    let id = window::Id::unique();
    p.mark_opened(id);
    p.clear_window_if_closed(window::Id::unique());
    assert!(p.is_window(id));
    p.clear_window_if_closed(id);
    assert!(!p.is_window(id));
}

#[test]
fn picker_browses_only_for_media() {
    let mut p = InputPickerState::default();
    assert_eq!(p.browse_media(), Some(InputTemplate::Video));
    p.select_template(InputTemplate::Photo);
    assert_eq!(p.browse_media(), Some(InputTemplate::Photo));
    p.select_template(InputTemplate::ScreenBar);
    assert_eq!(p.browse_media(), None);
}

#[test]
fn picked_media_must_fit_the_template() {
    let mut p = InputPickerState::default();
    p.on_media_picked(Some("/m/photo.jpg".to_string()));
    assert_eq!(p.media_path(), None);
    p.on_media_picked(Some("/m/movie.mkv".to_string()));
    assert_eq!(p.media_path(), Some("/m/movie.mkv"));
    assert!(p.can_confirm());
    p.on_media_picked(None);
    assert_eq!(p.media_path(), None);
    p.on_media_picked(Some("/m/doc.pdf".to_string()));
    assert_eq!(p.media_path(), None);
}

#[test]
fn choosing_a_plain_template_drops_the_media() {
    let mut p = InputPickerState::default();
    p.on_media_picked(Some("/m/movie.mkv".to_string()));
    p.select_template(InputTemplate::Photo);
    assert_eq!(p.media_path(), Some("/m/movie.mkv"));
    p.select_template(InputTemplate::Black);
    assert_eq!(p.media_path(), None);
    assert!(p.can_confirm());
}

#[test]
fn dropped_media_switches_the_template() {
    let mut p = InputPickerState::default();
    p.set_media_from_drop("/m/still.PNG".to_string());
    assert_eq!(p.selection(), InputTemplate::Photo);
    assert_eq!(p.media_path(), Some("/m/still.PNG"));
    assert!(p.can_confirm());
    p.set_media_from_drop("/m/clip.mov".to_string());
    assert_eq!(p.selection(), InputTemplate::Video);
    p.set_media_from_drop("/m/notes.txt".to_string());
    assert_eq!(p.media_path(), Some("/m/clip.mov"));
}

#[test]
fn picker_builds_sources() {
    let slots = vec![ClipSlot::black(); 3];
    let mut p = InputPickerState::default();
    assert_eq!(p.build_source(&slots), None);
    p.on_media_picked(Some("/m/a.mp4".to_string()));
    assert_eq!(
        p.build_source(&slots),
        ClipSource::from_path("/m/a.mp4".to_string())
    );
    let used = vec![ClipSlot::with_source(
        ClipSource::from_path("/m/a.mp4".to_string()).unwrap(),
    )];
    assert!(any_slot_uses(&used, "/m/a.mp4"));
    assert!(!any_slot_uses(&slots, "/m/a.mp4"));
    assert_eq!(p.build_source(&used), None);
    p.select_template(InputTemplate::ScreenBar);
    assert_eq!(p.build_source(&used), Some(ClipSource::ScreenBar));
    p.select_template(InputTemplate::Black);
    assert_eq!(p.build_source(&used), Some(ClipSource::Black));
}

#[test]
fn picker_refuses_a_file_named_another_way() {
    let used = vec![ClipSlot::with_source(
        ClipSource::from_path("/m/a.mp4".to_string()).unwrap(),
    )];
    let mut p = InputPickerState::default();
    p.on_media_picked(Some("/m//a.mp4".to_string()));
    assert!(any_slot_uses(&used, "/m/./a.mp4"));
    assert_eq!(p.build_source(&used), None);
}
