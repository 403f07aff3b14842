use openmixture::components::{ClipTileProps, InputBankProps, InputPickerProps};
use openmixture::model::{ClipSlot, ClipSource, InputTemplate, ViewTarget};

fn slots() -> Vec<ClipSlot> {
    vec![
        ClipSlot::with_source(ClipSource::from_path("/m/a-rather-long-name.mp4".to_string()).unwrap()),
        ClipSlot::black(),
        ClipSlot::with_source(ClipSource::ScreenBar),
    ]
}

#[test]
fn tile_tags_follow_the_buses() {
    let slots = slots();
    let tile = |index: usize, armed: usize| ClipTileProps {
        index,
        slot: &slots[index],
        preview_target: ViewTarget::Clip(1),
        program_target: ViewTarget::Clip(0),
        armed_slot: armed,
    };
    assert_eq!(tile(0, 0).tag(), "PROGRAM");
    assert!(tile(0, 2).is_program());
    assert_eq!(tile(1, 1).tag(), "PREVIEW");
    assert!(tile(1, 2).is_preview());
    assert_eq!(tile(2, 2).tag(), "ARMED");
    assert!(tile(2, 2).is_armed());
    assert_eq!(tile(2, 0).tag(), "SCREENBAR");
    assert!(!tile(2, 0).is_active());
    assert!(tile(2, 2).is_active());
}

#[test]
fn tile_names_are_shortened() {
    let slots = slots();
    let tile = |index: usize| ClipTileProps {
        index,
        slot: &slots[index],
        preview_target: ViewTarget::Scene(0),
        program_target: ViewTarget::Scene(1),
        armed_slot: 9,
    };
    assert_eq!(tile(0).display_name(), "a-rather-long-n\u{2026}");
    assert_eq!(tile(1).display_name(), "Clip 2");
    assert_eq!(tile(2).display_name(), "ScreenBar 3");
}

#[test]
fn bank_counts_loaded_slots() {
    let slots = slots();
    let bank = InputBankProps {
        clip_slots: &slots,
        preview_target: ViewTarget::Scene(0),
        program_target: ViewTarget::Scene(1),
        armed_slot: 0,
        drop_hovered: false,
    };
    assert_eq!(bank.loaded_count(), 2);
    assert_eq!(bank.badge(), "2/3 clips");
    assert_eq!(bank.drop_message(), "Drag & drop image or video files to add new clips");
    let hovered = InputBankProps { drop_hovered: true, ..bank };
    assert_eq!(hovered.drop_message(), "Release to add new input");
}

#[test]
fn picker_texts() {
    let none = InputPickerProps {
        selected: InputTemplate::Video,
        selected_media_path: None,
        can_confirm: false,
    };
    assert_eq!(none.file_text(), "No media selected");
    assert_eq!(none.chosen_name(), "Drop or browse a file");
    let some = InputPickerProps {
        selected: InputTemplate::Video,
        selected_media_path: Some("/m/show/intro.mov"),
        can_confirm: true,
    };
    assert_eq!(some.file_text(), "/m/show/intro.mov");
    assert_eq!(some.chosen_name(), "intro.mov");
    let root = InputPickerProps {
        selected: InputTemplate::Photo,
        selected_media_path: Some("/"),
        can_confirm: true,
    };
    assert_eq!(root.chosen_name(), "Drop or browse a file");
}
