use iced::window;
use openmixture::constants::{
    APP_TITLE, DEFAULT_TRANSITION_MS, INITIAL_CLIP_SLOT_COUNT, MAX_TRANSITION_MS,
    MIN_TRANSITION_MS, PROGRESS_SCALE,
};
use openmixture::model::{InputTemplate, Rgb, Transition, ViewTarget};
use openmixture::studio::{
    Studio, StudioAction, StudioEvent, VisualPlan, describe_visual,
    transition_badge, video_path_of_source,
};
use openmixture::model::ClipSource;

fn studio() -> (Studio, window::Id) {
    let main = window::Id::unique();
    (Studio::with_main_window(main), main)
}

fn no_actions(actions: Vec<StudioAction>) -> bool {
    actions.is_empty()
}

#[test]
fn starts_with_scenes_on_both_buses() {
    let (s, main) = studio();
    assert_eq!(s.main_window_id(), main);
    assert_eq!(s.clip_slots().len(), INITIAL_CLIP_SLOT_COUNT);
    assert!(s.clip_slots().iter().all(|slot| slot.is_black()));
    assert_eq!(s.preview_target(), ViewTarget::Scene(1));
    assert_eq!(s.program_target(), ViewTarget::Scene(0));
    assert_eq!(s.transition(), Transition::Fade);
    assert_eq!(s.transition_ms(), DEFAULT_TRANSITION_MS);
    assert!(s.active_transition().is_none());
    assert_eq!(s.transition_progress(), 0);
    assert!(!s.drop_hovered());
    assert_eq!(s.drop_slot(), 0);
    assert_eq!(s.loaded_clip_count(), 0);
}

#[test]
fn default_studio_starts_the_same_way() {
    let s = Studio::default();
    assert_eq!(s.clip_slots().len(), INITIAL_CLIP_SLOT_COUNT);
    assert_eq!(s.preview_target(), ViewTarget::Scene(1));
}

#[test]
fn titles_name_the_picker_window() {
    let (mut s, main) = studio();
    assert_eq!(s.title(main), APP_TITLE);
    let picker = window::Id::unique();
    assert!(no_actions(s.update(StudioEvent::AddInputPickerOpened(picker))));
    assert_eq!(s.title(picker), "Add Input");
    assert_eq!(s.title(main), "OpenMixture");
}

#[test]
fn selecting_a_clip_previews_and_arms_it() {
    let (mut s, _) = studio();
    s.update(StudioEvent::SelectPreviewClip(3));
    assert_eq!(s.preview_target(), ViewTarget::Clip(3));
    assert_eq!(s.drop_slot(), 3);
    s.update(StudioEvent::SelectPreviewClip(99));
    assert_eq!(s.preview_target(), ViewTarget::Clip(3));
}

#[test]
fn cut_take_swaps_buses() {
    let (mut s, _) = studio();
    s.update(StudioEvent::SetTransition(Transition::Cut));
    s.update(StudioEvent::SelectPreviewClip(2));
    s.update(StudioEvent::Take(10));
    assert_eq!(s.program_target(), ViewTarget::Clip(2));
    assert_eq!(s.preview_target(), ViewTarget::Scene(0));
    assert!(s.active_transition().is_none());
}

#[test]
fn transition_take_runs_then_completes() {
    let (mut s, _) = studio();
    s.update(StudioEvent::SetTransitionDuration(1000));
    s.update(StudioEvent::Take(5000));
    let active = s.active_transition().unwrap();
    assert_eq!(active.from, ViewTarget::Scene(0));
    assert_eq!(active.to, ViewTarget::Scene(1));
    assert_eq!(active.mode, Transition::Fade);
    assert_eq!(active.started_at_ms, 5000);
    assert_eq!(active.duration_ms, 1000);
    assert_eq!(s.program_target(), ViewTarget::Scene(0));

    // A second take while one runs changes nothing.
    s.update(StudioEvent::Take(5100));
    assert_eq!(s.active_transition().unwrap().started_at_ms, 5000);

    s.update(StudioEvent::TransitionTick(5250));
    assert_eq!(s.transition_progress(), 250);
    assert!(s.active_transition().is_some());
    s.update(StudioEvent::TransitionTick(5999));
    assert_eq!(s.transition_progress(), 999);

    s.update(StudioEvent::TransitionTick(6000));
    assert!(s.active_transition().is_none());
    assert_eq!(s.transition_progress(), 0);
    assert_eq!(s.program_target(), ViewTarget::Scene(1));
    assert_eq!(s.preview_target(), ViewTarget::Scene(0));
}

#[test]
fn tick_before_start_counts_as_no_time() {
    let (mut s, _) = studio();
    s.update(StudioEvent::Take(5000));
    s.update(StudioEvent::TransitionTick(10));
    assert_eq!(s.transition_progress(), 0);
    assert!(s.active_transition().is_some());
}

#[test]
fn take_with_equal_buses_does_nothing() {
    let (mut s, _) = studio();
    s.update(StudioEvent::SetTransition(Transition::Cut));
    s.update(StudioEvent::SelectPreviewClip(0));
    s.update(StudioEvent::Take(1));
    assert_eq!(s.program_target(), ViewTarget::Clip(0));
    s.update(StudioEvent::SelectPreviewClip(0));
    s.update(StudioEvent::SetTransition(Transition::Wipe));
    s.update(StudioEvent::Take(2));
    assert!(s.active_transition().is_none());
    assert_eq!(s.program_target(), ViewTarget::Clip(0));
    assert_eq!(s.preview_target(), ViewTarget::Clip(0));
}

#[test]
fn quick_cut_swaps_and_resets_the_transition() {
    let (mut s, _) = studio();
    s.update(StudioEvent::SetTransitionDuration(900));
    s.update(StudioEvent::QuickCut);
    assert_eq!(s.transition(), Transition::Cut);
    assert_eq!(s.transition_ms(), MIN_TRANSITION_MS);
    assert_eq!(s.program_target(), ViewTarget::Scene(1));
    assert_eq!(s.preview_target(), ViewTarget::Scene(0));
}

#[test]
fn quick_cut_twice_restores_buses() {
    let (mut s, _) = studio();
    s.update(StudioEvent::SelectPreviewClip(4));
    let program = s.program_target();
    let preview = s.preview_target();
    s.update(StudioEvent::QuickCut);
    s.update(StudioEvent::QuickCut);
    assert_eq!(s.program_target(), program);
    assert_eq!(s.preview_target(), preview);
}

#[test]
fn quick_cut_stops_a_running_transition() {
    let (mut s, _) = studio();
    s.update(StudioEvent::Take(0));
    assert!(s.active_transition().is_some());
    s.update(StudioEvent::QuickCut);
    assert!(s.active_transition().is_none());
    assert_eq!(s.program_target(), ViewTarget::Scene(1));
}

#[test]
fn transition_length_is_clamped() {
    let (mut s, _) = studio();
    s.update(StudioEvent::SetTransitionDuration(5));
    assert_eq!(s.transition_ms(), MIN_TRANSITION_MS);
    s.update(StudioEvent::SetTransitionDuration(100_000));
    assert_eq!(s.transition_ms(), MAX_TRANSITION_MS);
    s.update(StudioEvent::SetTransitionDuration(777));
    assert_eq!(s.transition_ms(), 777);
}

#[test]
fn idle_tick_keeps_buses_and_lists_no_video() {
    let (mut s, _) = studio();
    let actions = s.update(StudioEvent::TransitionTick(42));
    assert_eq!(s.program_target(), ViewTarget::Scene(0));
    assert_eq!(s.preview_target(), ViewTarget::Scene(1));
    assert_eq!(actions.len(), 1);
    assert!(matches!(&actions[0], StudioAction::TickVideos(v) if v.is_empty()));
}

#[test]
fn hover_state_follows_the_main_window() {
    let (mut s, main) = studio();
    s.update(StudioEvent::FileHovered(window::Id::unique()));
    assert!(!s.drop_hovered());
    s.update(StudioEvent::FileHovered(main));
    assert!(s.drop_hovered());
    s.update(StudioEvent::FilesHoveredLeft(main));
    assert!(!s.drop_hovered());
}

#[test]
fn dropped_video_fills_the_first_black_slot_and_is_prepared() {
    let (mut s, main) = studio();
    s.update(StudioEvent::FileHovered(main));
    let actions = s.update(StudioEvent::FileDropped(main, "/m/intro.mp4".to_string()));
    assert!(!s.drop_hovered());
    assert_eq!(s.loaded_clip_count(), 1);
    assert_eq!(s.clip_slots().len(), INITIAL_CLIP_SLOT_COUNT);
    assert!(s.clip_slots()[0].source.uses_path("/m/intro.mp4"));
    assert_eq!(s.preview_target(), ViewTarget::Clip(0));
    assert_eq!(s.drop_slot(), 0);
    assert_eq!(actions.len(), 1);
    assert!(matches!(&actions[0], StudioAction::PrepareVideo(p) if p == "/m/intro.mp4"));

    let ticks = s.update(StudioEvent::TransitionTick(1));
    assert!(matches!(&ticks[0], StudioAction::TickVideos(v) if v == &vec!["/m/intro.mp4".to_string()]));
}

#[test]
fn dropping_the_same_file_twice_changes_nothing() {
    let (mut s, main) = studio();
    s.update(StudioEvent::FileDropped(main, "/m/a.png".to_string()));
    s.update(StudioEvent::SelectPreviewClip(5));
    let actions = s.update(StudioEvent::FileDropped(main, "/m/a.png".to_string()));
    assert!(actions.is_empty());
    assert_eq!(s.loaded_clip_count(), 1);
    assert_eq!(s.preview_target(), ViewTarget::Clip(5));
}

#[test]
fn dropped_image_is_not_prepared_and_other_files_are_ignored() {
    let (mut s, main) = studio();
    let actions = s.update(StudioEvent::FileDropped(main, "/m/a.png".to_string()));
    assert!(actions.is_empty());
    assert_eq!(s.loaded_clip_count(), 1);
    s.update(StudioEvent::FileDropped(main, "/m/a.txt".to_string()));
    assert_eq!(s.loaded_clip_count(), 1);
    s.update(StudioEvent::FileDropped(window::Id::unique(), "/m/b.png".to_string()));
    assert_eq!(s.loaded_clip_count(), 1);
}

#[test]
fn drops_past_the_bank_add_slots() {
    let (mut s, main) = studio();
    for i in 0..INITIAL_CLIP_SLOT_COUNT + 2 {
        s.update(StudioEvent::FileDropped(main, format!("/m/{i}.jpg")));
    }
    assert_eq!(s.clip_slots().len(), INITIAL_CLIP_SLOT_COUNT + 2);
    assert_eq!(s.loaded_clip_count(), INITIAL_CLIP_SLOT_COUNT + 2);
    assert_eq!(s.preview_target(), ViewTarget::Clip(INITIAL_CLIP_SLOT_COUNT + 1));
}

#[test]
fn picker_flow_adds_an_input() {
    let (mut s, _) = studio();
    let actions = s.update(StudioEvent::OpenAddInputPicker);
    assert_eq!(actions.len(), 1);
    assert!(matches!(actions[0], StudioAction::OpenPickerWindow));
    let picker = window::Id::unique();
    s.update(StudioEvent::AddInputPickerOpened(picker));
    assert!(s.update(StudioEvent::OpenAddInputPicker).is_empty());

    let browse = s.update(StudioEvent::BrowseInputMedia);
    assert!(matches!(browse[0], StudioAction::BrowseMedia(InputTemplate::Video)));
    s.update(StudioEvent::InputMediaPicked(Some("/m/show.mov".to_string())));
    let done = s.update(StudioEvent::ConfirmAddInput);
    assert_eq!(done.len(), 2);
    assert!(matches!(&done[0], StudioAction::PrepareVideo(p) if p == "/m/show.mov"));
    assert!(matches!(done[1], StudioAction::ClosePickerWindow(w) if w == picker));
    assert_eq!(s.clip_slots().len(), INITIAL_CLIP_SLOT_COUNT + 1);
    assert_eq!(s.preview_target(), ViewTarget::Clip(INITIAL_CLIP_SLOT_COUNT));
    assert_eq!(s.title(picker), APP_TITLE);
}

#[test]
fn picker_refuses_a_file_already_in_the_bank() {
    let (mut s, main) = studio();
    s.update(StudioEvent::FileDropped(main, "/m/show.mov".to_string()));
    s.update(StudioEvent::OpenAddInputPicker);
    s.update(StudioEvent::InputMediaPicked(Some("/m/show.mov".to_string())));
    assert!(s.update(StudioEvent::ConfirmAddInput).is_empty());
    assert_eq!(s.loaded_clip_count(), 1);
}

#[test]
fn picker_window_takes_drops() {
    let (mut s, _) = studio();
    let picker = window::Id::unique();
    s.update(StudioEvent::OpenAddInputPicker);
    s.update(StudioEvent::AddInputPickerOpened(picker));
    s.update(StudioEvent::FileDropped(picker, "/m/still.gif".to_string()));
    assert_eq!(s.input_picker().selection(), InputTemplate::Photo);
    assert_eq!(s.input_picker().media_path(), Some("/m/still.gif"));
    assert_eq!(s.loaded_clip_count(), 0);
}

#[test]
fn closing_windows() {
    let (mut s, main) = studio();
    let picker = window::Id::unique();
    s.update(StudioEvent::AddInputPickerOpened(picker));
    let close = s.update(StudioEvent::CloseAddInputPicker);
    assert!(matches!(close[0], StudioAction::ClosePickerWindow(w) if w == picker));
    assert!(s.update(StudioEvent::CloseAddInputPicker).is_empty());
    assert!(s.update(StudioEvent::WindowClosed(picker)).is_empty());
    let exit = s.update(StudioEvent::WindowClosed(main));
    assert!(matches!(exit[0], StudioAction::Exit));
    assert!(s.update(StudioEvent::MainWindowOpened(main)).is_empty());
}

#[test]
fn targets_are_described() {
    let (mut s, main) = studio();
    let scene = s.describe_target(ViewTarget::Scene(0));
    assert_eq!(scene.badge, "Opening Wide");
    assert_eq!(scene.kind_label, "SCENE");
    assert_eq!(scene.accent, Rgb { r: 236, g: 137, b: 35 });
    assert_eq!(s.describe_target(ViewTarget::Scene(9)).badge, "Scene 10");

    s.update(StudioEvent::FileDropped(main, "/m/v.mp4".to_string()));
    let clip = s.describe_target(ViewTarget::Clip(0));
    assert_eq!(clip.badge, "Clip 1");
    assert_eq!(clip.kind_label, "VIDEO");
    assert!(matches!(&clip.visual, VisualPlan::Video(p) if p == "/m/v.mp4"));
    assert_eq!(clip.video_path.as_deref(), Some("/m/v.mp4"));

    let empty = s.describe_target(ViewTarget::Clip(1));
    assert_eq!(empty.kind_label, "BLACK");
    assert!(matches!(empty.visual, VisualPlan::Black));

    let missing = s.describe_target(ViewTarget::Clip(50));
    assert_eq!(missing.badge, "Clip");
    assert_eq!(missing.kind_label, "FILE");
    assert_eq!(missing.accent, Rgb { r: 118, g: 126, b: 139 });
    assert_eq!(s.video_path_for_target(ViewTarget::Clip(0)).as_deref(), Some("/m/v.mp4"));
    assert_eq!(s.video_path_for_target(ViewTarget::Scene(0)), None);
}

#[test]
fn tick_targets_are_listed_once() {
    let (mut s, main) = studio();
    s.update(StudioEvent::FileDropped(main, "/m/v.mp4".to_string()));
    s.update(StudioEvent::QuickCut);
    s.update(StudioEvent::SelectPreviewClip(0));
    assert_eq!(s.video_tick_targets(), vec!["/m/v.mp4".to_string()]);
}

#[test]
fn helpers_of_the_buses() {
    assert_eq!(transition_badge("Opening Wide Shot", "Clip 2"), "Opening Wid\u{2026} -> Clip 2");
    let img = ClipSource::from_path("/x/p.png".to_string()).unwrap();
    assert!(matches!(describe_visual(&img), VisualPlan::Image(p) if p == "/x/p.png"));
    assert!(matches!(describe_visual(&ClipSource::ScreenBar), VisualPlan::ScreenBar));
    assert_eq!(video_path_of_source(&img), None);
    let vid = ClipSource::from_path("/x/p.avi".to_string()).unwrap();
    assert_eq!(video_path_of_source(&vid).as_deref(), Some("/x/p.avi"));
    assert_eq!(PROGRESS_SCALE, 1000);
}

#[test]
fn a_file_named_two_ways_is_dropped_once() {
    let (mut s, main) = studio();
    s.update(StudioEvent::FileDropped(main, "/m/a.png".to_string()));
    let actions = s.update(StudioEvent::FileDropped(main, "/m//./a.png".to_string()));
    assert!(actions.is_empty());
    assert_eq!(s.loaded_clip_count(), 1);
    assert!(s.clip_slots()[0].source.uses_path("/m//a.png"));
}

#[test]
fn tick_targets_are_sorted_by_path_components() {
    let (mut s, main) = studio();
    s.update(StudioEvent::FileDropped(main, "/m/a b.mp4".to_string()));
    s.update(StudioEvent::FileDropped(main, "/m/a/b.mp4".to_string()));
    s.update(StudioEvent::QuickCut);
    s.update(StudioEvent::SelectPreviewClip(0));
    assert_eq!(s.program_target(), ViewTarget::Clip(1));
    assert_eq!(
        s.video_tick_targets(),
        vec!["/m/a/b.mp4".to_string(), "/m/a b.mp4".to_string()]
    );
    let ticks = s.update(StudioEvent::TransitionTick(3));
    assert!(matches!(&ticks[0], StudioAction::TickVideos(v)
        if v == &vec!["/m/a/b.mp4".to_string(), "/m/a b.mp4".to_string()]));
}
