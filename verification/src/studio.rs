use vstd::prelude::*;

use iced::window;

use crate::windows::same_window;

use crate::paths::{
    insert_path, insert_path_spec, lemma_insert_path_sorted, lemma_path_lt_order, same_path_spec,
    strictly_sorted,
};
use crate::text::decimal;
use crate::constants::{
    APP_TITLE, DEFAULT_TRANSITION_MS, INITIAL_CLIP_SLOT_COUNT, MAX_TRANSITION_MS,
    MIN_TRANSITION_MS, PROGRESS_SCALE,
};
use crate::input_picker_state::{
    build_source_spec, media_drop_spec, media_picked_spec, select_template_spec, path_in_use, slot_views, any_slot_uses, InputPickerState, InputPickerView,
};
use crate::model::{
    rgb, source_accent, source_kind_label, Rgb,
    default_scene_names, default_scenes, file_source_spec, ClipSlot, ClipSource, ClipSourceView,
    FileMediaKind, InputTemplate, Scene, Transition, ViewTarget, source_uses_path,
};

verus! {

/// A transition in progress on the program bus.
#[derive(Debug, Clone, Copy, PartialEq, Eq, Structural)]
pub struct ActiveTransition {
    pub from: ViewTarget,
    pub to: ViewTarget,
    pub mode: Transition,
    pub started_at_ms: u64,
    pub duration_ms: u32,
}

/// The switcher state of the studio: the scenes, the input bank, what the preview and
/// program buses show, the transition settings and a transition in progress.
pub struct Studio {
    main_window_id: window::Id,
    input_picker: InputPickerState,
    scenes: Vec<Scene>,
    clip_slots: Vec<ClipSlot>,
    preview_target: ViewTarget,
    program_target: ViewTarget,
    transition: Transition,
    transition_ms: u32,
    active_transition: Option<ActiveTransition>,
    transition_progress: u32,
    drop_hovered: bool,
    drop_slot: usize,
}

/// The content of a [`Studio`].
pub struct StudioView {
    pub main_window_id: window::Id,
    pub picker: InputPickerView,
    pub scenes: Seq<Seq<char>>,
    pub slots: Seq<ClipSourceView>,
    pub preview: ViewTarget,
    pub program: ViewTarget,
    pub transition: Transition,
    pub transition_ms: u32,
    pub active: Option<ActiveTransition>,
    pub progress: u32,
    pub drop_hovered: bool,
    pub drop_slot: usize,
}

impl View for Studio {
    type V = StudioView;

    closed spec fn view(&self) -> StudioView {
        StudioView {
            main_window_id: self.main_window_id,
            picker: self.input_picker@,
            scenes: self.scenes@.map_values(|s: Scene| s.name@),
            slots: slot_views(self.clip_slots@),
            preview: self.preview_target,
            program: self.program_target,
            transition: self.transition,
            transition_ms: self.transition_ms,
            active: self.active_transition,
            progress: self.transition_progress,
            drop_hovered: self.drop_hovered,
            drop_slot: self.drop_slot,
        }
    }
}

/// Whether a bus target names an existing scene or slot.
pub open spec fn target_valid(s: StudioView, t: ViewTarget) -> bool {
    match t {
        ViewTarget::Scene(i) => i < s.scenes.len(),
        ViewTarget::Clip(i) => i < s.slots.len(),
    }
}

/// Whether no two slots play the same file: no two file paths are equal component by
/// component.
pub open spec fn files_distinct(slots: Seq<ClipSourceView>) -> bool {
    forall|i: int, j: int|
        0 <= i < slots.len() && 0 <= j < slots.len() && i != j && (slots[i] is File) && (
        slots[j] is File) ==> !same_path_spec(
            (#[trigger] slots[i])->File_0.path,
            (#[trigger] slots[j])->File_0.path,
        )
}

/// What every studio state keeps.
pub open spec fn studio_wf(s: StudioView) -> bool {
    &&& s.slots.len() > 0
    &&& s.drop_slot < s.slots.len()
    &&& target_valid(s, s.preview)
    &&& target_valid(s, s.program)
    &&& MIN_TRANSITION_MS <= s.transition_ms <= MAX_TRANSITION_MS
    &&& s.progress <= PROGRESS_SCALE
    &&& (s.active matches Some(a) ==> target_valid(s, a.from) && target_valid(s, a.to)
        && a.duration_ms >= MIN_TRANSITION_MS)
    &&& files_distinct(s.slots)
}

/// Points the drop slot at the previewed clip, when the preview shows a clip.
pub open spec fn sync_drop_slot_spec(s: StudioView) -> StudioView {
    match s.preview {
        ViewTarget::Clip(i) => if i < s.slots.len() {
            StudioView { drop_slot: i, ..s }
        } else {
            s
        },
        _ => s,
    }
}

/// Puts `to` on program and `from` on preview.
pub open spec fn complete_take_spec(s: StudioView, from: ViewTarget, to: ViewTarget) -> StudioView {
    sync_drop_slot_spec(StudioView { program: to, preview: from, ..s })
}

/// The larger of a transition length and the shortest allowed one.
pub open spec fn effective_duration(ms: u32) -> u32 {
    if ms >= MIN_TRANSITION_MS {
        ms
    } else {
        MIN_TRANSITION_MS
    }
}

/// TAKE: swaps the buses at once for a cut, otherwise starts a transition at `now_ms`;
/// nothing happens while a transition runs or when both buses show the same thing.
pub open spec fn queue_take_spec(s: StudioView, now_ms: u64) -> StudioView {
    if s.active is Some || s.preview == s.program {
        s
    } else if s.transition == Transition::Cut {
        complete_take_spec(s, s.program, s.preview)
    } else {
        StudioView {
            active: Some(
                ActiveTransition {
                    from: s.program,
                    to: s.preview,
                    mode: s.transition,
                    started_at_ms: now_ms,
                    duration_ms: effective_duration(s.transition_ms),
                },
            ),
            progress: 0,
            ..s
        }
    }
}

/// CUT: selects the cut transition at its shortest length, drops any transition in
/// progress and swaps the buses when they differ.
pub open spec fn quick_cut_spec(s: StudioView) -> StudioView {
    let s1 = StudioView {
        transition: Transition::Cut,
        transition_ms: MIN_TRANSITION_MS,
        active: None,
        progress: 0,
        ..s
    };
    if s1.program != s1.preview {
        complete_take_spec(s1, s1.program, s1.preview)
    } else {
        s1
    }
}

/// Milliseconds from `start` to `now`, or zero when `now` is earlier.
pub open spec fn elapsed_ms(start: u64, now: u64) -> int {
    if now >= start {
        now - start
    } else {
        0
    }
}

/// A frame tick at `now_ms`: advances the transition in progress, completing it once its
/// length has passed.
pub open spec fn transition_tick_spec(s: StudioView, now_ms: u64) -> StudioView {
    match s.active {
        None => StudioView { progress: 0, ..s },
        Some(a) => {
            let e = elapsed_ms(a.started_at_ms, now_ms);
            if e >= a.duration_ms {
                StudioView { active: None, progress: 0, ..complete_take_spec(s, a.from, a.to) }
            } else {
                StudioView { progress: (e * PROGRESS_SCALE / (a.duration_ms as int)) as u32, ..s }
            }
        },
    }
}

/// Index of the first empty (black) slot, or the number of slots when none is empty.
pub open spec fn first_black(slots: Seq<ClipSourceView>) -> int
    decreases slots.len(),
{
    if slots.len() == 0 {
        0
    } else if first_black(slots.drop_last()) < slots.len() - 1 {
        first_black(slots.drop_last())
    } else if slots.last() is Black {
        slots.len() - 1
    } else {
        slots.len() as int
    }
}

/// Previews slot `i` and arms it for drops.
pub open spec fn set_preview_slot_spec(s: StudioView, i: usize) -> StudioView {
    StudioView { drop_slot: i, preview: ViewTarget::Clip(i), ..s }
}

/// Puts a source into the first empty slot, or into a new slot when none is empty, and
/// previews that slot.
pub open spec fn insert_source_spec(s: StudioView, src: ClipSourceView) -> StudioView {
    let i = first_black(s.slots);
    if i < s.slots.len() {
        set_preview_slot_spec(StudioView { slots: s.slots.update(i, src), ..s }, i as usize)
    } else {
        set_preview_slot_spec(StudioView { slots: s.slots.push(src), ..s }, s.slots.len() as usize)
    }
}

/// Adds a source in a new slot and previews it.
pub open spec fn append_source_spec(s: StudioView, src: ClipSourceView) -> StudioView {
    set_preview_slot_spec(StudioView { slots: s.slots.push(src), ..s }, s.slots.len() as usize)
}

/// A file dropped on the main window: a media file that no slot plays yet is inserted;
/// anything else is ignored.
pub open spec fn file_drop_spec(s: StudioView, path: Seq<char>) -> StudioView {
    if path_in_use(s.slots, path) {
        s
    } else {
        match file_source_spec(path) {
            Some(f) => insert_source_spec(s, ClipSourceView::File(f)),
            None => s,
        }
    }
}

/// Number of slots that hold something other than black.
pub open spec fn loaded_count(slots: Seq<ClipSourceView>) -> nat
    decreases slots.len(),
{
    if slots.len() == 0 {
        0
    } else {
        loaded_count(slots.drop_last()) + if slots.last() is Black {
            0nat
        } else {
            1nat
        }
    }
}

/// The video file a source plays, if it plays one.
pub open spec fn video_path_of(src: ClipSourceView) -> Option<Seq<char>> {
    match src {
        ClipSourceView::File(f) => if f.kind == FileMediaKind::Video {
            Some(f.path)
        } else {
            None
        },
        _ => None,
    }
}

/// The video file a bus target plays, if it plays one.
pub open spec fn video_path_for_target_spec(s: StudioView, t: ViewTarget) -> Option<Seq<char>> {
    match t {
        ViewTarget::Scene(_) => None,
        ViewTarget::Clip(i) => if i < s.slots.len() {
            video_path_of(s.slots[i as int])
        } else {
            None
        },
    }
}

/// Something that happened to the studio: a user action, a window event or a frame tick.
/// Times are milliseconds on one monotonic clock.
pub enum StudioEvent {
    SelectPreviewClip(usize),
    OpenAddInputPicker,
    CloseAddInputPicker,
    SelectInputTemplate(InputTemplate),
    BrowseInputMedia,
    InputMediaPicked(Option<String>),
    ConfirmAddInput,
    AddInputPickerOpened(window::Id),
    MainWindowOpened(window::Id),
    WindowClosed(window::Id),
    Take(u64),
    QuickCut,
    SetTransition(Transition),
    SetTransitionDuration(u32),
    TransitionTick(u64),
    FileHovered(window::Id),
    FileDropped(window::Id, String),
    FilesHoveredLeft(window::Id),
}

/// The content of a [`StudioEvent`].
pub enum StudioEventView {
    SelectPreviewClip(usize),
    OpenAddInputPicker,
    CloseAddInputPicker,
    SelectInputTemplate(InputTemplate),
    BrowseInputMedia,
    InputMediaPicked(Option<Seq<char>>),
    ConfirmAddInput,
    AddInputPickerOpened(window::Id),
    MainWindowOpened(window::Id),
    WindowClosed(window::Id),
    Take(u64),
    QuickCut,
    SetTransition(Transition),
    SetTransitionDuration(u32),
    TransitionTick(u64),
    FileHovered(window::Id),
    FileDropped(window::Id, Seq<char>),
    FilesHoveredLeft(window::Id),
}

impl View for StudioEvent {
    type V = StudioEventView;

    open spec fn view(&self) -> StudioEventView {
        match self {
            StudioEvent::SelectPreviewClip(i) => StudioEventView::SelectPreviewClip(*i),
            StudioEvent::OpenAddInputPicker => StudioEventView::OpenAddInputPicker,
            StudioEvent::CloseAddInputPicker => StudioEventView::CloseAddInputPicker,
            StudioEvent::SelectInputTemplate(t) => StudioEventView::SelectInputTemplate(*t),
            StudioEvent::BrowseInputMedia => StudioEventView::BrowseInputMedia,
            StudioEvent::InputMediaPicked(p) => StudioEventView::InputMediaPicked(
                match p {
                    Some(q) => Some(q@),
                    None => None,
                },
            ),
            StudioEvent::ConfirmAddInput => StudioEventView::ConfirmAddInput,
            StudioEvent::AddInputPickerOpened(w) => StudioEventView::AddInputPickerOpened(*w),
            StudioEvent::MainWindowOpened(w) => StudioEventView::MainWindowOpened(*w),
            StudioEvent::WindowClosed(w) => StudioEventView::WindowClosed(*w),
            StudioEvent::Take(t) => StudioEventView::Take(*t),
            StudioEvent::QuickCut => StudioEventView::QuickCut,
            StudioEvent::SetTransition(t) => StudioEventView::SetTransition(*t),
            StudioEvent::SetTransitionDuration(d) => StudioEventView::SetTransitionDuration(*d),
            StudioEvent::TransitionTick(t) => StudioEventView::TransitionTick(*t),
            StudioEvent::FileHovered(w) => StudioEventView::FileHovered(*w),
            StudioEvent::FileDropped(w, p) => StudioEventView::FileDropped(*w, p@),
            StudioEvent::FilesHoveredLeft(w) => StudioEventView::FilesHoveredLeft(*w),
        }
    }
}

/// Work the studio hands to its host after an event.
pub enum StudioAction {
    /// Open a window for the "Add Input" picker and report it with
    /// [`StudioEvent::AddInputPickerOpened`].
    OpenPickerWindow,
    /// Close the picker's window.
    ClosePickerWindow(window::Id),
    /// Ask the user for a media file for the template; report it with
    /// [`StudioEvent::InputMediaPicked`].
    BrowseMedia(InputTemplate),
    /// Quit the application.
    Exit,
    /// Get a player ready for the video file.
    PrepareVideo(String),
    /// Advance the players of these video files.
    TickVideos(Vec<String>),
}

/// The content of a [`StudioAction`].
pub enum StudioActionView {
    OpenPickerWindow,
    ClosePickerWindow(window::Id),
    BrowseMedia(InputTemplate),
    Exit,
    PrepareVideo(Seq<char>),
    TickVideos(Seq<Seq<char>>),
}

impl View for StudioAction {
    type V = StudioActionView;

    open spec fn view(&self) -> StudioActionView {
        match self {
            StudioAction::OpenPickerWindow => StudioActionView::OpenPickerWindow,
            StudioAction::ClosePickerWindow(w) => StudioActionView::ClosePickerWindow(*w),
            StudioAction::BrowseMedia(t) => StudioActionView::BrowseMedia(*t),
            StudioAction::Exit => StudioActionView::Exit,
            StudioAction::PrepareVideo(p) => StudioActionView::PrepareVideo(p@),
            StudioAction::TickVideos(v) => StudioActionView::TickVideos(
                v@.map_values(|p: String| p@),
            ),
        }
    }
}

/// The views of a list of actions.
pub open spec fn action_views(v: Seq<StudioAction>) -> Seq<StudioActionView> {
    v.map_values(|a: StudioAction| a@)
}

/// A transition length kept within the allowed range.
pub open spec fn clamp_transition_ms(ms: u32) -> u32 {
    if ms < MIN_TRANSITION_MS {
        MIN_TRANSITION_MS
    } else if ms > MAX_TRANSITION_MS {
        MAX_TRANSITION_MS
    } else {
        ms
    }
}

/// Video files whose players tick: those shown on preview and program and, during a
/// transition, those it goes between.
pub open spec fn tick_candidates(s: StudioView) -> Seq<Option<Seq<char>>> {
    seq![video_path_for_target_spec(s, s.preview), video_path_for_target_spec(s, s.program)]
        + match s.active {
        Some(a) => seq![
            video_path_for_target_spec(s, a.from),
            video_path_for_target_spec(s, a.to),
        ],
        None => Seq::empty(),
    }
}

/// The files named in a list, sorted by path and each once: every file is put into the
/// list of those before it, where a file equal to one already there is dropped.
pub open spec fn sorted_files(c: Seq<Option<Seq<char>>>) -> Seq<Seq<char>>
    decreases c.len(),
{
    if c.len() == 0 {
        Seq::empty()
    } else {
        let r = sorted_files(c.drop_last());
        match c.last() {
            Some(p) => insert_path_spec(r, p),
            None => r,
        }
    }
}

/// The files whose players tick are sorted by path, each file once: every listed file
/// sorts before the next, no two are equal, each is one of the candidates, and every
/// candidate file is listed.
pub proof fn law_tick_files_sorted(c: Seq<Option<Seq<char>>>)
    ensures
        strictly_sorted(sorted_files(c)),
        forall|i: int, j: int|
            0 <= i < j < sorted_files(c).len() ==> !same_path_spec(
                #[trigger] sorted_files(c)[i],
                #[trigger] sorted_files(c)[j],
            ),
        forall|k: int|
            0 <= k < sorted_files(c).len() ==> c.contains(Some(#[trigger] sorted_files(c)[k])),
        forall|i: int|
            0 <= i < c.len() && (#[trigger] c[i]) is Some ==> exists|k: int|
                0 <= k < sorted_files(c).len() && same_path_spec(sorted_files(c)[k], c[i]->0),
    decreases c.len(),
{
    let t = sorted_files(c);
    if c.len() > 0 {
        let d = c.drop_last();
        law_tick_files_sorted(d);
        let r = sorted_files(d);
        assert forall|k: int| 0 <= k < r.len() implies c.contains(Some(#[trigger] r[k])) by {
            let m = choose|m: int| 0 <= m < d.len() && d[m] == Some(r[k]);
            assert(c[m] == d[m]);
        }
        match c.last() {
            Some(p) => {
                lemma_insert_path_sorted(r, p);
                assert forall|k: int| 0 <= k < t.len() implies c.contains(Some(#[trigger] t[k])) by {
                    if t[k] == p {
                        assert(c[c.len() - 1] == Some(p));
                    } else {
                        let m = choose|m: int| 0 <= m < r.len() && r[m] == t[k];
                        assert(c.contains(Some(r[m])));
                    }
                }
                assert forall|i: int| 0 <= i < c.len() && (#[trigger] c[i]) is Some implies exists|k: int|
                    0 <= k < t.len() && same_path_spec(t[k], c[i]->0) by {
                    if i < c.len() - 1 {
                        assert(d[i] == c[i]);
                        let k = choose|k: int| 0 <= k < r.len() && same_path_spec(r[k], d[i]->0);
                        assert(t.contains(r[k]));
                        let m = choose|m: int| 0 <= m < t.len() && t[m] == r[k];
                        assert(same_path_spec(t[m], c[i]->0));
                    } else if t.contains(p) {
                        let m = choose|m: int| 0 <= m < t.len() && t[m] == p;
                        assert(same_path_spec(t[m], c[i]->0));
                    } else {
                        let k = choose|k: int| 0 <= k < r.len() && same_path_spec(#[trigger] r[k], p);
                        assert(t.contains(r[k]));
                        let m = choose|m: int| 0 <= m < t.len() && t[m] == r[k];
                        assert(same_path_spec(t[m], c[i]->0));
                    }
                }
            },
            None => {
                assert forall|i: int| 0 <= i < c.len() && (#[trigger] c[i]) is Some implies exists|k: int|
                    0 <= k < t.len() && same_path_spec(t[k], c[i]->0) by {
                    assert(d[i] == c[i]);
                }
            },
        }
        assert forall|i: int, j: int| 0 <= i < j < t.len() implies !same_path_spec(
            #[trigger] t[i],
            #[trigger] t[j],
        ) by {
            lemma_path_lt_order(t[i], t[j], t[j]);
        }
    }
}

/// A preparation request for the video file a source plays, if any.
pub open spec fn prepare_actions(src: ClipSourceView) -> Seq<StudioActionView> {
    match video_path_of(src) {
        Some(p) => seq![StudioActionView::PrepareVideo(p)],
        None => Seq::empty(),
    }
}

/// The studio after an event, and the work it hands to its host.
pub open spec fn update_spec(s: StudioView, e: StudioEventView) -> (StudioView, Seq<StudioActionView>) {
    match e {
        StudioEventView::SelectPreviewClip(i) => if i < s.slots.len() {
            (StudioView { preview: ViewTarget::Clip(i), drop_slot: i, ..s }, Seq::empty())
        } else {
            (s, Seq::empty())
        },
        StudioEventView::OpenAddInputPicker => if s.picker.window_id is None {
            (
                StudioView {
                    picker: InputPickerView {
                        selection: InputTemplate::Video,
                        media_path: None,
                        ..s.picker
                    },
                    ..s
                },
                seq![StudioActionView::OpenPickerWindow],
            )
        } else {
            (s, Seq::empty())
        },
        StudioEventView::CloseAddInputPicker => (
            StudioView { picker: InputPickerView { window_id: None, ..s.picker }, ..s },
            match s.picker.window_id {
                Some(w) => seq![StudioActionView::ClosePickerWindow(w)],
                None => Seq::empty(),
            },
        ),
        StudioEventView::SelectInputTemplate(t) => (
            StudioView { picker: select_template_spec(s.picker, t), ..s },
            Seq::empty(),
        ),
        StudioEventView::BrowseInputMedia => (
            s,
            if crate::model::template_is_media(s.picker.selection) {
                seq![StudioActionView::BrowseMedia(s.picker.selection)]
            } else {
                Seq::empty()
            },
        ),
        StudioEventView::InputMediaPicked(p) => (
            StudioView { picker: media_picked_spec(s.picker, p), ..s },
            Seq::empty(),
        ),
        StudioEventView::ConfirmAddInput => match build_source_spec(s.picker, s.slots) {
            None => (s, Seq::empty()),
            Some(src) => {
                let s1 = append_source_spec(s, src);
                (
                    StudioView { picker: InputPickerView { window_id: None, ..s1.picker }, ..s1 },
                    prepare_actions(src) + match s.picker.window_id {
                        Some(w) => seq![StudioActionView::ClosePickerWindow(w)],
                        None => Seq::empty(),
                    },
                )
            },
        },
        StudioEventView::AddInputPickerOpened(w) => (
            StudioView { picker: InputPickerView { window_id: Some(w), ..s.picker }, ..s },
            Seq::empty(),
        ),
        StudioEventView::MainWindowOpened(_) => (s, Seq::empty()),
        StudioEventView::WindowClosed(w) => (
            if s.picker.window_id == Some(w) {
                StudioView { picker: InputPickerView { window_id: None, ..s.picker }, ..s }
            } else {
                s
            },
            if w == s.main_window_id {
                seq![StudioActionView::Exit]
            } else {
                Seq::empty()
            },
        ),
        StudioEventView::Take(now) => (queue_take_spec(s, now), Seq::empty()),
        StudioEventView::QuickCut => (quick_cut_spec(s), Seq::empty()),
        StudioEventView::SetTransition(t) => (StudioView { transition: t, ..s }, Seq::empty()),
        StudioEventView::SetTransitionDuration(d) => (
            StudioView { transition_ms: clamp_transition_ms(d), ..s },
            Seq::empty(),
        ),
        StudioEventView::TransitionTick(now) => {
            let s1 = transition_tick_spec(s, now);
            (s1, seq![StudioActionView::TickVideos(sorted_files(tick_candidates(s1)))])
        },
        StudioEventView::FileHovered(w) => if w == s.main_window_id {
            (StudioView { drop_hovered: true, ..s }, Seq::empty())
        } else {
            (s, Seq::empty())
        },
        StudioEventView::FileDropped(w, p) => if w == s.main_window_id {
            let s1 = StudioView { drop_hovered: false, ..s };
            (
                file_drop_spec(s1, p),
                if path_in_use(s1.slots, p) {
                    Seq::empty()
                } else {
                    match file_source_spec(p) {
                        Some(f) => prepare_actions(ClipSourceView::File(f)),
                        None => Seq::empty(),
                    }
                },
            )
        } else if s.picker.window_id == Some(w) {
            (StudioView { picker: media_drop_spec(s.picker, p), ..s }, Seq::empty())
        } else {
            (s, Seq::empty())
        },
        StudioEventView::FilesHoveredLeft(w) => if w == s.main_window_id {
            (StudioView { drop_hovered: false, ..s }, Seq::empty())
        } else {
            (s, Seq::empty())
        },
    }
}

/// The state the studio starts in, for a main window.
pub open spec fn initial_studio(main_window_id: window::Id) -> StudioView {
    StudioView {
        main_window_id,
        picker: InputPickerView { window_id: None, selection: InputTemplate::Video, media_path: None },
        scenes: default_scene_names(),
        slots: Seq::new(INITIAL_CLIP_SLOT_COUNT as nat, |i: int| ClipSourceView::Black),
        preview: ViewTarget::Scene(1),
        program: ViewTarget::Scene(0),
        transition: Transition::Fade,
        transition_ms: DEFAULT_TRANSITION_MS,
        active: None,
        progress: 0,
        drop_hovered: false,
        drop_slot: 0,
    }
}

/// `first_black` is the index of the first black slot.
pub proof fn lemma_first_black_at(slots: Seq<ClipSourceView>, i: int)
    requires
        0 <= i <= slots.len(),
        forall|j: int| 0 <= j < i ==> !(#[trigger] slots[j] is Black),
        i < slots.len() ==> slots[i] is Black,
    ensures
        first_black(slots) == i,
    decreases slots.len(),
{
    if slots.len() > 0 {
        if i < slots.len() - 1 {
            lemma_first_black_at(slots.drop_last(), i);
        } else {
            let d = slots.drop_last();
            assert forall|j: int| 0 <= j < d.len() implies !(#[trigger] d[j] is Black) by {
                assert(d[j] == slots[j]);
            }
            lemma_first_black_at(d, d.len() as int);
        }
    }
}

/// `first_black` points at a black slot, or past the end.
pub proof fn lemma_first_black_bounds(slots: Seq<ClipSourceView>)
    ensures
        0 <= first_black(slots) <= slots.len(),
        first_black(slots) < slots.len() ==> slots[first_black(slots)] is Black,
    decreases slots.len(),
{
    if slots.len() > 0 {
        lemma_first_black_bounds(slots.drop_last());
    }
}

impl Studio {
    /// The studio as it starts, showing its main window `main_window_id`.
    pub fn with_main_window(main_window_id: window::Id) -> (r: Studio)
        ensures
            r@ == initial_studio(main_window_id),
            studio_wf(r@),
    {
        let scenes = default_scenes();
        let mut clip_slots: Vec<ClipSlot> = Vec::new();
        for i in 0..INITIAL_CLIP_SLOT_COUNT
            invariant
                clip_slots@.len() == i,
                forall|k: int| 0 <= k < i ==> (#[trigger] clip_slots@[k])@ is Black,
        {
            clip_slots.push(ClipSlot::black());
        }
        let r = Studio {
            main_window_id,
            input_picker: InputPickerState::default(),
            scenes,
            clip_slots,
            preview_target: ViewTarget::Scene(1),
            program_target: ViewTarget::Scene(0),
            transition: Transition::Fade,
            transition_ms: DEFAULT_TRANSITION_MS,
            active_transition: None,
            transition_progress: 0,
            drop_hovered: false,
            drop_slot: 0,
        };
        assert(r@.scenes =~= default_scene_names());
        assert(r@.slots =~= Seq::new(INITIAL_CLIP_SLOT_COUNT as nat, |i: int| ClipSourceView::Black));
        r
    }

    /// The main window's identifier.
    pub fn main_window_id(&self) -> (r: window::Id)
        ensures
            r == self@.main_window_id,
    {
        self.main_window_id
    }

    /// The "Add Input" picker.
    pub fn input_picker(&self) -> (r: &InputPickerState)
        ensures
            r@ == self@.picker,
    {
        &self.input_picker
    }

    /// The input bank.
    pub fn clip_slots(&self) -> (r: &Vec<ClipSlot>)
        ensures
            slot_views(r@) == self@.slots,
    {
        &self.clip_slots
    }

    /// What the preview bus shows.
    pub fn preview_target(&self) -> (r: ViewTarget)
        ensures
            r == self@.preview,
    {
        self.preview_target
    }

    /// What the program bus shows.
    pub fn program_target(&self) -> (r: ViewTarget)
        ensures
            r == self@.program,
    {
        self.program_target
    }

    /// The selected transition.
    pub fn transition(&self) -> (r: Transition)
        ensures
            r == self@.transition,
    {
        self.transition
    }

    /// The selected transition length, in milliseconds.
    pub fn transition_ms(&self) -> (r: u32)
        ensures
            r == self@.transition_ms,
    {
        self.transition_ms
    }

    /// The transition in progress, if any.
    pub fn active_transition(&self) -> (r: Option<ActiveTransition>)
        ensures
            r == self@.active,
    {
        self.active_transition
    }

    /// Progress of the transition in progress, out of `PROGRESS_SCALE`.
    pub fn transition_progress(&self) -> (r: u32)
        ensures
            r == self@.progress,
    {
        self.transition_progress
    }

    /// Whether a file is being dragged over the main window.
    pub fn drop_hovered(&self) -> (r: bool)
        ensures
            r == self@.drop_hovered,
    {
        self.drop_hovered
    }

    /// The slot armed for drops.
    pub fn drop_slot(&self) -> (r: usize)
        ensures
            r == self@.drop_slot,
    {
        self.drop_slot
    }

    /// Title of a window: the picker's or the application's.
    pub fn title(&self, window_id: window::Id) -> (r: String)
        ensures
            r@ == (if self@.picker.window_id == Some(window_id) {
                "Add Input"@
            } else {
                APP_TITLE@
            }),
    {
        if self.input_picker.is_window(window_id) {
            crate::text::owned("Add Input")
        } else {
            crate::text::owned(APP_TITLE)
        }
    }

    /// Number of slots that hold something other than black.
    pub fn loaded_clip_count(&self) -> (r: usize)
        ensures
            r == loaded_count(self@.slots),
    {
        let ghost v = self@.slots;
        let mut count: usize = 0;
        for i in 0..self.clip_slots.len()
            invariant
                v == slot_views(self.clip_slots@),
                count == loaded_count(v.take(i as int)),
                count <= i,
        {
            assert(v.take(i + 1).drop_last() == v.take(i as int));
            if !self.clip_slots[i].is_black() {
                count = count + 1;
            }
        }
        assert(v.take(v.len() as int) == v);
        count
    }

    fn sync_drop_slot_with_preview(&mut self)
        ensures
            final(self)@ == sync_drop_slot_spec(old(self)@),
    {
        if let ViewTarget::Clip(index) = self.preview_target {
            if index < self.clip_slots.len() {
                self.drop_slot = index;
            }
        }
    }

    fn complete_take(&mut self, from: ViewTarget, to: ViewTarget)
        ensures
            final(self)@ == complete_take_spec(old(self)@, from, to),
    {
        self.program_target = to;
        self.preview_target = from;
        self.sync_drop_slot_with_preview();
    }

    fn queue_take(&mut self, now_ms: u64)
        ensures
            final(self)@ == queue_take_spec(old(self)@, now_ms),
    {
        if self.active_transition.is_some() || self.preview_target == self.program_target {
            return;
        }
        if self.transition == Transition::Cut {
            let from = self.program_target;
            let to = self.preview_target;
            self.complete_take(from, to);
            return;
        }
        let duration_ms = if self.transition_ms >= MIN_TRANSITION_MS {
            self.transition_ms
        } else {
            MIN_TRANSITION_MS
        };
        self.active_transition = Some(
            ActiveTransition {
                from: self.program_target,
                to: self.preview_target,
                mode: self.transition,
                started_at_ms: now_ms,
                duration_ms,
            },
        );
        self.transition_progress = 0;
    }

    fn quick_cut(&mut self)
        ensures
            final(self)@ == quick_cut_spec(old(self)@),
    {
        self.transition = Transition::Cut;
        self.transition_ms = MIN_TRANSITION_MS;
        self.active_transition = None;
        self.transition_progress = 0;
        if self.program_target != self.preview_target {
            let from = self.program_target;
            let to = self.preview_target;
            self.complete_take(from, to);
        }
    }

    fn update_transition_tick(&mut self, now_ms: u64)
        requires
            studio_wf(old(self)@),
        ensures
            final(self)@ == transition_tick_spec(old(self)@, now_ms),
    {
        let active = match self.active_transition {
            Some(a) => a,
            None => {
                self.transition_progress = 0;
                return;
            },
        };
        let elapsed: u64 = if now_ms >= active.started_at_ms {
            now_ms - active.started_at_ms
        } else {
            0
        };
        if elapsed >= active.duration_ms as u64 {
            self.complete_take(active.from, active.to);
            self.active_transition = None;
            self.transition_progress = 0;
        } else {
            let scaled: u64 = elapsed * (PROGRESS_SCALE as u64);
            self.transition_progress = (scaled / (active.duration_ms as u64)) as u32;
        }
    }

    fn set_preview_slot(&mut self, index: usize)
        ensures
            final(self)@ == set_preview_slot_spec(old(self)@, index),
    {
        self.drop_slot = index;
        self.preview_target = ViewTarget::Clip(index);
    }

    /// Index of the first black slot, or the number of slots when none is black.
    fn first_black_slot(&self) -> (r: usize)
        ensures
            r == first_black(self@.slots),
    {
        let ghost v = self@.slots;
        let mut i: usize = 0;
        while i < self.clip_slots.len()
            invariant
                v == slot_views(self.clip_slots@),
                i <= v.len(),
                forall|j: int| 0 <= j < i ==> !(#[trigger] v[j] is Black),
            decreases self.clip_slots.len() - i,
        {
            if self.clip_slots[i].is_black() {
                proof {
                    lemma_first_black_at(v, i as int);
                }
                return i;
            }
            i = i + 1;
        }
        proof {
            lemma_first_black_at(v, i as int);
        }
        i
    }

    fn insert_source(&mut self, source: ClipSource) -> (video: Option<String>)
        ensures
            final(self)@ == insert_source_spec(old(self)@, source@),
            match video {
                Some(p) => video_path_of(source@) == Some(p@),
                None => video_path_of(source@) is None,
            },
    {
        let video = video_path_of_source(&source);
        let index = self.first_black_slot();
        proof {
            lemma_first_black_bounds(self@.slots);
        }
        if index < self.clip_slots.len() {
            let ghost before = self.clip_slots@;
            self.clip_slots.set(index, ClipSlot::with_source(source));
            assert(slot_views(self.clip_slots@) =~= slot_views(before).update(index as int, source@));
            self.set_preview_slot(index);
            return video;
        }
        let ghost before = self.clip_slots@;
        self.clip_slots.push(ClipSlot::with_source(source));
        assert(slot_views(self.clip_slots@) =~= slot_views(before).push(source@));
        let new_index = self.clip_slots.len() - 1;
        self.set_preview_slot(new_index);
        video
    }

    fn append_input_source(&mut self, source: ClipSource) -> (video: Option<String>)
        ensures
            final(self)@ == append_source_spec(old(self)@, source@),
            match video {
                Some(p) => video_path_of(source@) == Some(p@),
                None => video_path_of(source@) is None,
            },
    {
        let video = video_path_of_source(&source);
        let ghost before = self.clip_slots@;
        self.clip_slots.push(ClipSlot::with_source(source));
        assert(slot_views(self.clip_slots@) =~= slot_views(before).push(source@));
        let index = self.clip_slots.len() - 1;
        self.set_preview_slot(index);
        video
    }

    fn handle_file_drop(&mut self, path: String) -> (video: Option<String>)
        ensures
            final(self)@ == file_drop_spec(old(self)@, path@),
            match video {
                Some(p) => !path_in_use(old(self)@.slots, path@) && (file_source_spec(path@) matches Some(f)
                    && video_path_of(ClipSourceView::File(f)) == Some(p@)),
                None => path_in_use(old(self)@.slots, path@) || (match file_source_spec(path@) {
                    Some(f) => video_path_of(ClipSourceView::File(f)) is None,
                    None => true,
                }),
            },
    {
        if any_slot_uses(&self.clip_slots, path.as_str()) {
            return None;
        }
        let source = match ClipSource::from_path(path) {
            Some(s) => s,
            None => return None,
        };
        self.insert_source(source)
    }

    fn confirm_add_input(&mut self) -> (r: (bool, Option<String>))
        ensures
            match build_source_spec(old(self)@.picker, old(self)@.slots) {
                None => !r.0 && r.1 is None && final(self)@ == old(self)@,
                Some(src) => r.0 && final(self)@ == append_source_spec(old(self)@, src) && match r.1 {
                    Some(p) => video_path_of(src) == Some(p@),
                    None => video_path_of(src) is None,
                },
            },
    {
        let source = match self.input_picker.build_source(&self.clip_slots) {
            Some(s) => s,
            None => return (false, None),
        };
        let video = self.append_input_source(source);
        (true, video)
    }

    /// The video file a bus target plays, if it plays one.
    pub fn video_path_for_target(&self, target: ViewTarget) -> (r: Option<String>)
        ensures
            match r {
                Some(p) => video_path_for_target_spec(self@, target) == Some(p@),
                None => video_path_for_target_spec(self@, target) is None,
            },
    {
        match target {
            ViewTarget::Scene(_) => None,
            ViewTarget::Clip(index) => {
                if index < self.clip_slots.len() {
                    video_path_of_source(&self.clip_slots[index].source)
                } else {
                    None
                }
            },
        }
    }

    /// The video files whose players tick, sorted by path and each once.
    pub fn video_tick_targets(&self) -> (r: Vec<String>)
        ensures
            r@.map_values(|p: String| p@) == sorted_files(tick_candidates(self@)),
    {
        let mut candidates: Vec<Option<String>> = Vec::new();
        candidates.push(self.video_path_for_target(self.preview_target));
        candidates.push(self.video_path_for_target(self.program_target));
        if let Some(active) = self.active_transition {
            candidates.push(self.video_path_for_target(active.from));
            candidates.push(self.video_path_for_target(active.to));
        }
        let ghost cv = candidates@.map_values(
            |o: Option<String>|
                match o {
                    Some(p) => Some(p@),
                    None => None,
                },
        );
        assert(cv =~= tick_candidates(self@));
        let mut targets: Vec<String> = Vec::new();
        for i in 0..candidates.len()
            invariant
                cv == candidates@.map_values(
                    |o: Option<String>|
                        match o {
                            Some(p) => Some(p@),
                            None => None,
                        },
                ),
                targets@.map_values(|p: String| p@) == sorted_files(cv.take(i as int)),
        {
            assert(cv.take(i + 1).drop_last() == cv.take(i as int));
            if let Some(p) = &candidates[i] {
                insert_path(&mut targets, p.clone());
            }
        }
        assert(cv.take(cv.len() as int) == cv);
        targets
    }
}

impl Studio {
    /// Applies an event and returns the work to hand to the host, in order.
    pub fn update(&mut self, event: StudioEvent) -> (actions: Vec<StudioAction>)
        requires
            studio_wf(old(self)@),
        ensures
            (final(self)@, action_views(actions@)) == update_spec(old(self)@, event@),
            studio_wf(final(self)@),
    {
        proof {
            lemma_update_keeps_wf(self@, event@);
        }
        let ghost e = event@;
        let mut actions: Vec<StudioAction> = Vec::new();
        match event {
            StudioEvent::SelectPreviewClip(index) => {
                if index < self.clip_slots.len() {
                    self.preview_target = ViewTarget::Clip(index);
                    self.drop_slot = index;
                }
            },
            StudioEvent::OpenAddInputPicker => {
                if self.input_picker.open() {
                    actions.push(StudioAction::OpenPickerWindow);
                }
            },
            StudioEvent::CloseAddInputPicker => {
                if let Some(w) = self.input_picker.close() {
                    actions.push(StudioAction::ClosePickerWindow(w));
                }
            },
            StudioEvent::SelectInputTemplate(template) => {
                self.input_picker.select_template(template);
            },
            StudioEvent::BrowseInputMedia => {
                if let Some(t) = self.input_picker.browse_media() {
                    actions.push(StudioAction::BrowseMedia(t));
                }
            },
            StudioEvent::InputMediaPicked(path) => {
                self.input_picker.on_media_picked(path);
            },
            StudioEvent::ConfirmAddInput => {
                let (added, video) = self.confirm_add_input();
                if added {
                    if let Some(p) = video {
                        actions.push(StudioAction::PrepareVideo(p));
                    }
                    if let Some(w) = self.input_picker.close() {
                        actions.push(StudioAction::ClosePickerWindow(w));
                    }
                }
            },
            StudioEvent::AddInputPickerOpened(window_id) => {
                self.input_picker.mark_opened(window_id);
            },
            StudioEvent::MainWindowOpened(_) => {},
            StudioEvent::WindowClosed(window_id) => {
                self.input_picker.clear_window_if_closed(window_id);
                if same_window(&window_id, &self.main_window_id) {
                    actions.push(StudioAction::Exit);
                }
            },
            StudioEvent::Take(now_ms) => {
                self.queue_take(now_ms);
            },
            StudioEvent::QuickCut => {
                self.quick_cut();
            },
            StudioEvent::SetTransition(transition) => {
                self.transition = transition;
            },
            StudioEvent::SetTransitionDuration(duration) => {
                self.transition_ms = if duration < MIN_TRANSITION_MS {
                    MIN_TRANSITION_MS
                } else if duration > MAX_TRANSITION_MS {
                    MAX_TRANSITION_MS
                } else {
                    duration
                };
            },
            StudioEvent::TransitionTick(now_ms) => {
                self.update_transition_tick(now_ms);
                let targets = self.video_tick_targets();
                actions.push(StudioAction::TickVideos(targets));
            },
            StudioEvent::FileHovered(window_id) => {
                if same_window(&window_id, &self.main_window_id) {
                    self.drop_hovered = true;
                }
            },
            StudioEvent::FileDropped(window_id, path) => {
                if same_window(&window_id, &self.main_window_id) {
                    self.drop_hovered = false;
                    if let Some(p) = self.handle_file_drop(path) {
                        actions.push(StudioAction::PrepareVideo(p));
                    }
                } else if self.input_picker.is_window(window_id) {
                    self.input_picker.set_media_from_drop(path);
                }
            },
            StudioEvent::FilesHoveredLeft(window_id) => {
                if same_window(&window_id, &self.main_window_id) {
                    self.drop_hovered = false;
                }
            },
        }
        assert(action_views(actions@) =~= update_spec(old(self)@, e).1);
        actions
    }
}

/// Adding a source that no slot plays keeps the slots' files distinct.
proof fn lemma_add_keeps_distinct(slots: Seq<ClipSourceView>, i: int, src: ClipSourceView)
    requires
        files_distinct(slots),
        0 <= i <= slots.len(),
        i < slots.len() ==> slots[i] is Black,
        src matches ClipSourceView::File(f) ==> !path_in_use(slots, f.path),
    ensures
        files_distinct(if i < slots.len() { slots.update(i, src) } else { slots.push(src) }),
{
    let t = if i < slots.len() { slots.update(i, src) } else { slots.push(src) };
    assert forall|a: int, b: int|
        0 <= a < t.len() && 0 <= b < t.len() && a != b && (t[a] is File) && (t[b] is File)
        implies !same_path_spec((#[trigger] t[a])->File_0.path, (#[trigger] t[b])->File_0.path) by {
        if a == i {
            assert(t[b] == slots[b]);
            if same_path_spec(t[a]->File_0.path, t[b]->File_0.path) {
                assert(source_uses_path(slots[b], t[a]->File_0.path));
            }
        } else if b == i {
            assert(t[a] == slots[a]);
            if same_path_spec(t[a]->File_0.path, t[b]->File_0.path) {
                assert(source_uses_path(slots[a], t[b]->File_0.path));
            }
        } else {
            assert(t[a] == slots[a]);
            assert(t[b] == slots[b]);
        }
    }
}

/// A progress value below a whole transition stays within the scale.
proof fn lemma_progress_bound(e: int, d: int)
    requires
        0 <= e < d,
    ensures
        0 <= e * (PROGRESS_SCALE as int) / d <= PROGRESS_SCALE,
{
    assert(e * 1000 <= d * 1000) by (nonlinear_arith)
        requires
            0 <= e < d,
    ;
    assert(e * 1000 / d <= d * 1000 / d) by (nonlinear_arith)
        requires
            e * 1000 <= d * 1000,
            d > 0,
            e >= 0,
    ;
    assert(d * 1000 / d == 1000) by (nonlinear_arith)
        requires
            d > 0,
    ;
    assert(0 <= e * 1000 / d) by (nonlinear_arith)
        requires
            d > 0,
            e >= 0,
    ;
}

proof fn lemma_complete_take_wf(s: StudioView, from: ViewTarget, to: ViewTarget)
    requires
        studio_wf(s),
        target_valid(s, from),
        target_valid(s, to),
    ensures
        studio_wf(complete_take_spec(s, from, to)),
{
}

proof fn lemma_queue_take_wf(s: StudioView, now: u64)
    requires
        studio_wf(s),
    ensures
        studio_wf(queue_take_spec(s, now)),
{
    if !(s.active is Some || s.preview == s.program) && s.transition == Transition::Cut {
        lemma_complete_take_wf(s, s.program, s.preview);
    }
}

proof fn lemma_quick_cut_wf(s: StudioView)
    requires
        studio_wf(s),
    ensures
        studio_wf(quick_cut_spec(s)),
{
    let s1 = StudioView {
        transition: Transition::Cut,
        transition_ms: MIN_TRANSITION_MS,
        active: None,
        progress: 0,
        ..s
    };
    assert(studio_wf(s1));
    if s1.program != s1.preview {
        lemma_complete_take_wf(s1, s1.program, s1.preview);
    }
}

proof fn lemma_tick_wf(s: StudioView, now: u64)
    requires
        studio_wf(s),
    ensures
        studio_wf(transition_tick_spec(s, now)),
{
    match s.active {
        Some(a) => {
            let el = elapsed_ms(a.started_at_ms, now);
            if el < a.duration_ms {
                lemma_progress_bound(el, a.duration_ms as int);
            } else {
                lemma_complete_take_wf(s, a.from, a.to);
            }
        },
        None => {},
    }
}

proof fn lemma_drop_wf(s: StudioView, p: Seq<char>)
    requires
        studio_wf(s),
    ensures
        studio_wf(file_drop_spec(s, p)),
{
    if !path_in_use(s.slots, p) {
        match file_source_spec(p) {
            Some(f) => {
                lemma_first_black_bounds(s.slots);
                lemma_add_keeps_distinct(s.slots, first_black(s.slots), ClipSourceView::File(f));
            },
            None => {},
        }
    }
}

proof fn lemma_confirm_wf(s: StudioView)
    requires
        studio_wf(s),
    ensures
        build_source_spec(s.picker, s.slots) matches Some(src) ==> studio_wf(
            append_source_spec(s, src),
        ),
{
    match build_source_spec(s.picker, s.slots) {
        Some(src) => {
            lemma_add_keeps_distinct(s.slots, s.slots.len() as int, src);
        },
        None => {},
    }
}

/// Every event keeps what every studio state keeps.
#[verifier::spinoff_prover]
#[verifier::rlimit(40)]
pub proof fn lemma_update_keeps_wf(s: StudioView, e: StudioEventView)
    requires
        studio_wf(s),
    ensures
        studio_wf(update_spec(s, e).0),
{
    match e {
        StudioEventView::ConfirmAddInput => lemma_confirm_wf(s),
        StudioEventView::TransitionTick(now) => lemma_tick_wf(s, now),
        StudioEventView::Take(now) => lemma_queue_take_wf(s, now),
        StudioEventView::QuickCut => lemma_quick_cut_wf(s),
        StudioEventView::FileDropped(w, p) => {
            lemma_drop_wf(StudioView { drop_hovered: false, ..s }, p);
        },
        _ => {},
    }
}

/// What a bus draws for a source.
pub enum VisualPlan {
    Black,
    ScreenBar,
    Image(String),
    Video(String),
    Ndi,
}

/// The content of a [`VisualPlan`].
pub enum VisualPlanView {
    Black,
    ScreenBar,
    Image(Seq<char>),
    Video(Seq<char>),
    Ndi,
}

impl View for VisualPlan {
    type V = VisualPlanView;

    open spec fn view(&self) -> VisualPlanView {
        match self {
            VisualPlan::Black => VisualPlanView::Black,
            VisualPlan::ScreenBar => VisualPlanView::ScreenBar,
            VisualPlan::Image(p) => VisualPlanView::Image(p@),
            VisualPlan::Video(p) => VisualPlanView::Video(p@),
            VisualPlan::Ndi => VisualPlanView::Ndi,
        }
    }
}

/// What a bus shows about its target: a badge, an accent colour, a kind label, what to
/// draw and, for a video, the file whose player supplies frames and transport controls.
pub struct TargetSummary {
    pub badge: String,
    pub accent: Rgb,
    pub kind_label: &'static str,
    pub visual: VisualPlan,
    pub video_path: Option<String>,
}

/// The content of a [`TargetSummary`].
pub struct TargetSummaryView {
    pub badge: Seq<char>,
    pub accent: Rgb,
    pub kind_label: Seq<char>,
    pub visual: VisualPlanView,
    pub video_path: Option<Seq<char>>,
}

impl View for TargetSummary {
    type V = TargetSummaryView;

    open spec fn view(&self) -> TargetSummaryView {
        TargetSummaryView {
            badge: self.badge@,
            accent: self.accent,
            kind_label: self.kind_label@,
            visual: self.visual@,
            video_path: match self.video_path {
                Some(p) => Some(p@),
                None => None,
            },
        }
    }
}

/// What to draw for a source.
pub open spec fn visual_of(src: ClipSourceView) -> VisualPlanView {
    match src {
        ClipSourceView::Black => VisualPlanView::Black,
        ClipSourceView::ScreenBar => VisualPlanView::ScreenBar,
        ClipSourceView::File(f) => match f.kind {
            FileMediaKind::Image => VisualPlanView::Image(f.path),
            FileMediaKind::Video => VisualPlanView::Video(f.path),
        },
        ClipSourceView::Ndi { .. } => VisualPlanView::Ndi,
    }
}

/// What a bus shows about a target. Scenes and slots are numbered from one in badges.
pub open spec fn describe_spec(s: StudioView, t: ViewTarget) -> TargetSummaryView {
    match t {
        ViewTarget::Scene(i) => TargetSummaryView {
            badge: if i < s.scenes.len() {
                s.scenes[i as int]
            } else {
                "Scene "@ + decimal((i + 1) as nat)
            },
            accent: rgb(236, 137, 35),
            kind_label: "SCENE"@,
            visual: VisualPlanView::Black,
            video_path: None,
        },
        ViewTarget::Clip(i) => if i < s.slots.len() {
            TargetSummaryView {
                badge: "Clip "@ + decimal((i + 1) as nat),
                accent: source_accent(s.slots[i as int]),
                kind_label: source_kind_label(s.slots[i as int]),
                visual: visual_of(s.slots[i as int]),
                video_path: video_path_of(s.slots[i as int]),
            }
        } else {
            TargetSummaryView {
                badge: "Clip"@,
                accent: rgb(118, 126, 139),
                kind_label: "FILE"@,
                visual: VisualPlanView::Black,
                video_path: None,
            }
        },
    }
}

/// What to draw for a source.
pub fn describe_visual(source: &ClipSource) -> (r: VisualPlan)
    ensures
        r@ == visual_of(source@),
{
    match source {
        ClipSource::Black => VisualPlan::Black,
        ClipSource::ScreenBar => VisualPlan::ScreenBar,
        ClipSource::File(file) => match file.kind {
            FileMediaKind::Image => VisualPlan::Image(file.path.clone()),
            FileMediaKind::Video => VisualPlan::Video(file.path.clone()),
        },
        ClipSource::Ndi { .. } => VisualPlan::Ndi,
    }
}

impl Studio {
    /// What a bus shows about `target`.
    pub fn describe_target(&self, target: ViewTarget) -> (r: TargetSummary)
        requires
            target matches ViewTarget::Scene(i) ==> i < usize::MAX,
        ensures
            r@ == describe_spec(self@, target),
    {
        match target {
            ViewTarget::Scene(index) => {
                let badge = if index < self.scenes.len() {
                    self.scenes[index].name.clone()
                } else {
                    let mut b = crate::text::owned("Scene ");
                    crate::text::push_decimal(&mut b, index + 1);
                    b
                };
                TargetSummary {
                    badge,
                    accent: Rgb { r: 236, g: 137, b: 35 },
                    kind_label: "SCENE",
                    visual: VisualPlan::Black,
                    video_path: None,
                }
            },
            ViewTarget::Clip(index) => {
                if index < self.clip_slots.len() {
                    let slot = &self.clip_slots[index];
                    let mut badge = crate::text::owned("Clip ");
                    crate::text::push_decimal(&mut badge, index + 1);
                    TargetSummary {
                        badge,
                        accent: slot.source.accent(),
                        kind_label: slot.source.kind_label(),
                        visual: describe_visual(&slot.source),
                        video_path: video_path_of_source(&slot.source),
                    }
                } else {
                    TargetSummary {
                        badge: crate::text::owned("Clip"),
                        accent: Rgb { r: 118, g: 126, b: 139 },
                        kind_label: "FILE",
                        visual: VisualPlan::Black,
                        video_path: None,
                    }
                }
            },
        }
    }
}

/// Two quick cuts put both buses back where they were.
pub proof fn law_quick_cut_twice_restores_buses(s: StudioView)
    requires
        studio_wf(s),
    ensures
        quick_cut_spec(quick_cut_spec(s)).program == s.program,
        quick_cut_spec(quick_cut_spec(s)).preview == s.preview,
{
}

/// A quick cut puts preview on program and program on preview.
pub proof fn law_quick_cut_swaps_buses(s: StudioView)
    requires
        studio_wf(s),
    ensures
        quick_cut_spec(s).program == s.preview,
        quick_cut_spec(s).preview == s.program,
        quick_cut_spec(s).active is None,
{
}

/// With the cut transition selected and no transition running, TAKE swaps the buses at
/// once, and a second TAKE swaps them back.
pub proof fn law_cut_take_swaps_buses(s: StudioView, t1: u64, t2: u64)
    requires
        studio_wf(s),
        s.transition == Transition::Cut,
        s.active is None,
    ensures
        queue_take_spec(s, t1).program == s.preview,
        queue_take_spec(s, t1).preview == s.program,
        queue_take_spec(queue_take_spec(s, t1), t2).program == s.program,
        queue_take_spec(queue_take_spec(s, t1), t2).preview == s.preview,
{
}

/// A TAKE with any other transition starts it, and a frame tick once its length has
/// passed completes it: the buses are swapped and no transition runs.
pub proof fn law_transition_take_completes(s: StudioView, start: u64, now: u64)
    requires
        studio_wf(s),
        s.transition != Transition::Cut,
        s.active is None,
        s.preview != s.program,
        now >= start + effective_duration(s.transition_ms),
    ensures
        queue_take_spec(s, start).active is Some,
        queue_take_spec(s, start).program == s.program,
        transition_tick_spec(queue_take_spec(s, start), now).program == s.preview,
        transition_tick_spec(queue_take_spec(s, start), now).preview == s.program,
        transition_tick_spec(queue_take_spec(s, start), now).active is None,
        transition_tick_spec(queue_take_spec(s, start), now).progress == 0,
{
}

/// Before its length has passed, a transition keeps running and the buses stay put.
pub proof fn law_transition_runs_until_its_length(s: StudioView, start: u64, now: u64)
    requires
        studio_wf(s),
        s.transition != Transition::Cut,
        s.active is None,
        s.preview != s.program,
        start <= now < start + effective_duration(s.transition_ms),
    ensures
        transition_tick_spec(queue_take_spec(s, start), now).program == s.program,
        transition_tick_spec(queue_take_spec(s, start), now).preview == s.preview,
        transition_tick_spec(queue_take_spec(s, start), now).active is Some,
{
}

/// Ticks without a transition in progress leave the buses as they are.
pub proof fn law_idle_tick_keeps_buses(s: StudioView, now: u64)
    requires
        s.active is None,
    ensures
        transition_tick_spec(s, now).program == s.program,
        transition_tick_spec(s, now).preview == s.preview,
        transition_tick_spec(s, now).slots == s.slots,
{
}

/// Dropping the same file twice has the effect of dropping it once.
pub proof fn law_file_drop_idempotent(s: StudioView, path: Seq<char>)
    ensures
        file_drop_spec(file_drop_spec(s, path), path) == file_drop_spec(s, path),
{
    if !path_in_use(s.slots, path) {
        match file_source_spec(path) {
            Some(f) => {
                let s1 = file_drop_spec(s, path);
                lemma_first_black_bounds(s.slots);
                let i = first_black(s.slots);
                if i < s.slots.len() {
                    assert(s1.slots[i] == ClipSourceView::File(f));
                    assert(source_uses_path(s1.slots[i], path));
                } else {
                    assert(s1.slots[s.slots.len() as int] == ClipSourceView::File(f));
                    assert(source_uses_path(s1.slots[s.slots.len() as int], path));
                }
            },
            None => {},
        }
    }
}

proof fn lemma_loaded_count_push(slots: Seq<ClipSourceView>, src: ClipSourceView)
    ensures
        loaded_count(slots.push(src)) == loaded_count(slots) + if src is Black {
            0nat
        } else {
            1nat
        },
{
    assert(slots.push(src).drop_last() == slots);
}

proof fn lemma_loaded_count_fill(slots: Seq<ClipSourceView>, i: int, src: ClipSourceView)
    requires
        0 <= i < slots.len(),
        slots[i] is Black,
        !(src is Black),
    ensures
        loaded_count(slots.update(i, src)) == loaded_count(slots) + 1,
    decreases slots.len(),
{
    let u = slots.update(i, src);
    if i == slots.len() - 1 {
        assert(u.drop_last() == slots.drop_last());
    } else {
        lemma_loaded_count_fill(slots.drop_last(), i, src);
        assert(u.drop_last() == slots.drop_last().update(i, src));
    }
}

/// A dropped media file that no slot plays yet loads exactly one more slot; any other
/// drop leaves the number of loaded slots as it was.
pub proof fn law_file_drop_loads_one_slot(s: StudioView, path: Seq<char>)
    ensures
        loaded_count(file_drop_spec(s, path).slots) == loaded_count(s.slots) + if !path_in_use(
            s.slots,
            path,
        ) && file_source_spec(path) is Some {
            1nat
        } else {
            0nat
        },
{
    if !path_in_use(s.slots, path) {
        match file_source_spec(path) {
            Some(f) => {
                lemma_first_black_bounds(s.slots);
                let i = first_black(s.slots);
                if i < s.slots.len() {
                    lemma_loaded_count_fill(s.slots, i, ClipSourceView::File(f));
                } else {
                    lemma_loaded_count_push(s.slots, ClipSourceView::File(f));
                }
            },
            None => {},
        }
    }
}

/// A TAKE that starts a transition runs the selected one: from what program shows to
/// what preview shows, of the selected kind and length, started at the TAKE's time, with
/// no progress yet and both buses unchanged until it completes.
pub proof fn law_take_runs_selected_transition(s: StudioView, t: u64)
    requires
        studio_wf(s),
        s.active is None,
        s.preview != s.program,
        s.transition != Transition::Cut,
    ensures
        update_spec(s, StudioEventView::Take(t)).0.active == Some(
            ActiveTransition {
                from: s.program,
                to: s.preview,
                mode: s.transition,
                started_at_ms: t,
                duration_ms: s.transition_ms,
            },
        ),
        update_spec(s, StudioEventView::Take(t)).0.progress == 0,
        update_spec(s, StudioEventView::Take(t)).0.program == s.program,
        update_spec(s, StudioEventView::Take(t)).0.preview == s.preview,
        update_spec(s, StudioEventView::Take(t)).0.transition == s.transition,
{
}

impl Default for Studio {
    /// The studio as it starts, for a main window with a fresh identifier.
    fn default() -> (r: Studio)
        ensures
            r@ == initial_studio(r@.main_window_id),
            studio_wf(r@),
    {
        Studio::with_main_window(crate::windows::unique_window_id())
    }
}

/// The badge of the program bus during a transition: both badges, shortened to twelve
/// characters, joined by an arrow.
pub fn transition_badge(from: &str, to: &str) -> (r: String)
    ensures
        r@ == crate::text::compact_spec(from@, 12) + " -> "@ + crate::text::compact_spec(to@, 12),
{
    let mut s = crate::text::compact_name(from, 12);
    s.append(" -> ");
    let t = crate::text::compact_name(to, 12);
    s.append(t.as_str());
    s
}

/// The video file a source plays, if it plays one.
pub fn video_path_of_source(source: &ClipSource) -> (r: Option<String>)
    ensures
        match r {
            Some(p) => video_path_of(source@) == Some(p@),
            None => video_path_of(source@) is None,
        },
{
    match source {
        ClipSource::File(file) => if file.kind == FileMediaKind::Video {
            Some(file.path.clone())
        } else {
            None
        },
        _ => None,
    }
}

} // verus!
