use vstd::prelude::*;

use iced::window;

use crate::windows::same_window;

use crate::model::{
    file_source_spec, template_accepts, template_is_media, ClipSlot, ClipSource, ClipSourceView,
    FileMediaKind, FileSource, InputTemplate, source_uses_path,
};

verus! {

/// State of the "Add Input" picker: which window shows it, which template is
/// selected and which media file is chosen.
pub struct InputPickerState {
    window_id: Option<window::Id>,
    selection: InputTemplate,
    media_path: Option<String>,
}

/// The content of an [`InputPickerState`].
pub struct InputPickerView {
    pub window_id: Option<window::Id>,
    pub selection: InputTemplate,
    pub media_path: Option<Seq<char>>,
}

impl View for InputPickerState {
    type V = InputPickerView;

    closed spec fn view(&self) -> InputPickerView {
        InputPickerView {
            window_id: self.window_id,
            selection: self.selection,
            media_path: match self.media_path {
                Some(p) => Some(p@),
                None => None,
            },
        }
    }
}

/// Whether some slot plays the file at `path`.
pub open spec fn path_in_use(slots: Seq<ClipSourceView>, path: Seq<char>) -> bool {
    exists|i: int| 0 <= i < slots.len() && source_uses_path(#[trigger] slots[i], path)
}

/// The views of a list of slots.
pub open spec fn slot_views(slots: Seq<ClipSlot>) -> Seq<ClipSourceView> {
    slots.map_values(|s: ClipSlot| s@)
}

/// Whether the picker lets the user confirm.
pub open spec fn can_confirm_spec(p: InputPickerView) -> bool {
    template_is_media(p.selection) ==> p.media_path is Some
}

/// The source the picker builds, given the sources already in the bank.
pub open spec fn build_source_spec(p: InputPickerView, slots: Seq<ClipSourceView>) -> Option<
    ClipSourceView,
> {
    match p.selection {
        InputTemplate::Black => Some(ClipSourceView::Black),
        InputTemplate::ScreenBar => Some(ClipSourceView::ScreenBar),
        InputTemplate::Video | InputTemplate::Photo => match p.media_path {
            None => None,
            Some(path) => if path_in_use(slots, path) {
                None
            } else {
                match file_source_spec(path) {
                    Some(f) => if template_accepts(p.selection, f.kind) {
                        Some(ClipSourceView::File(f))
                    } else {
                        None
                    },
                    None => None,
                }
            },
        },
    }
}

/// The template that matches a dropped file of the given kind.
pub open spec fn template_for_kind(kind: FileMediaKind) -> InputTemplate {
    if kind == FileMediaKind::Video {
        InputTemplate::Video
    } else {
        InputTemplate::Photo
    }
}

/// Selecting a template; a template without media drops the chosen file.
pub open spec fn select_template_spec(p: InputPickerView, template: InputTemplate) -> InputPickerView {
    InputPickerView {
        selection: template,
        media_path: if template_is_media(template) {
            p.media_path
        } else {
            None
        },
        ..p
    }
}

/// A file dropped on the picker: a media file selects the matching template and becomes
/// the chosen file; any other file changes nothing.
pub open spec fn media_drop_spec(p: InputPickerView, path: Seq<char>) -> InputPickerView {
    match file_source_spec(path) {
        Some(f) => InputPickerView {
            selection: template_for_kind(f.kind),
            media_path: Some(path),
            ..p
        },
        None => p,
    }
}

/// The result of a file dialog: the file becomes the chosen one when the selected
/// template accepts its kind; otherwise no file is chosen.
pub open spec fn media_picked_spec(p: InputPickerView, path: Option<Seq<char>>) -> InputPickerView {
    InputPickerView {
        media_path: match path {
            Some(q) => match file_source_spec(q) {
                Some(f) => if template_accepts(p.selection, f.kind) {
                    Some(q)
                } else {
                    None
                },
                None => None,
            },
            None => None,
        },
        ..p
    }
}

impl Default for InputPickerState {
    fn default() -> (r: Self)
        ensures
            r@ == (InputPickerView {
                window_id: None,
                selection: InputTemplate::Video,
                media_path: None,
            }),
    {
        InputPickerState { window_id: None, selection: InputTemplate::Video, media_path: None }
    }
}

impl InputPickerState {
    /// Whether `window_id` is the picker's window.
    pub fn is_window(&self, window_id: window::Id) -> (r: bool)
        ensures
            r == (self@.window_id == Some(window_id)),
    {
        match &self.window_id {
            Some(id) => same_window(id, &window_id),
            None => false,
        }
    }

    /// The selected template.
    pub fn selection(&self) -> (r: InputTemplate)
        ensures
            r == self@.selection,
    {
        self.selection
    }

    /// The chosen media file, if any.
    pub fn media_path(&self) -> (r: Option<&str>)
        ensures
            match r {
                Some(p) => self@.media_path == Some(p@),
                None => self@.media_path is None,
            },
    {
        match &self.media_path {
            Some(p) => Some(p.as_str()),
            None => None,
        }
    }

    /// Whether the picker holds enough to add an input.
    pub fn can_confirm(&self) -> (r: bool)
        ensures
            r == can_confirm_spec(self@),
    {
        if self.selection.is_media() {
            self.media_path.is_some()
        } else {
            true
        }
    }

    /// Selects a template; a template without media drops the chosen file.
    pub fn select_template(&mut self, template: InputTemplate)
        ensures
            final(self)@ == select_template_spec(old(self)@, template),
    {
        self.selection = template;
        if !template.is_media() {
            self.media_path = None;
        }
    }

    /// Records the window that shows the picker.
    pub fn mark_opened(&mut self, window_id: window::Id)
        ensures
            final(self)@ == (InputPickerView { window_id: Some(window_id), ..old(self)@ }),
    {
        self.window_id = Some(window_id);
    }

    /// Forgets the picker's window when that window is the one closed.
    pub fn clear_window_if_closed(&mut self, window_id: window::Id)
        ensures
            final(self)@ == (if old(self)@.window_id == Some(window_id) {
                InputPickerView { window_id: None, ..old(self)@ }
            } else {
                old(self)@
            }),
    {
        if self.is_window(window_id) {
            self.window_id = None;
        }
    }

    /// Prepares the picker to be shown. Returns `false`, changing nothing, when it is
    /// already shown; otherwise resets the selection and returns `true`: the caller then
    /// opens a window and records it with [`InputPickerState::mark_opened`].
    pub fn open(&mut self) -> (opened: bool)
        ensures
            opened == (old(self)@.window_id is None),
            final(self)@ == (if opened {
                InputPickerView { selection: InputTemplate::Video, media_path: None, ..old(self)@ }
            } else {
                old(self)@
            }),
    {
        if self.window_id.is_some() {
            return false;
        }
        self.selection = InputTemplate::Video;
        self.media_path = None;
        true
    }

    /// Forgets the picker's window and returns it, for the caller to close.
    pub fn close(&mut self) -> (r: Option<window::Id>)
        ensures
            r == old(self)@.window_id,
            final(self)@ == (InputPickerView { window_id: None, ..old(self)@ }),
    {
        let r = self.window_id;
        self.window_id = None;
        r
    }

    /// The template to browse media for, when the selected template takes media.
    pub fn browse_media(&self) -> (r: Option<InputTemplate>)
        ensures
            r == (if template_is_media(self@.selection) {
                Some(self@.selection)
            } else {
                None
            }),
    {
        if !self.selection.is_media() {
            return None;
        }
        Some(self.selection)
    }

    /// Takes a file dropped on the picker: a media file selects the matching template
    /// and becomes the chosen file; any other file is ignored.
    pub fn set_media_from_drop(&mut self, path: String)
        ensures
            final(self)@ == media_drop_spec(old(self)@, path@),
    {
        let source = match FileSource::from_path(path.clone()) {
            Some(s) => s,
            None => return,
        };
        self.selection = if source.kind == FileMediaKind::Video {
            InputTemplate::Video
        } else {
            InputTemplate::Photo
        };
        self.media_path = Some(path);
    }

    /// Takes the result of a file dialog: the file becomes the chosen one when the
    /// selected template accepts its kind; otherwise no file is chosen.
    pub fn on_media_picked(&mut self, path: Option<String>)
        ensures
            final(self)@ == media_picked_spec(
                old(self)@,
                match path {
                    Some(p) => Some(p@),
                    None => None,
                },
            ),
    {
        self.media_path = match path {
            None => None,
            Some(picked) => match FileSource::from_path(picked.clone()) {
                None => None,
                Some(source) => if self.selection.accepts_kind(source.kind) {
                    Some(picked)
                } else {
                    None
                },
            },
        };
    }

    /// The source to add for the current choice, or `None` when the choice is incomplete,
    /// not a known media file, of the wrong kind, or a file some slot already plays.
    pub fn build_source(&self, slots: &Vec<ClipSlot>) -> (r: Option<ClipSource>)
        ensures
            match r {
                Some(s) => build_source_spec(self@, slot_views(slots@)) == Some(s@),
                None => build_source_spec(self@, slot_views(slots@)) is None,
            },
    {
        match self.selection {
            InputTemplate::Black => Some(ClipSource::black()),
            InputTemplate::ScreenBar => Some(ClipSource::ScreenBar),
            InputTemplate::Video | InputTemplate::Photo => {
                let path = match &self.media_path {
                    Some(p) => p,
                    None => return None,
                };
                if any_slot_uses(slots, path.as_str()) {
                    return None;
                }
                let source = match FileSource::from_path(path.clone()) {
                    Some(s) => s,
                    None => return None,
                };
                if !self.selection.accepts_kind(source.kind) {
                    return None;
                }
                Some(ClipSource::File(source))
            },
        }
    }
}

/// A media file dropped on the picker can be confirmed at once, and it builds the file
/// source for that file unless a slot already plays it.
pub proof fn law_dropped_media_is_confirmable(
    p: InputPickerView,
    path: Seq<char>,
    slots: Seq<ClipSourceView>,
)
    requires
        file_source_spec(path) is Some,
    ensures
        can_confirm_spec(media_drop_spec(p, path)),
        build_source_spec(media_drop_spec(p, path), slots) == if path_in_use(slots, path) {
            None
        } else {
            Some(ClipSourceView::File(file_source_spec(path).unwrap()))
        },
{
}

/// The picker never builds a source for a file that a slot already plays.
pub proof fn law_built_source_is_new(p: InputPickerView, slots: Seq<ClipSourceView>)
    ensures
        build_source_spec(p, slots) matches Some(ClipSourceView::File(f)) ==> !path_in_use(
            slots,
            f.path,
        ),
{
}

/// Templates without media always build their fixed source.
pub proof fn law_plain_templates_always_build(p: InputPickerView, slots: Seq<ClipSourceView>)
    ensures
        p.selection == InputTemplate::Black ==> build_source_spec(p, slots) == Some(
            ClipSourceView::Black,
        ),
        p.selection == InputTemplate::ScreenBar ==> build_source_spec(p, slots) == Some(
            ClipSourceView::ScreenBar,
        ),
{
}

/// Whether some slot plays the file at `path`.
pub fn any_slot_uses(slots: &Vec<ClipSlot>, path: &str) -> (r: bool)
    ensures
        r == path_in_use(slot_views(slots@), path@),
{
    let ghost views = slot_views(slots@);
    for i in 0..slots.len()
        invariant
            views == slot_views(slots@),
            forall|k: int| 0 <= k < i ==> !source_uses_path(#[trigger] views[k], path@),
    {
        if slots[i].source.uses_path(path) {
            assert(source_uses_path(views[i as int], path@));
            return true;
        }
    }
    false
}

/// A picked media file becomes the chosen file exactly when the selected template takes
/// its kind: the Video template takes video files, the Photo template takes image
/// files, and the other templates take either. Anything else leaves no file chosen, and
/// the selection stays as it was.
pub proof fn law_picked_media_fits_template(p: InputPickerView, q: Seq<char>)
    ensures
        media_picked_spec(p, Some(q)).selection == p.selection,
        media_picked_spec(p, None).media_path is None,
        file_source_spec(q) is None ==> media_picked_spec(p, Some(q)).media_path is None,
        file_source_spec(q) matches Some(f) ==> (media_picked_spec(p, Some(q)).media_path == Some(q)
            <==> ((p.selection == InputTemplate::Video ==> f.kind == FileMediaKind::Video) && (
        p.selection == InputTemplate::Photo ==> f.kind == FileMediaKind::Image))),
{
}

} // verus!
