use vstd::prelude::*;

use crate::paths::{extension, extension_spec, file_name, file_name_spec, same_path, same_path_spec};
use crate::text::{
    ascii_lower, chars_of, decimal, owned, push_decimal, range_equals,
    to_ascii_lowercase,
};

verus! {

/// How the program bus changes over to the preview source.
#[derive(Debug, Clone, Copy, PartialEq, Eq, Structural)]
pub enum Transition {
    Cut,
    Fade,
    Wipe,
    Zoom,
}

/// The name shown for a transition.
pub open spec fn transition_label(t: Transition) -> Seq<char> {
    match t {
        Transition::Cut => "Cut"@,
        Transition::Fade => "Fade"@,
        Transition::Wipe => "Wipe"@,
        Transition::Zoom => "Zoom"@,
    }
}

impl Transition {
    /// Every transition, in the order the picker lists them.
    pub const ALL: [Transition; 4] = [
        Transition::Cut,
        Transition::Fade,
        Transition::Wipe,
        Transition::Zoom,
    ];

    /// The name shown for this transition.
    pub fn label(self) -> (r: &'static str)
        ensures
            r@ == transition_label(self),
    {
        match self {
            Transition::Cut => "Cut",
            Transition::Fade => "Fade",
            Transition::Wipe => "Wipe",
            Transition::Zoom => "Zoom",
        }
    }
}

/// What a bus shows: one of the scenes or one of the clip slots, by index.
#[derive(Debug, Clone, Copy, PartialEq, Eq, Structural)]
pub enum ViewTarget {
    Scene(usize),
    Clip(usize),
}

/// The kinds of input the "Add Input" picker offers.
#[derive(Debug, Clone, Copy, PartialEq, Eq, Structural)]
pub enum InputTemplate {
    Video,
    Photo,
    Black,
    ScreenBar,
}

/// Kind of media file a source plays.
#[derive(Debug, Clone, Copy, PartialEq, Eq, Structural)]
pub enum FileMediaKind {
    Image,
    Video,
}

/// An 8-bit-per-channel colour.
#[derive(Debug, Clone, Copy, PartialEq, Eq, Structural)]
pub struct Rgb {
    pub r: u8,
    pub g: u8,
    pub b: u8,
}

/// The colour with the given channels.
pub open spec fn rgb(r: u8, g: u8, b: u8) -> Rgb {
    Rgb { r, g, b }
}

pub open spec fn template_icon(t: InputTemplate) -> Seq<char> {
    match t {
        InputTemplate::Video => "film"@,
        InputTemplate::Photo => "image"@,
        InputTemplate::Black => "square"@,
        InputTemplate::ScreenBar => "bars"@,
    }
}

pub open spec fn template_title(t: InputTemplate) -> Seq<char> {
    match t {
        InputTemplate::Video => "Video"@,
        InputTemplate::Photo => "Photo"@,
        InputTemplate::Black => "Black Content"@,
        InputTemplate::ScreenBar => "Screen Bar"@,
    }
}

pub open spec fn template_description(t: InputTemplate) -> Seq<char> {
    match t {
        InputTemplate::Video => "Load a video file"@,
        InputTemplate::Photo => "Load an image file"@,
        InputTemplate::Black => "Solid black frame"@,
        InputTemplate::ScreenBar => "Color bars test pattern"@,
    }
}

pub open spec fn template_prompt(t: InputTemplate) -> Seq<char> {
    match t {
        InputTemplate::Video => "Select a video file to add as input."@,
        InputTemplate::Photo => "Select an image file to add as input."@,
        InputTemplate::Black => "Add a black input source."@,
        InputTemplate::ScreenBar => "Add a color bars test source."@,
    }
}

/// Templates that need a media file.
pub open spec fn template_is_media(t: InputTemplate) -> bool {
    t == InputTemplate::Video || t == InputTemplate::Photo
}

/// Whether a template takes a file of the given kind.
pub open spec fn template_accepts(t: InputTemplate, kind: FileMediaKind) -> bool {
    match t {
        InputTemplate::Video => kind == FileMediaKind::Video,
        InputTemplate::Photo => kind == FileMediaKind::Image,
        InputTemplate::Black | InputTemplate::ScreenBar => true,
    }
}

impl InputTemplate {
    /// Every template, in the order the picker lists them.
    pub const ALL: [InputTemplate; 4] = [
        InputTemplate::Video,
        InputTemplate::Photo,
        InputTemplate::Black,
        InputTemplate::ScreenBar,
    ];

    /// Icon name of the template.
    pub fn icon(self) -> (r: &'static str)
        ensures
            r@ == template_icon(self),
    {
        match self {
            InputTemplate::Video => "film",
            InputTemplate::Photo => "image",
            InputTemplate::Black => "square",
            InputTemplate::ScreenBar => "bars",
        }
    }

    /// Title of the template.
    pub fn title(self) -> (r: &'static str)
        ensures
            r@ == template_title(self),
    {
        match self {
            InputTemplate::Video => "Video",
            InputTemplate::Photo => "Photo",
            InputTemplate::Black => "Black Content",
            InputTemplate::ScreenBar => "Screen Bar",
        }
    }

    /// One-line description of the template.
    pub fn description(self) -> (r: &'static str)
        ensures
            r@ == template_description(self),
    {
        match self {
            InputTemplate::Video => "Load a video file",
            InputTemplate::Photo => "Load an image file",
            InputTemplate::Black => "Solid black frame",
            InputTemplate::ScreenBar => "Color bars test pattern",
        }
    }

    /// What the picker asks of the user for this template.
    pub fn prompt(self) -> (r: &'static str)
        ensures
            r@ == template_prompt(self),
    {
        match self {
            InputTemplate::Video => "Select a video file to add as input.",
            InputTemplate::Photo => "Select an image file to add as input.",
            InputTemplate::Black => "Add a black input source.",
            InputTemplate::ScreenBar => "Add a color bars test source.",
        }
    }

    /// Whether the template needs a media file.
    pub fn is_media(self) -> (r: bool)
        ensures
            r == template_is_media(self),
    {
        match self {
            InputTemplate::Video | InputTemplate::Photo => true,
            _ => false,
        }
    }

    /// Whether the template takes a file of the given kind.
    pub fn accepts_kind(self, kind: FileMediaKind) -> (r: bool)
        ensures
            r == template_accepts(self, kind),
    {
        match self {
            InputTemplate::Video => kind == FileMediaKind::Video,
            InputTemplate::Photo => kind == FileMediaKind::Image,
            InputTemplate::Black | InputTemplate::ScreenBar => true,
        }
    }
}

/// A named scene.
#[derive(Debug, Clone)]
pub struct Scene {
    pub name: String,
}

impl FileMediaKind {
    /// Icon name of the kind.
    pub fn icon(self) -> (r: &'static str)
        ensures
            r@ == (match self {
                FileMediaKind::Image => "image"@,
                FileMediaKind::Video => "film"@,
            }),
    {
        match self {
            FileMediaKind::Image => "image",
            FileMediaKind::Video => "film",
        }
    }

    /// Upper-case label of the kind.
    pub fn label(self) -> (r: &'static str)
        ensures
            r@ == (match self {
                FileMediaKind::Image => "IMAGE"@,
                FileMediaKind::Video => "VIDEO"@,
            }),
    {
        match self {
            FileMediaKind::Image => "IMAGE",
            FileMediaKind::Video => "VIDEO",
        }
    }

    /// Accent colour of the kind.
    pub fn accent(self) -> (r: Rgb)
        ensures
            r == (match self {
                FileMediaKind::Image => rgb(130, 86, 192),
                FileMediaKind::Video => rgb(45, 141, 203),
            }),
    {
        match self {
            FileMediaKind::Image => Rgb { r: 130, g: 86, b: 192 },
            FileMediaKind::Video => Rgb { r: 45, g: 141, b: 203 },
        }
    }
}

/// Extensions of image files, in lower case.
pub open spec fn is_image_extension(e: Seq<char>) -> bool {
    e == "jpg"@ || e == "jpeg"@ || e == "png"@ || e == "bmp"@ || e == "webp"@ || e == "gif"@
        || e == "svg"@
}

/// Extensions of video files, in lower case.
pub open spec fn is_video_extension(e: Seq<char>) -> bool {
    e == "mp4"@ || e == "mov"@ || e == "mkv"@ || e == "webm"@ || e == "avi"@ || e == "m4v"@
}

/// The media kind a path's extension names, compared without regard to ASCII case.
pub open spec fn classify_spec(path: Seq<char>) -> Option<FileMediaKind> {
    match extension_spec(path) {
        Some(e) => if is_image_extension(ascii_lower(e)) {
            Some(FileMediaKind::Image)
        } else if is_video_extension(ascii_lower(e)) {
            Some(FileMediaKind::Video)
        } else {
            None
        },
        None => None,
    }
}

/// The media kind of a file, read from its extension.
pub fn classify_file_kind(path: &str) -> (r: Option<FileMediaKind>)
    ensures
        r == classify_spec(path@),
{
    let ext = match extension(path) {
        Some(e) => e,
        None => return None,
    };
    let chars = chars_of(ext.as_str());
    let lower = to_ascii_lowercase(&chars);
    let n = lower.len();
    assert(lower@.subrange(0, n as int) == lower@);
    if range_equals(&lower, 0, n, "jpg") || range_equals(&lower, 0, n, "jpeg") || range_equals(
        &lower,
        0,
        n,
        "png",
    ) || range_equals(&lower, 0, n, "bmp") || range_equals(&lower, 0, n, "webp")
        || range_equals(&lower, 0, n, "gif") || range_equals(&lower, 0, n, "svg") {
        Some(FileMediaKind::Image)
    } else if range_equals(&lower, 0, n, "mp4") || range_equals(&lower, 0, n, "mov")
        || range_equals(&lower, 0, n, "mkv") || range_equals(&lower, 0, n, "webm")
        || range_equals(&lower, 0, n, "avi") || range_equals(&lower, 0, n, "m4v") {
        Some(FileMediaKind::Video)
    } else {
        None
    }
}

/// A media file that feeds a clip slot.
#[derive(Debug, Clone, PartialEq, Eq)]
pub struct FileSource {
    pub name: String,
    pub path: String,
    pub kind: FileMediaKind,
}

/// The content of a [`FileSource`].
pub struct FileSourceView {
    pub name: Seq<char>,
    pub path: Seq<char>,
    pub kind: FileMediaKind,
}

impl View for FileSource {
    type V = FileSourceView;

    open spec fn view(&self) -> FileSourceView {
        FileSourceView { name: self.name@, path: self.path@, kind: self.kind }
    }
}

/// The name shown for a file: its file name, or the whole path when it has none.
pub open spec fn display_name(path: Seq<char>) -> Seq<char> {
    match file_name_spec(path) {
        Some(n) => n,
        None => path,
    }
}

/// The file source a path stands for, when its extension names a known media kind.
pub open spec fn file_source_spec(path: Seq<char>) -> Option<FileSourceView> {
    match classify_spec(path) {
        Some(kind) => Some(FileSourceView { name: display_name(path), path, kind }),
        None => None,
    }
}

impl FileSource {
    /// The source for `path`, or `None` when its extension is not a known media kind.
    pub fn from_path(path: String) -> (r: Option<Self>)
        ensures
            match r {
                Some(f) => file_source_spec(path@) == Some(f@),
                None => file_source_spec(path@) is None,
            },
    {
        let kind = match classify_file_kind(path.as_str()) {
            Some(k) => k,
            None => return None,
        };
        let name = match file_name(path.as_str()) {
            Some(n) => n,
            None => path.clone(),
        };
        Some(FileSource { name, path, kind })
    }
}

/// What a clip slot plays.
#[derive(Debug, Clone, PartialEq, Eq)]
pub enum ClipSource {
    Black,
    ScreenBar,
    File(FileSource),
    Ndi { source_name: String },
}

/// The content of a [`ClipSource`].
pub enum ClipSourceView {
    Black,
    ScreenBar,
    File(FileSourceView),
    Ndi { source_name: Seq<char> },
}

impl View for ClipSource {
    type V = ClipSourceView;

    open spec fn view(&self) -> ClipSourceView {
        match self {
            ClipSource::Black => ClipSourceView::Black,
            ClipSource::ScreenBar => ClipSourceView::ScreenBar,
            ClipSource::File(f) => ClipSourceView::File(f@),
            ClipSource::Ndi { source_name } => ClipSourceView::Ndi { source_name: source_name@ },
        }
    }
}

/// Whether a source plays the file at `path`: its file's path and `path` are equal
/// component by component.
pub open spec fn source_uses_path(s: ClipSourceView, path: Seq<char>) -> bool {
    match s {
        ClipSourceView::File(f) => same_path_spec(f.path, path),
        _ => false,
    }
}

/// Upper-case label of a source's kind.
pub open spec fn source_kind_label(s: ClipSourceView) -> Seq<char> {
    match s {
        ClipSourceView::Black => "BLACK"@,
        ClipSourceView::ScreenBar => "SCREENBAR"@,
        ClipSourceView::File(f) => match f.kind {
            FileMediaKind::Image => "IMAGE"@,
            FileMediaKind::Video => "VIDEO"@,
        },
        ClipSourceView::Ndi { .. } => "NDI"@,
    }
}

/// Icon name of a source.
pub open spec fn source_icon(s: ClipSourceView) -> Seq<char> {
    match s {
        ClipSourceView::Black => "square"@,
        ClipSourceView::ScreenBar => "bars"@,
        ClipSourceView::File(f) => match f.kind {
            FileMediaKind::Image => "image"@,
            FileMediaKind::Video => "film"@,
        },
        ClipSourceView::Ndi { .. } => "tower-broadcast"@,
    }
}

/// Accent colour of a source.
pub open spec fn source_accent(s: ClipSourceView) -> Rgb {
    match s {
        ClipSourceView::Black => rgb(62, 74, 89),
        ClipSourceView::ScreenBar => rgb(204, 122, 43),
        ClipSourceView::File(f) => match f.kind {
            FileMediaKind::Image => rgb(130, 86, 192),
            FileMediaKind::Video => rgb(45, 141, 203),
        },
        ClipSourceView::Ndi { .. } => rgb(30, 146, 160),
    }
}

/// Name shown on a source's tile; `index` numbers the generated sources.
pub open spec fn source_tile_name(s: ClipSourceView, index: nat) -> Seq<char> {
    match s {
        ClipSourceView::Black => "Clip "@ + decimal(index),
        ClipSourceView::ScreenBar => "ScreenBar "@ + decimal(index),
        ClipSourceView::File(f) => f.name,
        ClipSourceView::Ndi { source_name } => source_name,
    }
}

impl ClipSource {
    /// The black source.
    pub fn black() -> (r: Self)
        ensures
            r@ == ClipSourceView::Black,
    {
        ClipSource::Black
    }

    /// The file source for `path`, or `None` when its extension is not a known media kind.
    pub fn from_path(path: String) -> (r: Option<Self>)
        ensures
            match r {
                Some(s) => file_source_spec(path@) matches Some(f) && s@ == ClipSourceView::File(f),
                None => file_source_spec(path@) is None,
            },
    {
        match FileSource::from_path(path) {
            Some(f) => Some(ClipSource::File(f)),
            None => None,
        }
    }

    /// Whether this is the black source.
    pub fn is_black(&self) -> (r: bool)
        ensures
            r == (self@ is Black),
    {
        match self {
            ClipSource::Black => true,
            _ => false,
        }
    }

    /// Whether this source plays the file at `path`.
    pub fn uses_path(&self, path: &str) -> (r: bool)
        ensures
            r == source_uses_path(self@, path@),
    {
        match self {
            ClipSource::File(file) => same_path(file.path.as_str(), path),
            _ => false,
        }
    }

    /// Icon name of the source.
    pub fn icon(&self) -> (r: &'static str)
        ensures
            r@ == source_icon(self@),
    {
        match self {
            ClipSource::Black => "square",
            ClipSource::ScreenBar => "bars",
            ClipSource::File(file) => file.kind.icon(),
            ClipSource::Ndi { .. } => "tower-broadcast",
        }
    }

    /// Upper-case label of the source's kind.
    pub fn kind_label(&self) -> (r: &'static str)
        ensures
            r@ == source_kind_label(self@),
    {
        match self {
            ClipSource::Black => "BLACK",
            ClipSource::ScreenBar => "SCREENBAR",
            ClipSource::File(file) => file.kind.label(),
            ClipSource::Ndi { .. } => "NDI",
        }
    }

    /// Accent colour of the source.
    pub fn accent(&self) -> (r: Rgb)
        ensures
            r == source_accent(self@),
    {
        match self {
            ClipSource::Black => Rgb { r: 62, g: 74, b: 89 },
            ClipSource::ScreenBar => Rgb { r: 204, g: 122, b: 43 },
            ClipSource::File(file) => file.kind.accent(),
            ClipSource::Ndi { .. } => Rgb { r: 30, g: 146, b: 160 },
        }
    }

    /// Name shown on the source's tile, numbering generated sources with `fallback_index`.
    pub fn tile_name(&self, fallback_index: usize) -> (r: String)
        ensures
            r@ == source_tile_name(self@, fallback_index as nat),
    {
        match self {
            ClipSource::Black => {
                let mut s = owned("Clip ");
                push_decimal(&mut s, fallback_index);
                s
            },
            ClipSource::ScreenBar => {
                let mut s = owned("ScreenBar ");
                push_decimal(&mut s, fallback_index);
                s
            },
            ClipSource::File(file) => file.name.clone(),
            ClipSource::Ndi { source_name } => source_name.clone(),
        }
    }
}

/// One slot of the input bank.
#[derive(Debug, Clone, PartialEq, Eq)]
pub struct ClipSlot {
    pub source: ClipSource,
}

impl View for ClipSlot {
    type V = ClipSourceView;

    open spec fn view(&self) -> ClipSourceView {
        self.source@
    }
}

impl ClipSlot {
    /// An empty (black) slot.
    pub fn black() -> (r: Self)
        ensures
            r@ == ClipSourceView::Black,
    {
        ClipSlot { source: ClipSource::black() }
    }

    /// A slot playing `source`.
    pub fn with_source(source: ClipSource) -> (r: Self)
        ensures
            r@ == source@,
    {
        ClipSlot { source }
    }

    /// Whether the slot is empty (black).
    pub fn is_black(&self) -> (r: bool)
        ensures
            r == (self@ is Black),
    {
        self.source.is_black()
    }
}

/// Names of the built-in scenes, in order.
pub open spec fn default_scene_names() -> Seq<Seq<char>> {
    seq![
        "Opening Wide"@,
        "Host Close"@,
        "Guest Split"@,
        "Lower Third"@,
        "Demo Feed"@,
        "Fullscreen Slide"@,
    ]
}

/// The built-in scenes.
pub fn default_scenes() -> (r: Vec<Scene>)
    ensures
        r@.len() == default_scene_names().len(),
        forall|i: int| 0 <= i < r@.len() ==> #[trigger] r@[i].name@ == default_scene_names()[i],
{
    let mut v: Vec<Scene> = Vec::new();
    v.push(Scene { name: owned("Opening Wide") });
    v.push(Scene { name: owned("Host Close") });
    v.push(Scene { name: owned("Guest Split") });
    v.push(Scene { name: owned("Lower Third") });
    v.push(Scene { name: owned("Demo Feed") });
    v.push(Scene { name: owned("Fullscreen Slide") });
    v
}

/// Files are recognised by their extension, in any ASCII case: jpg, jpeg, png, bmp, webp,
/// gif and svg name images; mp4, mov, mkv, webm, avi and m4v name videos; any other
/// extension, or none, names no media file.
pub proof fn law_media_extensions(p: Seq<char>, e: Seq<char>)
    requires
        extension_spec(p) == Some(e),
    ensures
        ascii_lower(e) == "jpg"@ ==> classify_spec(p) == Some(FileMediaKind::Image),
        ascii_lower(e) == "jpeg"@ ==> classify_spec(p) == Some(FileMediaKind::Image),
        ascii_lower(e) == "png"@ ==> classify_spec(p) == Some(FileMediaKind::Image),
        ascii_lower(e) == "bmp"@ ==> classify_spec(p) == Some(FileMediaKind::Image),
        ascii_lower(e) == "webp"@ ==> classify_spec(p) == Some(FileMediaKind::Image),
        ascii_lower(e) == "gif"@ ==> classify_spec(p) == Some(FileMediaKind::Image),
        ascii_lower(e) == "svg"@ ==> classify_spec(p) == Some(FileMediaKind::Image),
        ascii_lower(e) == "mp4"@ ==> classify_spec(p) == Some(FileMediaKind::Video),
        ascii_lower(e) == "mov"@ ==> classify_spec(p) == Some(FileMediaKind::Video),
        ascii_lower(e) == "mkv"@ ==> classify_spec(p) == Some(FileMediaKind::Video),
        ascii_lower(e) == "webm"@ ==> classify_spec(p) == Some(FileMediaKind::Video),
        ascii_lower(e) == "avi"@ ==> classify_spec(p) == Some(FileMediaKind::Video),
        ascii_lower(e) == "m4v"@ ==> classify_spec(p) == Some(FileMediaKind::Video),
{
    reveal_strlit("jpg");
    reveal_strlit("jpeg");
    reveal_strlit("png");
    reveal_strlit("bmp");
    reveal_strlit("webp");
    reveal_strlit("gif");
    reveal_strlit("svg");
    reveal_strlit("mp4");
    reveal_strlit("mov");
    reveal_strlit("mkv");
    reveal_strlit("webm");
    reveal_strlit("avi");
    reveal_strlit("m4v");
    assert("jpg"@ =~= seq!['j', 'p', 'g']);
    assert("jpeg"@ =~= seq!['j', 'p', 'e', 'g']);
    assert("png"@ =~= seq!['p', 'n', 'g']);
    assert("bmp"@ =~= seq!['b', 'm', 'p']);
    assert("webp"@ =~= seq!['w', 'e', 'b', 'p']);
    assert("gif"@ =~= seq!['g', 'i', 'f']);
    assert("svg"@ =~= seq!['s', 'v', 'g']);
    assert("mp4"@ =~= seq!['m', 'p', '4']);
    assert("mov"@ =~= seq!['m', 'o', 'v']);
    assert("mkv"@ =~= seq!['m', 'k', 'v']);
    assert("webm"@ =~= seq!['w', 'e', 'b', 'm']);
    assert("avi"@ =~= seq!['a', 'v', 'i']);
    assert("m4v"@ =~= seq!['m', '4', 'v']);
    if ascii_lower(e) == "mp4"@ {
        assert(!is_image_extension(ascii_lower(e)));
    }
    if ascii_lower(e) == "mov"@ {
        assert(!is_image_extension(ascii_lower(e)));
    }
    if ascii_lower(e) == "mkv"@ {
        assert(!is_image_extension(ascii_lower(e)));
    }
    if ascii_lower(e) == "webm"@ {
        assert(!is_image_extension(ascii_lower(e)));
    }
    if ascii_lower(e) == "avi"@ {
        assert(!is_image_extension(ascii_lower(e)));
    }
    if ascii_lower(e) == "m4v"@ {
        assert(!is_image_extension(ascii_lower(e)));
    }
}

} // verus!
