use vstd::prelude::*;
use vstd::utf8::{decode_utf8, valid_utf8};

use crate::model::InputTemplate;
use crate::text::{chars_of, string_from_range};

verus! {

/// Whether a character has the Unicode `White_Space` property.
pub open spec fn is_white_space(c: char) -> bool {
    ('\u{9}' <= c && c <= '\u{d}') || c == ' ' || c == '\u{85}' || c == '\u{a0}' || c
        == '\u{1680}' || ('\u{2000}' <= c && c <= '\u{200a}') || c == '\u{2028}' || c
        == '\u{2029}' || c == '\u{202f}' || c == '\u{205f}' || c == '\u{3000}'
}

/// Whether a character has the Unicode `White_Space` property.
pub fn white_space(c: char) -> (r: bool)
    ensures
        r == is_white_space(c),
{
    ('\u{9}' <= c && c <= '\u{d}') || c == ' ' || c == '\u{85}' || c == '\u{a0}' || c
        == '\u{1680}' || ('\u{2000}' <= c && c <= '\u{200a}') || c == '\u{2028}' || c
        == '\u{2029}' || c == '\u{202f}' || c == '\u{205f}' || c == '\u{3000}'
}

/// `s` without its leading white space.
pub open spec fn trim_start_spec(s: Seq<char>) -> Seq<char>
    decreases s.len(),
{
    if s.len() > 0 && is_white_space(s[0]) {
        trim_start_spec(s.drop_first())
    } else {
        s
    }
}

/// `s` without its trailing white space.
pub open spec fn trim_end_spec(s: Seq<char>) -> Seq<char>
    decreases s.len(),
{
    if s.len() > 0 && is_white_space(s.last()) {
        trim_end_spec(s.drop_last())
    } else {
        s
    }
}

/// `s` without leading and trailing white space.
pub open spec fn trim_spec(s: Seq<char>) -> Seq<char> {
    trim_end_spec(trim_start_spec(s))
}

proof fn lemma_trim_start_at(s: Seq<char>, i: int)
    requires
        0 <= i <= s.len(),
        forall|k: int| 0 <= k < i ==> is_white_space(#[trigger] s[k]),
        i < s.len() ==> !is_white_space(s[i]),
    ensures
        trim_start_spec(s) == s.subrange(i, s.len() as int),
    decreases i,
{
    if i > 0 {
        let d = s.drop_first();
        assert forall|k: int| 0 <= k < i - 1 implies is_white_space(#[trigger] d[k]) by {
            assert(d[k] == s[k + 1]);
        }
        lemma_trim_start_at(d, i - 1);
        assert(d.subrange(i - 1, d.len() as int) == s.subrange(i, s.len() as int));
    } else {
        assert(s.subrange(0, s.len() as int) == s);
    }
}

proof fn lemma_trim_end_at(s: Seq<char>, j: int)
    requires
        0 <= j <= s.len(),
        forall|k: int| j <= k < s.len() ==> is_white_space(#[trigger] s[k]),
        j > 0 ==> !is_white_space(s[j - 1]),
    ensures
        trim_end_spec(s) == s.subrange(0, j),
    decreases s.len() - j,
{
    if j < s.len() {
        let d = s.drop_last();
        lemma_trim_end_at(d, j);
        assert(d.subrange(0, j) == s.subrange(0, j));
    } else {
        assert(s.subrange(0, s.len() as int) == s);
    }
}

/// `s` without leading and trailing white space.
pub fn trim(s: &str) -> (r: String)
    ensures
        r@ == trim_spec(s@),
{
    let chars = chars_of(s);
    let n = chars.len();
    let mut i: usize = 0;
    while i < n && white_space(chars[i])
        invariant
            n == chars@.len(),
            i <= n,
            forall|k: int| 0 <= k < i ==> is_white_space(#[trigger] chars@[k]),
        decreases n - i,
    {
        i = i + 1;
    }
    proof {
        lemma_trim_start_at(chars@, i as int);
    }
    let mut j: usize = n;
    while j > i && white_space(chars[j - 1])
        invariant
            n == chars@.len(),
            i <= j <= n,
            forall|k: int| j <= k < n ==> is_white_space(#[trigger] chars@[k]),
        decreases j,
    {
        j = j - 1;
    }
    proof {
        let t = chars@.subrange(i as int, n as int);
        assert forall|k: int| j - i <= k < t.len() implies is_white_space(#[trigger] t[k]) by {
            assert(t[k] == chars@[k + i]);
        }
        if j > i {
            assert(t[j - i - 1] == chars@[j - 1]);
        }
        lemma_trim_end_at(t, j - i);
        assert(t.subrange(0, j - i) == chars@.subrange(i as int, j as int));
    }
    string_from_range(&chars, i, j)
}

/// The text of a byte string, when it is valid UTF-8.
#[verifier::external_body]
fn utf8_text(bytes: Vec<u8>) -> (r: Option<String>)
    ensures
        match r {
            Some(s) => valid_utf8(bytes@) && s@ == decode_utf8(bytes@),
            None => !valid_utf8(bytes@),
        },
{
    String::from_utf8(bytes).ok()
}

/// The path a file dialog printed, read from its exit status and output: nothing when
/// it failed, printed something other than UTF-8, or printed only white space.
pub open spec fn picked_path_spec(success: bool, output: Seq<u8>) -> Option<Seq<char>> {
    if !success || !valid_utf8(output) {
        None
    } else if trim_spec(decode_utf8(output)).len() == 0 {
        None
    } else {
        Some(trim_spec(decode_utf8(output)))
    }
}

/// The path a file dialog printed, read from its exit status and output.
pub fn picked_path(success: bool, output: Vec<u8>) -> (r: Option<String>)
    ensures
        match r {
            Some(p) => picked_path_spec(success, output@) == Some(p@),
            None => picked_path_spec(success, output@) is None,
        },
{
    if !success {
        return None;
    }
    let text = match utf8_text(output) {
        Some(t) => t,
        None => return None,
    };
    let picked = trim(text.as_str());
    if picked.as_str().unicode_len() == 0 {
        None
    } else {
        Some(picked)
    }
}

/// The macOS uniform type list a dialog for the template filters by.
pub fn mac_media_filter(template: InputTemplate) -> (r: Option<&'static str>)
    ensures
        match r {
            Some(f) => (template == InputTemplate::Video && f@ == "{\"public.movie\"}"@) || (
            template == InputTemplate::Photo && f@ == "{\"public.image\"}"@),
            None => template == InputTemplate::Black || template == InputTemplate::ScreenBar,
        },
{
    match template {
        InputTemplate::Video => Some("{\"public.movie\"}"),
        InputTemplate::Photo => Some("{\"public.image\"}"),
        InputTemplate::Black | InputTemplate::ScreenBar => None,
    }
}

/// The Windows file-type filter a dialog for the template uses.
pub fn windows_media_filter(template: InputTemplate) -> (r: Option<&'static str>)
    ensures
        match r {
            Some(f) => (template == InputTemplate::Video && f@
                == "Video Files|*.mp4;*.mov;*.mkv;*.webm;*.avi;*.m4v|All Files|*.*"@) || (template
                == InputTemplate::Photo && f@
                == "Image Files|*.jpg;*.jpeg;*.png;*.bmp;*.webp;*.gif|All Files|*.*"@),
            None => template == InputTemplate::Black || template == InputTemplate::ScreenBar,
        },
{
    match template {
        InputTemplate::Video => Some("Video Files|*.mp4;*.mov;*.mkv;*.webm;*.avi;*.m4v|All Files|*.*"),
        InputTemplate::Photo => Some(
            "Image Files|*.jpg;*.jpeg;*.png;*.bmp;*.webp;*.gif|All Files|*.*",
        ),
        InputTemplate::Black | InputTemplate::ScreenBar => None,
    }
}

/// Title, zenity filter and kdialog filter of a Linux dialog for the template.
pub fn linux_dialog_texts(template: InputTemplate) -> (r: Option<
    (&'static str, &'static str, &'static str),
>)
    ensures
        match r {
            Some((title, zenity, kdialog)) => (template == InputTemplate::Video && title@
                == "Select Video File"@ && zenity@
                == "Video files | *.mp4 *.mov *.mkv *.webm *.avi *.m4v"@ && kdialog@
                == "*.mp4 *.mov *.mkv *.webm *.avi *.m4v|Video files"@) || (template
                == InputTemplate::Photo && title@ == "Select Image File"@ && zenity@
                == "Image files | *.jpg *.jpeg *.png *.bmp *.webp *.gif"@ && kdialog@
                == "*.jpg *.jpeg *.png *.bmp *.webp *.gif|Image files"@),
            None => template == InputTemplate::Black || template == InputTemplate::ScreenBar,
        },
{
    match template {
        InputTemplate::Video => Some(
            (
                "Select Video File",
                "Video files | *.mp4 *.mov *.mkv *.webm *.avi *.m4v",
                "*.mp4 *.mov *.mkv *.webm *.avi *.m4v|Video files",
            ),
        ),
        InputTemplate::Photo => Some(
            (
                "Select Image File",
                "Image files | *.jpg *.jpeg *.png *.bmp *.webp *.gif",
                "*.jpg *.jpeg *.png *.bmp *.webp *.gif|Image files",
            ),
        ),
        InputTemplate::Black | InputTemplate::ScreenBar => None,
    }
}

} // verus!
