use vstd::prelude::*;

use crate::input_picker_state::slot_views;
use crate::model::{source_kind_label, source_tile_name, ClipSlot, InputTemplate, ViewTarget};
use crate::paths::{file_name, file_name_spec};
use crate::studio::loaded_count;
use crate::text::{compact_spec, compact_name, decimal, owned, push_decimal, push_decimal_u64};

verus! {

/// What a clip tile shows about its slot.
pub struct ClipTileProps<'a> {
    pub index: usize,
    pub slot: &'a ClipSlot,
    pub preview_target: ViewTarget,
    pub program_target: ViewTarget,
    pub armed_slot: usize,
}

/// What the input bank shows.
pub struct InputBankProps<'a> {
    pub clip_slots: &'a [ClipSlot],
    pub preview_target: ViewTarget,
    pub program_target: ViewTarget,
    pub armed_slot: usize,
    pub drop_hovered: bool,
}

/// What the "Add Input" picker shows.
pub struct InputPickerProps<'a> {
    pub selected: InputTemplate,
    pub selected_media_path: Option<&'a str>,
    pub can_confirm: bool,
}

/// The tag of a clip tile: its bus, its armed state, or its kind.
pub open spec fn tile_tag_spec(p: ClipTileProps) -> Seq<char> {
    if p.program_target == ViewTarget::Clip(p.index) {
        "PROGRAM"@
    } else if p.preview_target == ViewTarget::Clip(p.index) {
        "PREVIEW"@
    } else if p.armed_slot == p.index {
        "ARMED"@
    } else {
        source_kind_label(p.slot@)
    }
}

impl<'a> ClipTileProps<'a> {
    /// Whether the tile's slot is on the preview bus.
    pub fn is_preview(&self) -> (r: bool)
        ensures
            r == (self.preview_target == ViewTarget::Clip(self.index)),
    {
        match self.preview_target {
            ViewTarget::Clip(i) => i == self.index,
            _ => false,
        }
    }

    /// Whether the tile's slot is on the program bus.
    pub fn is_program(&self) -> (r: bool)
        ensures
            r == (self.program_target == ViewTarget::Clip(self.index)),
    {
        match self.program_target {
            ViewTarget::Clip(i) => i == self.index,
            _ => false,
        }
    }

    /// Whether the tile's slot is armed for drops.
    pub fn is_armed(&self) -> (r: bool)
        ensures
            r == (self.armed_slot == self.index),
    {
        self.armed_slot == self.index
    }

    /// Whether the tile is highlighted: on a bus or armed.
    pub fn is_active(&self) -> (r: bool)
        ensures
            r == (self.preview_target == ViewTarget::Clip(self.index) || self.program_target
                == ViewTarget::Clip(self.index) || self.armed_slot == self.index),
    {
        self.is_preview() || self.is_program() || self.is_armed()
    }

    /// The tag of the tile.
    pub fn tag(&self) -> (r: &'static str)
        ensures
            r@ == tile_tag_spec(*self),
    {
        if self.is_program() {
            "PROGRAM"
        } else if self.is_preview() {
            "PREVIEW"
        } else if self.is_armed() {
            "ARMED"
        } else {
            self.slot.source.kind_label()
        }
    }

    /// The name on the tile, numbered from one and shortened to sixteen characters.
    pub fn display_name(&self) -> (r: String)
        requires
            self.index < usize::MAX,
        ensures
            r@ == compact_spec(source_tile_name(self.slot@, (self.index + 1) as nat), 16),
    {
        let name = self.slot.source.tile_name(self.index + 1);
        compact_name(name.as_str(), 16)
    }
}

impl<'a> InputBankProps<'a> {
    /// Number of loaded (non-black) slots.
    pub fn loaded_count(&self) -> (r: usize)
        ensures
            r == loaded_count(slot_views(self.clip_slots@)),
    {
        let ghost v = slot_views(self.clip_slots@);
        let mut count: usize = 0;
        for i in 0..self.clip_slots.len()
            invariant
                v == slot_views(self.clip_slots@),
                count == loaded_count(v.take(i as int)),
                count <= i,
        {
            assert(v.take(i + 1).drop_last() == v.take(i as int));
            if !self.clip_slots[i].is_black() {
                count = count + 1;
            }
        }
        assert(v.take(v.len() as int) == v);
        count
    }

    /// The badge of the bank: loaded slots out of all slots.
    pub fn badge(&self) -> (r: String)
        ensures
            r@ == decimal(loaded_count(slot_views(self.clip_slots@))) + "/"@ + decimal(
                self.clip_slots@.len(),
            ) + " clips"@,
    {
        let loaded = self.loaded_count();
        let mut s = owned("");
        push_decimal(&mut s, loaded);
        s.append("/");
        push_decimal(&mut s, self.clip_slots.len());
        s.append(" clips");
        proof {
            reveal_strlit("");
        }
        s
    }

    /// The hint about dropping files.
    pub fn drop_message(&self) -> (r: &'static str)
        ensures
            r@ == (if self.drop_hovered {
                "Release to add new input"@
            } else {
                "Drag & drop image or video files to add new clips"@
            }),
    {
        if self.drop_hovered {
            "Release to add new input"
        } else {
            "Drag & drop image or video files to add new clips"
        }
    }
}

impl<'a> InputPickerProps<'a> {
    /// The chosen file's path, or a note that none is chosen.
    pub fn file_text(&self) -> (r: String)
        ensures
            r@ == match self.selected_media_path {
                Some(p) => p@,
                None => "No media selected"@,
            },
    {
        match self.selected_media_path {
            Some(p) => owned(p),
            None => owned("No media selected"),
        }
    }

    /// The chosen file's name, or an invitation to choose one.
    pub fn chosen_name(&self) -> (r: String)
        ensures
            r@ == match self.selected_media_path {
                Some(p) => match file_name_spec(p@) {
                    Some(n) => n,
                    None => "Drop or browse a file"@,
                },
                None => "Drop or browse a file"@,
            },
    {
        match self.selected_media_path {
            Some(p) => match file_name(p) {
                Some(n) => n,
                None => owned("Drop or browse a file"),
            },
            None => owned("Drop or browse a file"),
        }
    }
}

/// Status text of the chrome bar: loaded clips out of all clips.
pub fn clip_status_text(loaded_clips: usize, total_clips: usize) -> (r: String)
    ensures
        r@ == decimal(loaded_clips as nat) + "/"@ + decimal(total_clips as nat) + " Clips"@,
{
    let mut s = owned("");
    push_decimal(&mut s, loaded_clips);
    s.append("/");
    push_decimal(&mut s, total_clips);
    s.append(" Clips");
    proof {
        reveal_strlit("");
    }
    s
}

/// The flag of a bus canvas: live for program, ready for preview.
pub fn bus_flag(live: bool) -> (r: &'static str)
    ensures
        r@ == (if live {
            "LIVE"@
        } else {
            "READY"@
        }),
{
    if live {
        "LIVE"
    } else {
        "READY"
    }
}

/// A transition length as shown: the number of milliseconds and " ms".
pub fn duration_label(ms: u16) -> (r: String)
    ensures
        r@ == decimal(ms as nat) + " ms"@,
{
    let mut s = owned("");
    push_decimal(&mut s, ms as usize);
    s.append(" ms");
    proof {
        reveal_strlit("");
    }
    s
}

/// A number shown with at least two digits.
pub open spec fn two_digits(n: nat) -> Seq<char> {
    if n < 10 {
        seq!['0'] + decimal(n)
    } else {
        decimal(n)
    }
}

/// A time of `total_seconds` shown as minutes and seconds, each with at least two digits.
pub fn format_clock(total_seconds: u64) -> (r: String)
    ensures
        r@ == two_digits((total_seconds / 60) as nat) + ":"@ + two_digits((total_seconds % 60) as nat),
{
    let minutes = total_seconds / 60;
    let secs = total_seconds % 60;
    let mut s = owned("");
    if minutes < 10 {
        s.push('0');
    }
    push_decimal_u64(&mut s, minutes);
    s.append(":");
    if secs < 10 {
        s.push('0');
    }
    push_decimal_u64(&mut s, secs);
    proof {
        reveal_strlit("");
    }
    s
}

} // verus!
