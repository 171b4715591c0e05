//! The arithmetic and text of the screen layout: list scrolling, column
//! sizes, button widths and the short texts shown in cells.
use vstd::prelude::*;
use vstd::string::StringSliceAdditionalSpecFns;
use vstd::utf8::{decode_utf8, encode_utf8, is_char_boundary};

use crate::app::dialogs::ListField;
use crate::sandbox::{MountSource, VolumeMountConfig};
use crate::text::{chars_of, copy_string, push_char, push_str};

verus! {

/// Height of one sandbox card in the list, borders included.
pub const CARD_TOTAL_HEIGHT: u16 = 8;

/// Rows of an inline list of the create dialog before it wraps into a
/// further column.
pub const VISIBLE_LIST_ROWS: u16 = 4;

/// Height of the taller network-rules list, borders and header included.
pub const TALL_LIST_HEIGHT: u16 = 9;

/// Width the labels of the Info tab are padded to.
pub const LABEL_WIDTH: usize = 12;

/// How many cards fit in `visible_height` rows, at least one.
pub open spec fn cards_fitting(visible_height: u16) -> int {
    let n = visible_height / CARD_TOTAL_HEIGHT;
    if n == 0 {
        1
    } else {
        n as int
    }
}

/// The first card to draw so that card `selected` is visible.
pub open spec fn first_visible_spec(selected: usize, visible_height: u16) -> int {
    let fit = cards_fitting(visible_height);
    if selected < fit {
        0
    } else {
        selected - (fit - 1)
    }
}

/// The first card to draw so that card `selected` stays visible, given
/// `visible_height` rows (see [`first_visible_spec`]); `total` is not
/// used.
pub fn compute_first_visible(selected: usize, total: usize, visible_height: u16) -> (r: usize)
    ensures
        r == first_visible_spec(selected, visible_height),
{
    let n = visible_height / CARD_TOTAL_HEIGHT;
    let fit: usize = if n == 0 {
        1
    } else {
        n as usize
    };
    if selected < fit {
        0
    } else {
        selected - (fit - 1)
    }
}

/// Rows per column of an inline list: six for the network rules, four
/// for the others.
pub fn list_column_rows(list: ListField) -> (r: usize)
    ensures
        r == if list == ListField::NetworkRules {
            (TALL_LIST_HEIGHT - 3) as usize
        } else {
            VISIBLE_LIST_ROWS as usize
        },
{
    match list {
        ListField::NetworkRules => (TALL_LIST_HEIGHT - 3) as usize,
        _ => VISIBLE_LIST_ROWS as usize,
    }
}

/// Width of a bordered button showing `label`: the label (its character
/// count taken as a `u16`) plus borders and padding, capped at
/// `max_width`.
pub fn create_button_width(label: &str, max_width: u16) -> (r: u16)
    requires
        label@.len() % 65536 + 4 <= u16::MAX,
    ensures
        r == if label@.len() % 65536 + 4 < max_width {
            (label@.len() % 65536 + 4) as u16
        } else {
            max_width
        },
{
    let n = chars_of(label).len();
    let count: u16 = (n % 65536) as u16;
    let w = count + 4;
    if w < max_width {
        w
    } else {
        max_width
    }
}

/// How a mount is listed: `guest <- bind host` or `guest <- volume name`.
pub open spec fn mount_entry_text(m: VolumeMountConfig) -> Seq<char> {
    match m.source {
        MountSource::Bind(h) => m.guest_path@ + " <- bind "@ + h@,
        MountSource::Named(n) => m.guest_path@ + " <- volume "@ + n@,
    }
}

/// Format one mount for the inline Mounts list (see [`mount_entry_text`]).
pub fn format_mount_entry(mount: &VolumeMountConfig) -> (r: String)
    ensures
        r@ == mount_entry_text(*mount),
{
    let mut s = String::new();
    push_str(&mut s, mount.guest_path.as_str());
    match &mount.source {
        MountSource::Bind(h) => {
            push_str(&mut s, " <- bind ");
            push_str(&mut s, h.as_str());
        },
        MountSource::Named(n) => {
            push_str(&mut s, " <- volume ");
            push_str(&mut s, n.as_str());
        },
    }
    assert(s@ =~= mount_entry_text(*mount));
    s
}

/// `t` padded with spaces on the right to [`LABEL_WIDTH`] characters
/// (unchanged when already that long).
pub open spec fn label_spec(t: Seq<char>) -> Seq<char> {
    if t.len() >= LABEL_WIDTH {
        t
    } else {
        t + Seq::new((LABEL_WIDTH - t.len()) as nat, |i: int| ' ')
    }
}

/// Pad a label of the Info tab (see [`label_spec`]).
pub fn label(text: &str) -> (r: String)
    ensures
        r@ == label_spec(text@),
{
    let n = chars_of(text).len();
    let mut s = String::new();
    push_str(&mut s, text);
    let mut k = n;
    while k < LABEL_WIDTH
        invariant
            n == text@.len(),
            n <= k <= LABEL_WIDTH || (n > LABEL_WIDTH && k == n),
            k >= LABEL_WIDTH ==> n >= LABEL_WIDTH || k == LABEL_WIDTH,
            s@ == text@ + Seq::new((k - n) as nat, |i: int| ' '),
        decreases LABEL_WIDTH - k,
    {
        push_char(&mut s, ' ');
        k = k + 1;
        assert(s@ =~= text@ + Seq::new((k - n) as nat, |i: int| ' '));
    }
    assert(s@ =~= label_spec(text@));
    s
}

/// `s` cut to at most `max` bytes: unchanged when it fits, else its first
/// `max - 1` bytes followed by `…`; empty when `max` is 0.
pub open spec fn truncated(s: &str, max: usize) -> Seq<char> {
    if max == 0 {
        Seq::<char>::empty()
    } else if s.spec_bytes().len() <= max {
        s@
    } else {
        decode_utf8(s.spec_bytes().subrange(0, max - 1)).push('…')
    }
}

/// Cut `s` to `max` bytes for a card (see [`truncated`]). The cut falls
/// inside the text's bytes, so it must lie on a character boundary.
pub fn truncate(s: &str, max: usize) -> (r: String)
    requires
        s.spec_bytes().len() <= usize::MAX,
        max == 0 || s.spec_bytes().len() <= max || is_char_boundary(s.spec_bytes(), max - 1),
    ensures
        r@ == truncated(s, max),
{
    if max == 0 {
        return String::new();
    }
    if s.len() <= max {
        let mut out = String::new();
        push_str(&mut out, s);
        return out;
    }
    let (head, _) = s.split_at(max - 1);
    let mut out = String::new();
    push_str(&mut out, head);
    push_char(&mut out, '…');
    proof {
        vstd::utf8::encode_utf8_decode_utf8(head@);
        assert(head.spec_bytes() == encode_utf8(head@));
    }
    out
}

} // verus!
