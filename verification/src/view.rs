//! What the screen shows, computed from the state: gauge percentages, the
//! per-sample growth of counters, scroll offsets, the position of the
//! selection among the listed cards, the list title, the footer's key
//! hints and the actions a card offers.
use vstd::prelude::*;

use crate::app::{filter_blank, App};
use crate::sandbox::SandboxStatus;
use crate::text::{decimal, is_blank, push_char, push_decimal, push_str, to_string};

verus! {

//----------------------------------------------------------------------
// Durations
//----------------------------------------------------------------------

/// What `humantime::format_duration` writes for `secs` whole seconds
/// (`"2h 37m"`, `"0s"`).
pub uninterp spec fn humantime_duration(secs: u64) -> Seq<char>;

/// `humantime::format_duration` of `secs` whole seconds, as text. The
/// text is named [`humantime_duration`]; nothing more is stated of it.
#[verifier::external_body]
fn format_duration_secs(secs: u64) -> (r: String)
    ensures
        r@ == humantime_duration(secs),
{
    humantime::format_duration(std::time::Duration::from_secs(secs)).to_string()
}

/// Whole seconds from `since` to `now`, 0 when `since` lies ahead.
pub open spec fn elapsed_spec(now: i64, since: i64) -> u64 {
    if now > since {
        (now - since) as u64
    } else {
        0
    }
}

/// How long ago `created_at` (seconds since the epoch) was at `now`, in
/// the humanised form; `—` when the creation time is unknown.
pub fn age_text(now: i64, created_at: Option<i64>) -> (r: String)
    ensures
        r@ == match created_at {
            Some(t) => humantime_duration(elapsed_spec(now, t)),
            None => "—"@,
        },
{
    match created_at {
        Some(t) => {
            let secs: u64 = if now > t {
                (now as i128 - t as i128) as u64
            } else {
                0
            };
            format_duration_secs(secs)
        },
        None => to_string("—"),
    }
}

/// The uptime shown for a sandbox: `not running` unless it runs, `—`
/// while its metrics are unknown, else the humanised uptime.
pub fn uptime_text(running: bool, uptime_secs: Option<u64>) -> (r: String)
    ensures
        r@ == if !running {
            "not running"@
        } else {
            match uptime_secs {
                Some(s) => humantime_duration(s),
                None => "—"@,
            }
        },
{
    if !running {
        to_string("not running")
    } else {
        match uptime_secs {
            Some(s) => format_duration_secs(s),
            None => to_string("—"),
        }
    }
}

//----------------------------------------------------------------------
// Gauges
//----------------------------------------------------------------------

/// `used` as a whole percentage of `total`, at most 100; 0 when `total` is
/// 0 or `used * 100` does not fit in 64 bits.
pub open spec fn usage_percent_spec(used: u64, total: u64) -> u64 {
    if total == 0 || used * 100 > u64::MAX {
        0
    } else if (used * 100) / (total as int) > 100 {
        100
    } else {
        ((used * 100) / (total as int)) as u64
    }
}

/// The fill of a usage gauge (see [`usage_percent_spec`]).
pub fn usage_percent(used: u64, total: u64) -> (r: u64)
    ensures
        r == usage_percent_spec(used, total),
        r <= 100,
{
    match used.checked_mul(100) {
        Some(v) => {
            if total == 0 {
                0
            } else {
                let q = v / total;
                if q > 100 {
                    100
                } else {
                    q
                }
            }
        },
        None => 0,
    }
}

/// Tenths of a percent in `x100` hundredths, rounded to the nearest
/// tenth (a half rounds up).
pub open spec fn rounded_tenths(x100: u64) -> nat {
    (x100 / 10 + if x100 % 10 >= 5 {
        1nat
    } else {
        0nat
    }) as nat
}

/// Hundredths of a percent shown rounded to one decimal: `7550` is
/// `75.5%`, `1236` is `12.4%`.
pub open spec fn percent_text_spec(x100: u64) -> Seq<char> {
    let t = rounded_tenths(x100);
    decimal(t / 10) + seq!['.'] + decimal(t % 10) + seq!['%']
}

/// The label of the CPU gauge (see [`percent_text_spec`]).
pub fn percent_text(x100: u64) -> (r: String)
    ensures
        r@ == percent_text_spec(x100),
{
    let t: u64 = if x100 % 10 >= 5 {
        x100 / 10 + 1
    } else {
        x100 / 10
    };
    let mut s = String::new();
    push_decimal(&mut s, t / 10);
    push_char(&mut s, '.');
    push_decimal(&mut s, t % 10);
    push_char(&mut s, '%');
    s
}

/// How much a growing counter rose between consecutive readings (0 where
/// it fell), one value fewer than there are readings.
pub open spec fn rate_samples_spec(readings: Seq<u64>) -> Seq<u64> {
    Seq::new(
        if readings.len() > 0 {
            (readings.len() - 1) as nat
        } else {
            0
        },
        |i: int|
            if readings[i + 1] >= readings[i] {
                (readings[i + 1] - readings[i]) as u64
            } else {
                0
            },
    )
}

/// The throughput series of a counter's history (see
/// [`rate_samples_spec`]).
pub fn rate_samples(readings: &Vec<u64>) -> (r: Vec<u64>)
    ensures
        r@ == rate_samples_spec(readings@),
{
    let mut r: Vec<u64> = Vec::new();
    let n = readings.len();
    if n == 0 {
        assert(r@ =~= rate_samples_spec(readings@));
        return r;
    }
    for i in 1..n
        invariant
            n == readings@.len(),
            r@.len() == i - 1,
            forall|k: int|
                0 <= k < r@.len() ==> r@[k] == rate_samples_spec(readings@)[k],
    {
        let d = readings[i].saturating_sub(readings[i - 1]);
        r.push(d);
    }
    assert(r@ =~= rate_samples_spec(readings@));
    r
}

//----------------------------------------------------------------------
// Scrolling
//----------------------------------------------------------------------

/// The first log line drawn when `total` lines share `height` rows: the
/// tail when the scroll offset is 0, else the offset, never past the point
/// where the last line reaches the bottom.
pub open spec fn log_view_offset_spec(log_scroll: usize, total: usize, height: usize) -> usize {
    let max_scroll = if total > height {
        (total - height) as usize
    } else {
        0
    };
    if log_scroll == 0 || log_scroll > max_scroll {
        max_scroll
    } else {
        log_scroll
    }
}

/// Where the Logs tab starts drawing (see [`log_view_offset_spec`]).
pub fn log_view_offset(log_scroll: usize, total: usize, height: usize) -> (r: usize)
    ensures
        r == log_view_offset_spec(log_scroll, total, height),
{
    let max_scroll = total.saturating_sub(height);
    if log_scroll == 0 || log_scroll > max_scroll {
        max_scroll
    } else {
        log_scroll
    }
}

/// The first directory entry drawn: the scroll offset, kept on an entry.
pub fn fs_view_offset(fs_scroll: usize, len: usize) -> (r: usize)
    ensures
        r == if len == 0 {
            0
        } else if fs_scroll < len {
            fs_scroll
        } else {
            (len - 1) as usize
        },
{
    let last = len.saturating_sub(1);
    if fs_scroll < last {
        fs_scroll
    } else {
        last
    }
}

/// The first of `rows` visible entries of a list so that entry `selected`
/// is visible: 0 while it fits, else the window ending at it.
pub fn window_start(selected: usize, rows: usize) -> (r: usize)
    requires
        rows > 0,
    ensures
        r == if selected < rows {
            0
        } else {
            (selected + 1 - rows) as usize
        },
        r <= selected,
        selected < r + rows,
{
    if selected < rows {
        0
    } else {
        selected - (rows - 1)
    }
}

//----------------------------------------------------------------------
// The sandbox list
//----------------------------------------------------------------------

/// Where the selection stands among the listed cards `visible`: after the
/// last one when the "New Sandbox" placeholder is selected (`at_end`),
/// else at the first listed entry equal to `selected`, else at 0.
pub fn selected_position(visible: &Vec<usize>, selected: usize, at_end: bool) -> (r: usize)
    ensures
        at_end ==> r == visible@.len(),
        !at_end && visible@.contains(selected) ==> {
            &&& r < visible@.len()
            &&& visible@[r as int] == selected
            &&& forall|k: int| 0 <= k < r ==> visible@[k] != selected
        },
        !at_end && !visible@.contains(selected) ==> r == 0,
{
    if at_end {
        return visible.len();
    }
    let n = visible.len();
    for i in 0..n
        invariant
            n == visible@.len(),
            !at_end,
            forall|k: int| 0 <= k < i ==> visible@[k] != selected,
    {
        if visible[i] == selected {
            return i;
        }
    }
    assert(!visible@.contains(selected));
    0
}

/// The title above the sandbox list: the search text while typing, the
/// filter while one is active, else just "Sandboxes".
pub open spec fn list_title_spec(search_active: bool, filter: Seq<char>) -> Seq<char> {
    if search_active {
        " Sandboxes — search: "@ + filter + "_ "@
    } else if !filter_blank(filter) {
        " Sandboxes — filter: "@ + filter + " "@
    } else {
        " Sandboxes "@
    }
}

/// The list title of `app` (see [`list_title_spec`]).
pub fn list_title(app: &App) -> (r: String)
    ensures
        r@ == list_title_spec(app.search_active, app.filter@),
{
    let mut s = String::new();
    if app.search_active {
        push_str(&mut s, " Sandboxes — search: ");
        push_str(&mut s, app.filter.as_str());
        push_str(&mut s, "_ ");
    } else if !is_blank(app.filter.as_str()) {
        push_str(&mut s, " Sandboxes — filter: ");
        push_str(&mut s, app.filter.as_str());
        push_str(&mut s, " ");
    } else {
        push_str(&mut s, " Sandboxes ");
    }
    s
}

/// How an action is colored: as a start, a stop, or a destructive action.
#[derive(Debug, Clone, Copy, PartialEq, Eq, Structural)]
pub enum Tone {
    Success,
    Warning,
    Danger,
}

/// Key, rest of the word, and tone of each action a card offers.
pub type CardAction = (&'static str, &'static str, Tone);

/// The text of an action list.
pub open spec fn actions_view(v: Seq<CardAction>) -> Seq<(Seq<char>, Seq<char>, Tone)> {
    v.map_values(|a: CardAction| (a.0@, a.1@, a.2))
}

/// A running sandbox can be stopped, terminated or deleted; a stopped one
/// started or deleted; any other only deleted.
pub open spec fn card_actions_spec(status: SandboxStatus) -> Seq<(Seq<char>, Seq<char>, Tone)> {
    match status {
        SandboxStatus::Running => seq![
            ("s"@, "top"@, Tone::Warning),
            ("t"@, "erm"@, Tone::Danger),
            ("d"@, "el"@, Tone::Danger),
        ],
        SandboxStatus::Stopped => seq![("s"@, "tart"@, Tone::Success), ("d"@, "el"@, Tone::Danger)],
        _ => seq![("d"@, "el"@, Tone::Danger)],
    }
}

/// The actions bar of a card (see [`card_actions_spec`]).
pub fn card_actions(status: SandboxStatus) -> (r: Vec<CardAction>)
    ensures
        actions_view(r@) == card_actions_spec(status),
{
    let mut v: Vec<CardAction> = Vec::new();
    match status {
        SandboxStatus::Running => {
            v.push(("s", "top", Tone::Warning));
            v.push(("t", "erm", Tone::Danger));
        },
        SandboxStatus::Stopped => {
            v.push(("s", "tart", Tone::Success));
        },
        _ => {},
    }
    v.push(("d", "el", Tone::Danger));
    assert(actions_view(v@) =~= card_actions_spec(status));
    v
}

//----------------------------------------------------------------------
// Footer
//----------------------------------------------------------------------

/// A key and what it does.
pub type Hint = (&'static str, &'static str);

/// The text of a hint list.
pub open spec fn hints_view(v: Seq<Hint>) -> Seq<(Seq<char>, Seq<char>)> {
    v.map_values(|h: Hint| (h.0@, h.1@))
}

/// The hints shown everywhere but in the confirmation and search modes.
pub open spec fn base_hints() -> Seq<(Seq<char>, Seq<char>)> {
    seq![("q"@, "quit"@), ("↑↓←→/Tab"@, "navigate"@)]
}

/// The footer's hints: the confirmation's keys while one is pending, the
/// search keys while typing a filter, else the base hints followed by
/// those of the create dialog, of the Volumes view, or of the main view.
pub open spec fn footer_hints_spec(app: App) -> Seq<(Seq<char>, Seq<char>)> {
    if app.confirm is Some {
        seq![("y/Enter"@, "confirm"@), ("n/Esc"@, "cancel"@)]
    } else if app.search_active {
        seq![("Type"@, "to filter"@), ("Enter"@, "confirm"@), ("Esc"@, "clear & exit"@)]
    } else if app.create_dialog.visible {
        base_hints() + seq![("Tab"@, "next field"@), ("Enter"@, "create"@), ("Esc"@, "cancel"@)]
    } else if app.volumes_view.visible {
        base_hints() + seq![
            ("↑↓"@, "select"@),
            ("n"@, "new"@),
            ("d"@, "delete"@),
            ("Esc"@, "close"@),
        ]
    } else {
        base_hints() + seq![
            ("n"@, "new"@),
            ("/"@, "search"@),
            ("v"@, "volumes"@),
            ("r"@, "refresh"@),
            ("T"@, "theme"@),
        ]
    }
}

/// The key hints of the footer (see [`footer_hints_spec`]).
pub fn footer_hints(app: &App) -> (r: Vec<Hint>)
    ensures
        hints_view(r@) == footer_hints_spec(*app),
{
    let mut v: Vec<Hint> = Vec::new();
    if app.confirm.is_some() {
        v.push(("y/Enter", "confirm"));
        v.push(("n/Esc", "cancel"));
    } else if app.search_active {
        v.push(("Type", "to filter"));
        v.push(("Enter", "confirm"));
        v.push(("Esc", "clear & exit"));
    } else {
        v.push(("q", "quit"));
        v.push(("↑↓←→/Tab", "navigate"));
        if app.create_dialog.visible {
            v.push(("Tab", "next field"));
            v.push(("Enter", "create"));
            v.push(("Esc", "cancel"));
        } else if app.volumes_view.visible {
            v.push(("↑↓", "select"));
            v.push(("n", "new"));
            v.push(("d", "delete"));
            v.push(("Esc", "close"));
        } else {
            v.push(("n", "new"));
            v.push(("/", "search"));
            v.push(("v", "volumes"));
            v.push(("r", "refresh"));
            v.push(("T", "theme"));
        }
    }
    assert(hints_view(v@) =~= footer_hints_spec(*app));
    v
}

} // verus!
