//! State for the create-sandbox dialog, its "Add" popups, the directory
//! picker, the volumes view and the exec dialog.
//!
//! Nothing here touches the terminal or the filesystem: key handling lives
//! in `keys`, and directory listings are read by the application and handed
//! in as plain lists of names.
use vstd::prelude::*;

use crate::config::AppConfig;
use crate::sandbox::{
    join_hosts, port_range_text, push_hosts, push_port_range, MountSource,
    NetRuleAction, NetRuleDestGroup, NetRuleDestKind, NetRuleDirection, NetRuleProtocol,
    NetworkRule, SecretConfig, SecretHostKind, VolumeInfo, VolumeMountConfig,
};
use crate::text::{chars_eq, chars_of, copy_string, decimal, pop_char, push_char, push_decimal, to_string};

verus! {

//----------------------------------------------------------------------
// Dialog tabs
//----------------------------------------------------------------------

/// Which tab of the "create new sandbox" dialog is active.
#[derive(Debug, Clone, Copy, PartialEq, Eq, Structural)]
pub enum DialogTab {
    Basic,
    GuestOs,
    Network,
    Secrets,
}

impl DialogTab {
    pub const ALL: [DialogTab; 4] = [
        DialogTab::Basic,
        DialogTab::GuestOs,
        DialogTab::Network,
        DialogTab::Secrets,
    ];

    pub open spec fn index(self) -> int {
        match self {
            DialogTab::Basic => 0,
            DialogTab::GuestOs => 1,
            DialogTab::Network => 2,
            DialogTab::Secrets => 3,
        }
    }

    pub open spec fn next_spec(self) -> Self {
        match self {
            DialogTab::Basic => DialogTab::GuestOs,
            DialogTab::GuestOs => DialogTab::Network,
            DialogTab::Network => DialogTab::Secrets,
            DialogTab::Secrets => DialogTab::Basic,
        }
    }

    pub open spec fn prev_spec(self) -> Self {
        match self {
            DialogTab::Basic => DialogTab::Secrets,
            DialogTab::GuestOs => DialogTab::Basic,
            DialogTab::Network => DialogTab::GuestOs,
            DialogTab::Secrets => DialogTab::Network,
        }
    }

    pub open spec fn title_spec(self) -> Seq<char> {
        match self {
            DialogTab::Basic => "Basic"@,
            DialogTab::GuestOs => "Guest OS"@,
            DialogTab::Network => "Network"@,
            DialogTab::Secrets => "Secrets"@,
        }
    }

    /// The tab to the right, wrapping around.
    pub fn next(self) -> (r: Self)
        ensures
            r == self.next_spec(),
            r.index() == (self.index() + 1) % 4,
    {
        match self {
            DialogTab::Basic => DialogTab::GuestOs,
            DialogTab::GuestOs => DialogTab::Network,
            DialogTab::Network => DialogTab::Secrets,
            DialogTab::Secrets => DialogTab::Basic,
        }
    }

    /// The tab to the left, wrapping around.
    pub fn prev(self) -> (r: Self)
        ensures
            r == self.prev_spec(),
            r.index() == (self.index() + 3) % 4,
    {
        match self {
            DialogTab::Basic => DialogTab::Secrets,
            DialogTab::GuestOs => DialogTab::Basic,
            DialogTab::Network => DialogTab::GuestOs,
            DialogTab::Secrets => DialogTab::Network,
        }
    }

    pub fn title(self) -> (r: &'static str)
        ensures
            r@ == self.title_spec(),
    {
        match self {
            DialogTab::Basic => "Basic",
            DialogTab::GuestOs => "Guest OS",
            DialogTab::Network => "Network",
            DialogTab::Secrets => "Secrets",
        }
    }
}

/// Moving one tab right and then one tab left (or the other way round)
/// returns to the starting tab; four steps in one direction do as well.
pub proof fn law_dialog_tab_next_prev(t: DialogTab)
    ensures
        t.next_spec().prev_spec() == t,
        t.prev_spec().next_spec() == t,
        t.next_spec().next_spec().next_spec().next_spec() == t,
{
}

//----------------------------------------------------------------------
// Directory picker
//----------------------------------------------------------------------

/// Sentinel entry that opens the drive-selection view.
pub const DRIVES_ENTRY: &'static str = "⊞ [Switch Drive]";

/// The number of picker entries that fit in the visible list area.
pub const PICKER_VISIBLE_ROWS: usize = 10;

/// Code-point lexicographic order on strings, the order `str`'s `Ord`
/// gives (UTF-8 byte order is code-point order).
pub open spec fn text_le(a: Seq<char>, b: Seq<char>) -> bool
    decreases a.len(),
{
    if a.len() == 0 {
        true
    } else if b.len() == 0 {
        false
    } else if a[0] != b[0] {
        a[0] < b[0]
    } else {
        text_le(a.drop_first(), b.drop_first())
    }
}

pub proof fn lemma_text_le_total(a: Seq<char>, b: Seq<char>)
    ensures
        text_le(a, b) || text_le(b, a),
    decreases a.len(),
{
    if a.len() > 0 && b.len() > 0 && a[0] == b[0] {
        lemma_text_le_total(a.drop_first(), b.drop_first());
    }
}

pub proof fn lemma_text_le_refl(a: Seq<char>)
    ensures
        text_le(a, a),
    decreases a.len(),
{
    if a.len() > 0 {
        lemma_text_le_refl(a.drop_first());
    }
}

pub proof fn lemma_text_le_trans(a: Seq<char>, b: Seq<char>, c: Seq<char>)
    requires
        text_le(a, b),
        text_le(b, c),
    ensures
        text_le(a, c),
    decreases a.len(),
{
    if a.len() > 0 && b.len() > 0 && c.len() > 0 && a[0] == b[0] && b[0] == c[0] {
        lemma_text_le_trans(a.drop_first(), b.drop_first(), c.drop_first());
    }
}

/// `a <= b` in code-point lexicographic order.
pub fn text_le_chars(a: &Vec<char>, b: &Vec<char>) -> (r: bool)
    ensures
        r == text_le(a@, b@),
{
    let mut i: usize = 0;
    let n = a.len();
    let m = b.len();
    assert(a@.skip(0) =~= a@);
    assert(b@.skip(0) =~= b@);
    while i < n && i < m && a[i] == b[i]
        invariant
            i <= n,
            i <= m,
            n == a@.len(),
            m == b@.len(),
            text_le(a@, b@) == text_le(a@.skip(i as int), b@.skip(i as int)),
        decreases n - i,
    {
        assert(a@.skip(i as int).drop_first() =~= a@.skip(i + 1));
        assert(b@.skip(i as int).drop_first() =~= b@.skip(i + 1));
        i = i + 1;
    }
    if i == n {
        return true;
    }
    if i == m {
        return false;
    }
    proof {
        assert(a@.skip(i as int)[0] == a@[i as int]);
        assert(b@.skip(i as int)[0] == b@[i as int]);
    }
    a[i] < b[i]
}

/// True when the names are in non-decreasing order.
pub open spec fn sorted_names(s: Seq<Seq<char>>) -> bool {
    forall|i: int, j: int| 0 <= i < j < s.len() ==> text_le(s[i], s[j])
}

/// The views of a list of strings.
pub open spec fn views(v: Seq<String>) -> Seq<Seq<char>> {
    v.map_values(|s: String| s@)
}

/// A name is listed as a subdirectory unless it is hidden (starts with `.`).
pub open spec fn is_visible_name(s: Seq<char>) -> bool {
    !(s.len() > 0 && s[0] == '.')
}

/// The entries the picker lists for a directory whose subdirectories are
/// `subdirs`: the drive switcher, `..`, then the subdirectories that are
/// not hidden, sorted.
pub open spec fn dir_entries_spec(subdirs: Seq<Seq<char>>, entries: Seq<Seq<char>>) -> bool {
    &&& entries.len() >= 2
    &&& entries[0] == DRIVES_ENTRY@
    &&& entries[1] == ".."@
    &&& sorted_names(entries.skip(2))
    &&& entries.skip(2).to_multiset() == subdirs.filter(|s: Seq<char>| is_visible_name(s)).to_multiset()
}

fn name_le(a: &String, b: &Vec<char>) -> (r: bool)
    ensures
        r == text_le(a@, b@),
{
    let ac = chars_of(a.as_str());
    text_le_chars(&ac, b)
}

/// Inserts `x` into a sorted list, keeping it sorted.
fn insert_sorted(v: &mut Vec<String>, x: String)
    requires
        sorted_names(views(old(v)@)),
    ensures
        sorted_names(views(final(v)@)),
        views(final(v)@).to_multiset() == views(old(v)@).to_multiset().insert(x@),
{
    let xc = chars_of(x.as_str());
    let n = v.len();
    let mut i: usize = 0;
    while i < n && name_le(&v[i], &xc)
        invariant
            i <= n,
            n == v@.len(),
            xc@ == x@,
            forall|j: int| 0 <= j < i ==> text_le(#[trigger] v@[j]@, x@),
        decreases n - i,
    {
        i = i + 1;
    }
    let ghost before = views(v@);
    proof {
        // x sorts no later than every element from position i on.
        assert forall|k: int| i <= k < n implies text_le(x@, #[trigger] before[k]) by {
            lemma_text_le_total(before[i as int], x@);
            if k > i {
                lemma_text_le_trans(x@, before[i as int], before[k]);
            }
        }
        assert forall|k: int| 0 <= k < i implies text_le(#[trigger] before[k], x@) by {
            assert(before[k] == v@[k]@);
        }
    }
    v.insert(i, x);
    proof {
        let after = views(v@);
        assert(after =~= before.insert(i as int, x@));
        lemma_text_le_refl(x@);
        assert forall|a: int, b: int| 0 <= a < b < after.len() implies text_le(
            after[a],
            after[b],
        ) by {
            if b < i {
                assert(after[a] == before[a] && after[b] == before[b]);
            } else if b == i {
                assert(after[a] == before[a]);
            } else if a < i {
                assert(after[a] == before[a] && after[b] == before[b - 1]);
                lemma_text_le_trans(before[a], x@, before[b - 1]);
            } else if a == i {
                assert(after[b] == before[b - 1]);
            } else {
                assert(after[a] == before[a - 1] && after[b] == before[b - 1]);
            }
        }
        vstd::seq_lib::to_multiset_insert(before, i as int, x@);
    }
}

/// The entry list for a directory whose subdirectory names are `subdirs`:
/// `DRIVES_ENTRY`, `..`, then the names that do not start with `.`,
/// sorted.
pub fn dir_entries(subdirs: Vec<String>) -> (r: Vec<String>)
    ensures
        dir_entries_spec(views(subdirs@), views(r@)),
        r@.len() <= usize::MAX,
{
    let mut sorted: Vec<String> = Vec::new();
    let n = subdirs.len();
    let ghost pred = |s: Seq<char>| is_visible_name(s);
    proof {
        assert(views(sorted@) =~= Seq::<Seq<char>>::empty());
        assert(views(subdirs@).take(0).filter(pred) =~= Seq::<Seq<char>>::empty());
    }
    for i in 0..n
        invariant
            n == subdirs@.len(),
            pred == (|s: Seq<char>| is_visible_name(s)),
            sorted_names(views(sorted@)),
            views(sorted@).to_multiset() == views(subdirs@).take(i as int).filter(
                pred,
            ).to_multiset(),
    {
        let name = copy_string(&subdirs[i]);
        let cs = chars_of(name.as_str());
        let ghost prefix = views(subdirs@).take(i as int);
        proof {
            let t = views(subdirs@).take(i + 1);
            assert(t =~= prefix.push(name@));
            prefix.lemma_filter_push(name@, pred);
        }
        if !(cs.len() > 0 && cs[0] == '.') {
            insert_sorted(&mut sorted, name);
            proof {
                vstd::seq_lib::to_multiset_build(prefix.filter(pred), name@);
            }
        }
    }
    assert(views(subdirs@).take(n as int) =~= views(subdirs@));
    let mut r: Vec<String> = Vec::new();
    r.push(to_string(DRIVES_ENTRY));
    r.push(to_string(".."));
    let ghost head = views(r@);
    let m = sorted.len();
    for k in 0..m
        invariant
            m == sorted@.len(),
            r@.len() == 2 + k,
            views(r@).take(2) == head,
            views(r@).skip(2) == views(sorted@).take(k as int),
    {
        let s = copy_string(&sorted[k]);
        r.push(s);
        assert(views(r@).take(2) =~= head);
        assert(views(r@).skip(2) =~= views(sorted@).take(k + 1));
    }
    assert(views(sorted@).take(m as int) =~= views(sorted@));
    assert(views(r@)[0] == head[0]);
    assert(views(r@)[1] == head[1]);
    let _ = r.len();
    r
}

/// Where the directory picker opens on `path`: the path itself when it
/// names a directory (`is_dir`, the filesystem's answer), otherwise the
/// first of the available filesystem roots `drives`, or `/` when none is
/// known.
pub fn picker_start_path(path: String, is_dir: bool, drives: &Vec<String>) -> (r: String)
    ensures
        r@ == if is_dir {
            path@
        } else if drives@.len() > 0 {
            drives@[0]@
        } else {
            "/"@
        },
{
    if is_dir {
        path
    } else if drives.len() > 0 {
        copy_string(&drives[0])
    } else {
        to_string("/")
    }
}

/// State of the inline directory picker used to select a workdir or a
/// bind-mount host directory.
#[derive(Debug, Clone)]
pub struct DirPicker {
    pub visible: bool,
    /// Absolute path currently being listed.
    pub path: String,
    /// Entries: first `DRIVES_ENTRY`, then `".."`, then subdirectories (or
    /// the drive roots while `showing_drives`).
    pub entries: Vec<String>,
    pub selected: usize,
    pub scroll_offset: usize,
    /// True when the picker is showing the list of available drives/roots.
    pub showing_drives: bool,
}

impl DirPicker {
    /// A hidden, empty picker.
    pub fn closed() -> (r: Self)
        ensures
            !r.visible,
            r.path@.len() == 0,
            r.entries@.len() == 0,
            r.selected == 0,
            r.scroll_offset == 0,
            !r.showing_drives,
    {
        DirPicker {
            visible: false,
            path: String::new(),
            entries: Vec::new(),
            selected: 0,
            scroll_offset: 0,
            showing_drives: false,
        }
    }

    /// Open the picker listing `path`, whose subdirectory names are
    /// `subdirs`.
    pub fn open(path: String, subdirs: Vec<String>) -> (r: Self)
        ensures
            r.visible,
            r.path == path,
            dir_entries_spec(views(subdirs@), views(r.entries@)),
            r.selected == 0,
            r.scroll_offset == 0,
            !r.showing_drives,
    {
        let entries = dir_entries(subdirs);
        DirPicker { visible: true, path, entries, selected: 0, scroll_offset: 0, showing_drives: false }
    }

    /// Show `new_path`, whose subdirectory names are `subdirs`.
    pub fn navigate_to(&mut self, new_path: String, subdirs: Vec<String>)
        ensures
            final(self).visible == old(self).visible,
            final(self).path == new_path,
            dir_entries_spec(views(subdirs@), views(final(self).entries@)),
            final(self).entries@.len() <= usize::MAX,
            final(self).selected == 0,
            final(self).scroll_offset == 0,
            !final(self).showing_drives,
    {
        self.entries = dir_entries(subdirs);
        self.path = new_path;
        self.selected = 0;
        self.scroll_offset = 0;
        self.showing_drives = false;
    }

    /// Switch to the drive-selection view listing `drives`.
    pub fn show_drives(&mut self, drives: Vec<String>)
        ensures
            final(self).visible == old(self).visible,
            final(self).path == old(self).path,
            final(self).entries == drives,
            final(self).entries@.len() <= usize::MAX,
            final(self).selected == 0,
            final(self).scroll_offset == 0,
            final(self).showing_drives,
    {
        let _ = drives.len();
        self.entries = drives;
        self.selected = 0;
        self.scroll_offset = 0;
        self.showing_drives = true;
    }

    /// Move the highlight one entry up, scrolling to keep it visible.
    pub fn move_up(&mut self)
        requires
            old(self).scroll_offset <= old(self).selected,
        ensures
            *final(self) == (DirPicker {
                selected: final(self).selected,
                scroll_offset: final(self).scroll_offset,
                ..*old(self)
            }),
            final(self).selected == if old(self).selected > 0 {
                old(self).selected - 1
            } else {
                0
            },
            final(self).scroll_offset == if final(self).selected < old(self).scroll_offset {
                final(self).selected
            } else {
                old(self).scroll_offset
            },
            final(self).scroll_offset <= final(self).selected,
    {
        if self.selected > 0 {
            self.selected = self.selected - 1;
            if self.selected < self.scroll_offset {
                self.scroll_offset = self.selected;
            }
        }
    }

    /// Move the highlight one entry down, scrolling to keep it visible.
    pub fn move_down(&mut self)
        requires
            old(self).scroll_offset <= old(self).selected,
            old(self).selected <= old(self).entries@.len(),
            old(self).selected < old(self).scroll_offset + PICKER_VISIBLE_ROWS,
        ensures
            *final(self) == (DirPicker {
                selected: final(self).selected,
                scroll_offset: final(self).scroll_offset,
                ..*old(self)
            }),
            final(self).selected == if old(self).selected + 1 < old(self).entries@.len() {
                old(self).selected + 1
            } else {
                old(self).selected as int
            },
            final(self).scroll_offset == if final(self).selected >= old(self).scroll_offset
                + PICKER_VISIBLE_ROWS {
                final(self).selected + 1 - PICKER_VISIBLE_ROWS
            } else {
                old(self).scroll_offset as int
            },
            final(self).scroll_offset <= final(self).selected,
            final(self).selected < final(self).scroll_offset + PICKER_VISIBLE_ROWS,
    {
        let n = self.entries.len();
        if n > 0 && self.selected < n - 1 {
            self.selected = self.selected + 1;
            if self.selected - self.scroll_offset >= PICKER_VISIBLE_ROWS {
                self.scroll_offset = self.selected + 1 - PICKER_VISIBLE_ROWS;
            }
        }
    }
}

//----------------------------------------------------------------------
// Add popups
//----------------------------------------------------------------------

/// Mode for the Volumes view's list/add sub-states.
#[derive(Debug, Clone, Copy, PartialEq, Eq, Structural)]
pub enum SubDialogMode {
    List,
    Add,
}

/// Popup for adding (or editing) one port mapping `host:guest`.
#[derive(Debug, Clone)]
pub struct PortAddDialog {
    pub visible: bool,
    pub editing_index: Option<usize>,
    /// Host-port input buffer.
    pub host_input: String,
    /// Guest-port input buffer.
    pub guest_input: String,
    /// Focused input index: 0 = host, 1 = guest.
    pub add_field: usize,
    pub error: Option<String>,
}

impl PortAddDialog {
    pub open spec fn is_fresh(self) -> bool {
        &&& self.editing_index is None
        &&& self.host_input@.len() == 0
        &&& self.guest_input@.len() == 0
        &&& self.add_field == 0
        &&& self.error is None
    }

    /// The hidden popup.
    pub fn closed() -> (r: Self)
        ensures
            !r.visible,
            r.is_fresh(),
    {
        PortAddDialog {
            visible: false,
            editing_index: None,
            host_input: String::new(),
            guest_input: String::new(),
            add_field: 0,
            error: None,
        }
    }

    /// The popup for adding a new mapping.
    pub fn open() -> (r: Self)
        ensures
            r.visible,
            r.is_fresh(),
    {
        PortAddDialog {
            visible: true,
            editing_index: None,
            host_input: String::new(),
            guest_input: String::new(),
            add_field: 0,
            error: None,
        }
    }

    /// The popup is open on mapping `index`, prefilled with `existing`.
    pub open spec fn is_edit_of(self, index: usize, existing: (u16, u16)) -> bool {
        &&& self.visible
        &&& self.editing_index == Some(index)
        &&& self.host_input@ == decimal(existing.0 as nat)
        &&& self.guest_input@ == decimal(existing.1 as nat)
        &&& self.add_field == 0
        &&& self.error is None
    }

    /// The popup for editing mapping `index`, prefilled with `existing`.
    pub fn open_for_edit(index: usize, existing: (u16, u16)) -> (r: Self)
        ensures
            r.is_edit_of(index, existing),
    {
        let mut host_input = String::new();
        push_decimal(&mut host_input, existing.0 as u64);
        let mut guest_input = String::new();
        push_decimal(&mut guest_input, existing.1 as u64);
        assert(host_input@ =~= decimal(existing.0 as nat));
        assert(guest_input@ =~= decimal(existing.1 as nat));
        PortAddDialog {
            visible: true,
            editing_index: Some(index),
            host_input,
            guest_input,
            add_field: 0,
            error: None,
        }
    }
}

/// Popup for adding (or editing) one environment variable `KEY=VALUE`.
#[derive(Debug, Clone)]
pub struct EnvVarAddDialog {
    pub visible: bool,
    pub editing_index: Option<usize>,
    /// Key input buffer.
    pub key_input: String,
    /// Value input buffer.
    pub value_input: String,
    /// Focused input index: 0 = key, 1 = value.
    pub add_field: usize,
    pub error: Option<String>,
}

impl EnvVarAddDialog {
    pub open spec fn is_fresh(self) -> bool {
        &&& self.editing_index is None
        &&& self.key_input@.len() == 0
        &&& self.value_input@.len() == 0
        &&& self.add_field == 0
        &&& self.error is None
    }

    pub fn closed() -> (r: Self)
        ensures
            !r.visible,
            r.is_fresh(),
    {
        EnvVarAddDialog {
            visible: false,
            editing_index: None,
            key_input: String::new(),
            value_input: String::new(),
            add_field: 0,
            error: None,
        }
    }

    pub fn open() -> (r: Self)
        ensures
            r.visible,
            r.is_fresh(),
    {
        EnvVarAddDialog {
            visible: true,
            editing_index: None,
            key_input: String::new(),
            value_input: String::new(),
            add_field: 0,
            error: None,
        }
    }

    /// The popup is open on variable `index`, prefilled with `existing`.
    pub open spec fn is_edit_of(self, index: usize, existing: (String, String)) -> bool {
        &&& self.visible
        &&& self.editing_index == Some(index)
        &&& self.key_input@ == existing.0@
        &&& self.value_input@ == existing.1@
        &&& self.add_field == 0
        &&& self.error is None
    }

    /// The popup for editing variable `index`, prefilled with `existing`.
    pub fn open_for_edit(index: usize, existing: &(String, String)) -> (r: Self)
        ensures
            r.is_edit_of(index, *existing),
    {
        EnvVarAddDialog {
            visible: true,
            editing_index: Some(index),
            key_input: copy_string(&existing.0),
            value_input: copy_string(&existing.1),
            add_field: 0,
            error: None,
        }
    }
}

/// Popup for adding (or editing) one network policy rule: direction,
/// action, destination kind/value/group, protocol filter and an optional
/// guest-side port or port range.
#[derive(Debug, Clone)]
pub struct NetRuleAddDialog {
    pub visible: bool,
    pub editing_index: Option<usize>,
    pub direction: NetRuleDirection,
    pub action: NetRuleAction,
    pub dest_kind: NetRuleDestKind,
    /// Free-text destination value (IP / CIDR / Domain / Domain Suffix).
    pub dest_input: String,
    pub dest_group: NetRuleDestGroup,
    /// Which protocols are currently toggled on.
    pub protocols: Vec<NetRuleProtocol>,
    /// Index into [`NetRuleProtocol::ALL`] currently highlighted.
    pub protocol_cursor: usize,
    /// Port input buffer: a port (`"443"`) or a range (`"8000-9000"`).
    pub ports_input: String,
    /// Focused field: 0 direction, 1 action, 2 dest kind, 3 dest
    /// value/group, 4 protocols, 5 ports.
    pub add_field: usize,
    pub error: Option<String>,
}

impl NetRuleAddDialog {
    /// Total number of navigable fields in the popup.
    pub const FIELD_COUNT: usize = 6;

    pub open spec fn is_fresh(self) -> bool {
        &&& self.editing_index is None
        &&& self.direction == NetRuleDirection::Egress
        &&& self.action == NetRuleAction::Allow
        &&& self.dest_kind == NetRuleDestKind::Any
        &&& self.dest_input@.len() == 0
        &&& self.dest_group == NetRuleDestGroup::Public
        &&& self.protocols@.len() == 0
        &&& self.protocol_cursor == 0
        &&& self.ports_input@.len() == 0
        &&& self.add_field == 0
        &&& self.error is None
    }

    fn fresh(visible: bool) -> (r: Self)
        ensures
            r.visible == visible,
            r.is_fresh(),
    {
        NetRuleAddDialog {
            visible,
            editing_index: None,
            direction: NetRuleDirection::Egress,
            action: NetRuleAction::Allow,
            dest_kind: NetRuleDestKind::Any,
            dest_input: String::new(),
            dest_group: NetRuleDestGroup::Public,
            protocols: Vec::new(),
            protocol_cursor: 0,
            ports_input: String::new(),
            add_field: 0,
            error: None,
        }
    }

    pub fn closed() -> (r: Self)
        ensures
            !r.visible,
            r.is_fresh(),
    {
        Self::fresh(false)
    }

    pub fn open() -> (r: Self)
        ensures
            r.visible,
            r.is_fresh(),
    {
        Self::fresh(true)
    }

    /// The popup is open on rule `index`, prefilled from `existing`; the
    /// port filter is shown as `"lo"` or `"lo-hi"`, empty when absent.
    pub open spec fn is_edit_of(self, index: usize, existing: NetworkRule) -> bool {
        &&& self.visible
        &&& self.editing_index == Some(index)
        &&& self.direction == existing.direction
        &&& self.action == existing.action
        &&& self.dest_kind == existing.dest_kind
        &&& self.dest_input@ == existing.dest_value@
        &&& self.dest_group == existing.dest_group
        &&& self.protocols@ == existing.protocols@
        &&& self.protocol_cursor == 0
        &&& self.ports_input@ == port_range_text(existing.port_range)
        &&& self.add_field == 0
        &&& self.error is None
    }

    /// The popup for editing rule `index` (see [`Self::is_edit_of`]).
    pub fn open_for_edit(index: usize, existing: &NetworkRule) -> (r: Self)
        ensures
            r.is_edit_of(index, *existing),
    {
        let mut ports_input = String::new();
        push_port_range(&mut ports_input, existing.port_range);
        assert(ports_input@ =~= port_range_text(existing.port_range));
        let mut protocols: Vec<NetRuleProtocol> = Vec::new();
        let n = existing.protocols.len();
        for i in 0..n
            invariant
                n == existing.protocols@.len(),
                protocols@ == existing.protocols@.take(i as int),
        {
            protocols.push(existing.protocols[i]);
            assert(protocols@ =~= existing.protocols@.take(i + 1));
        }
        assert(existing.protocols@.take(n as int) =~= existing.protocols@);
        NetRuleAddDialog {
            visible: true,
            editing_index: Some(index),
            direction: existing.direction,
            action: existing.action,
            dest_kind: existing.dest_kind,
            dest_input: copy_string(&existing.dest_value),
            dest_group: existing.dest_group,
            protocols,
            protocol_cursor: 0,
            ports_input,
            add_field: 0,
            error: None,
        }
    }
}

/// Which source kind is chosen while adding a mount entry.
#[derive(Debug, Clone, Copy, PartialEq, Eq, Structural)]
pub enum MountKindChoice {
    Bind,
    Named,
}

/// Popup for adding (or editing) one volume mount.
#[derive(Debug, Clone)]
pub struct MountAddDialog {
    pub visible: bool,
    pub editing_index: Option<usize>,
    /// Guest path input buffer.
    pub guest_input: String,
    /// Host path (Bind) or volume name (Named) input buffer.
    pub source_input: String,
    /// Which mount source kind is being configured.
    pub kind: MountKindChoice,
    /// Focused input index: 0 = kind, 1 = guest path, 2 = source.
    pub add_field: usize,
    pub dir_picker: DirPicker,
    pub available_volumes: Vec<VolumeInfo>,
    pub selected_volume: usize,
    pub new_volume_mode: bool,
    pub new_volume_name: String,
    pub new_volume_disk: bool,
    pub error: Option<String>,
}

impl MountAddDialog {
    pub open spec fn is_fresh(self) -> bool {
        &&& self.editing_index is None
        &&& self.guest_input@.len() == 0
        &&& self.source_input@.len() == 0
        &&& self.kind == MountKindChoice::Bind
        &&& self.add_field == 0
        &&& !self.dir_picker.visible
        &&& self.dir_picker.selected == 0
        &&& self.dir_picker.scroll_offset == 0
        &&& self.dir_picker.entries@.len() == 0
        &&& self.available_volumes@.len() == 0
        &&& self.selected_volume == 0
        &&& !self.new_volume_mode
        &&& self.new_volume_name@.len() == 0
        &&& !self.new_volume_disk
        &&& self.error is None
    }

    fn build(visible: bool, editing_index: Option<usize>, guest_input: String, source_input: String, kind: MountKindChoice) -> (r: Self)
        ensures
            r.visible == visible,
            r.editing_index == editing_index,
            r.guest_input == guest_input,
            r.source_input == source_input,
            r.kind == kind,
            r.add_field == 0,
            !r.dir_picker.visible,
            r.dir_picker.selected == 0,
            r.dir_picker.scroll_offset == 0,
            r.dir_picker.entries@.len() == 0,
            r.dir_picker.path@.len() == 0,
            !r.dir_picker.showing_drives,
            r.available_volumes@.len() == 0,
            r.selected_volume == 0,
            !r.new_volume_mode,
            r.new_volume_name@.len() == 0,
            !r.new_volume_disk,
            r.error is None,
    {
        MountAddDialog {
            visible,
            editing_index,
            guest_input,
            source_input,
            kind,
            add_field: 0,
            dir_picker: DirPicker::closed(),
            available_volumes: Vec::new(),
            selected_volume: 0,
            new_volume_mode: false,
            new_volume_name: String::new(),
            new_volume_disk: false,
            error: None,
        }
    }

    pub fn closed() -> (r: Self)
        ensures
            !r.visible,
            r.is_fresh(),
            r.dir_picker.entries@.len() == 0,
            r.dir_picker.path@.len() == 0,
            !r.dir_picker.showing_drives,
    {
        Self::build(false, None, String::new(), String::new(), MountKindChoice::Bind)
    }

    pub fn open() -> (r: Self)
        ensures
            r.visible,
            r.is_fresh(),
            r.dir_picker.entries@.len() == 0,
    {
        Self::build(true, None, String::new(), String::new(), MountKindChoice::Bind)
    }

    /// The popup is open on mount `index`, prefilled from `existing`.
    pub open spec fn is_edit_of(self, index: usize, existing: VolumeMountConfig) -> bool {
        &&& self.visible
        &&& self.editing_index == Some(index)
        &&& self.guest_input@ == existing.guest_path@
        &&& match existing.source {
            MountSource::Bind(p) => self.kind == MountKindChoice::Bind && self.source_input@ == p@,
            MountSource::Named(n) => self.kind == MountKindChoice::Named && self.source_input@
                == n@,
        }
        &&& self.add_field == 0
        &&& !self.dir_picker.visible
        &&& self.dir_picker.selected == 0
        &&& self.dir_picker.scroll_offset == 0
        &&& self.dir_picker.entries@.len() == 0
        &&& self.available_volumes@.len() == 0
        &&& self.selected_volume == 0
        &&& !self.new_volume_mode
        &&& self.new_volume_name@.len() == 0
        &&& !self.new_volume_disk
        &&& self.error is None
    }

    /// The popup for editing mount `index`, prefilled from `existing`.
    pub fn open_for_edit(index: usize, existing: &VolumeMountConfig) -> (r: Self)
        ensures
            r.is_edit_of(index, *existing),
    {
        let (kind, source_input) = match &existing.source {
            MountSource::Bind(path) => (MountKindChoice::Bind, copy_string(path)),
            MountSource::Named(name) => (MountKindChoice::Named, copy_string(name)),
        };
        Self::build(true, Some(index), copy_string(&existing.guest_path), source_input, kind)
    }

    /// `after` is this popup with `selected_volume` pointing at the volume
    /// named like `source_input` (or kept, clamped to the list) and that
    /// volume's name copied back into `source_input`.
    pub open spec fn volume_synced(self, after: Self) -> bool {
        let vols = self.available_volumes@;
        &&& after == (MountAddDialog {
            selected_volume: after.selected_volume,
            source_input: after.source_input,
            ..self
        })
        &&& vols.len() == 0 ==> after.selected_volume == 0 && after.source_input == self.source_input
        &&& vols.len() > 0 ==> {
            &&& after.selected_volume < vols.len()
            &&& (exists|i: int| 0 <= i < vols.len() && vols[i].name@ == self.source_input@)
                ==> vols[after.selected_volume as int].name@ == self.source_input@
            &&& after.source_input@ == vols[after.selected_volume as int].name@
        }
    }

    /// Point `selected_volume` at the volume named like `source_input`
    /// (see [`Self::volume_synced`]).
    pub fn sync_selected_volume_from_source(&mut self)
        ensures
            old(self).volume_synced(*final(self)),
    {
        let n = self.available_volumes.len();
        if n == 0 {
            self.selected_volume = 0;
            return;
        }
        let src = chars_of(self.source_input.as_str());
        let mut found: Option<usize> = None;
        for i in 0..n
            invariant
                n == self.available_volumes@.len(),
                src@ == self.source_input@,
                found is None ==> forall|j: int|
                    0 <= j < i ==> self.available_volumes@[j].name@ != src@,
                found matches Some(k) ==> k < n && self.available_volumes@[k as int].name@
                    == src@,
        {
            if found.is_none() {
                let vc = chars_of(self.available_volumes[i].name.as_str());
                if chars_eq(&vc, &src) {
                    found = Some(i);
                }
            }
        }
        match found {
            Some(k) => {
                self.selected_volume = k;
            },
            None => {
                if self.selected_volume >= n {
                    self.selected_volume = n - 1;
                }
            },
        }
        let name = copy_string(&self.available_volumes[self.selected_volume].name);
        self.source_input = name;
    }
}

/// Popup for adding (or editing) one secret: env var, value, allowed hosts
/// (comma-separated; `*.suffix` for a wildcard, a bare `*` for any host)
/// and the injection scopes.
#[derive(Debug, Clone)]
pub struct SecretAddDialog {
    pub visible: bool,
    pub editing_index: Option<usize>,
    pub env_input: String,
    /// Real secret value. Rendered masked in the UI.
    pub value_input: String,
    /// Comma-separated allowed hosts.
    pub hosts_input: String,
    pub inject_headers: bool,
    pub inject_basic_auth: bool,
    pub inject_query: bool,
    pub inject_body: bool,
    pub require_tls_identity: bool,
    /// Focused field: 0 env, 1 value, 2 hosts, 3 headers, 4 basic auth,
    /// 5 query, 6 body, 7 require TLS identity.
    pub add_field: usize,
    pub error: Option<String>,
}

impl SecretAddDialog {
    /// Total number of navigable fields in the popup.
    pub const FIELD_COUNT: usize = 8;

    /// Fresh popup state; the injection scopes default to headers and
    /// basic auth on, query and body off, TLS identity required.
    pub open spec fn is_fresh(self) -> bool {
        &&& self.editing_index is None
        &&& self.env_input@.len() == 0
        &&& self.value_input@.len() == 0
        &&& self.hosts_input@.len() == 0
        &&& self.inject_headers
        &&& self.inject_basic_auth
        &&& !self.inject_query
        &&& !self.inject_body
        &&& self.require_tls_identity
        &&& self.add_field == 0
        &&& self.error is None
    }

    fn fresh(visible: bool) -> (r: Self)
        ensures
            r.visible == visible,
            r.is_fresh(),
    {
        SecretAddDialog {
            visible,
            editing_index: None,
            env_input: String::new(),
            value_input: String::new(),
            hosts_input: String::new(),
            inject_headers: true,
            inject_basic_auth: true,
            inject_query: false,
            inject_body: false,
            require_tls_identity: true,
            add_field: 0,
            error: None,
        }
    }

    pub fn closed() -> (r: Self)
        ensures
            !r.visible,
            r.is_fresh(),
    {
        Self::fresh(false)
    }

    pub fn open() -> (r: Self)
        ensures
            r.visible,
            r.is_fresh(),
    {
        Self::fresh(true)
    }

    /// The popup is open on secret `index`; the allowed hosts are listed
    /// joined with `", "`.
    pub open spec fn is_edit_of(self, index: usize, existing: SecretConfig) -> bool {
        &&& self.visible
        &&& self.editing_index == Some(index)
        &&& self.env_input@ == existing.env_var@
        &&& self.value_input@ == existing.value@
        &&& self.hosts_input@ == join_hosts(existing.allowed_hosts@, ", "@)
        &&& self.inject_headers == existing.inject_headers
        &&& self.inject_basic_auth == existing.inject_basic_auth
        &&& self.inject_query == existing.inject_query
        &&& self.inject_body == existing.inject_body
        &&& self.require_tls_identity == existing.require_tls_identity
        &&& self.add_field == 0
        &&& self.error is None
    }

    /// The popup for editing secret `index` (see [`Self::is_edit_of`]).
    pub fn open_for_edit(index: usize, existing: &SecretConfig) -> (r: Self)
        ensures
            r.is_edit_of(index, *existing),
    {
        let mut hosts_input = String::new();
        push_hosts(&mut hosts_input, &existing.allowed_hosts, ", ");
        assert(hosts_input@ =~= join_hosts(existing.allowed_hosts@, ", "@));
        SecretAddDialog {
            visible: true,
            editing_index: Some(index),
            env_input: copy_string(&existing.env_var),
            value_input: copy_string(&existing.value),
            hosts_input,
            inject_headers: existing.inject_headers,
            inject_basic_auth: existing.inject_basic_auth,
            inject_query: existing.inject_query,
            inject_body: existing.inject_body,
            require_tls_identity: existing.require_tls_identity,
            add_field: 0,
            error: None,
        }
    }
}

} // verus!

verus! {

//----------------------------------------------------------------------
// Create dialog
//----------------------------------------------------------------------

/// Identifies which inline list is focused within a [`CreateDialog`] tab,
/// so key handling can route Up/Down/`a`/`d` to it.
#[derive(Debug, Clone, Copy, PartialEq, Eq, Structural)]
pub enum ListField {
    EnvVars,
    Mounts,
    Ports,
    NetworkRules,
    Secrets,
}

/// The free-text fields of the create dialog.
#[derive(Debug, Clone, Copy, PartialEq, Eq, Structural)]
pub enum TextField {
    Name,
    Image,
    Cpus,
    MaxCpus,
    Memory,
    MaxMemory,
    Hostname,
    User,
    Shell,
}

/// An edit of the focused text field.
#[derive(Debug, Clone, Copy, PartialEq, Eq, Structural)]
pub enum FieldEdit {
    /// Type one character at the end.
    Push(char),
    /// Delete the last character.
    Pop,
}

/// A selection index is valid for a list of `len` entries: it points at an
/// entry, or is 0 for an empty list.
pub open spec fn sel_ok(sel: usize, len: nat) -> bool {
    sel < len || sel == 0
}

/// Number of navigable form fields (excluding the Create button) on `tab`.
pub open spec fn form_field_count_of(tab: DialogTab) -> nat {
    match tab {
        DialogTab::Basic => 7,
        DialogTab::GuestOs => 5,
        DialogTab::Network => 3,
        DialogTab::Secrets => 1,
    }
}

/// The text field at position `field` of `tab`, if that position holds one.
pub open spec fn text_field_at(tab: DialogTab, field: usize) -> Option<TextField> {
    match tab {
        DialogTab::Basic => if field == 0 {
            Some(TextField::Name)
        } else if field == 1 {
            Some(TextField::Image)
        } else if field == 2 {
            Some(TextField::Cpus)
        } else if field == 3 {
            Some(TextField::MaxCpus)
        } else if field == 4 {
            Some(TextField::Memory)
        } else if field == 5 {
            Some(TextField::MaxMemory)
        } else {
            None
        },
        DialogTab::GuestOs => if field == 0 {
            Some(TextField::Hostname)
        } else if field == 1 {
            Some(TextField::User)
        } else if field == 2 {
            Some(TextField::Shell)
        } else {
            None
        },
        _ => None,
    }
}

/// The inline list at position `field` of `tab`, if that position holds one.
pub open spec fn list_field_at(tab: DialogTab, field: usize) -> Option<ListField> {
    match tab {
        DialogTab::GuestOs => if field == 3 {
            Some(ListField::EnvVars)
        } else if field == 4 {
            Some(ListField::Mounts)
        } else {
            None
        },
        DialogTab::Network => if field == 1 {
            Some(ListField::Ports)
        } else if field == 2 {
            Some(ListField::NetworkRules)
        } else {
            None
        },
        DialogTab::Secrets => if field == 0 {
            Some(ListField::Secrets)
        } else {
            None
        },
        _ => None,
    }
}

/// State of the "create new sandbox" modal dialog.
///
/// Tabs and fields: Basic (0 name, 1 image, 2 CPUs, 3 max CPUs, 4 memory,
/// 5 max memory, 6 workdir); Guest OS (0 hostname, 1 user, 2 shell, 3 env
/// vars, 4 mounts); Network (0 disable network, 1 ports, 2 network rules);
/// Secrets (0 secrets). On every tab the position after the last field is
/// the Create button.
#[derive(Debug, Clone)]
pub struct CreateDialog {
    pub visible: bool,
    pub tab: DialogTab,
    pub field: usize,
    /// True while Up/Down/`a`/`d` act on the focused inline list.
    pub list_edit_mode: bool,
    pub name: String,
    pub image: String,
    pub cpus: String,
    pub max_cpus: String,
    pub memory: String,
    pub max_memory: String,
    pub workdir: String,
    pub hostname: String,
    pub user: String,
    pub shell: String,
    /// Environment variables (key, value), listed inline.
    pub env_vars: Vec<(String, String)>,
    pub env_vars_selected: usize,
    /// Volume mounts, listed inline. Applied at creation time only.
    pub mounts: Vec<VolumeMountConfig>,
    pub mounts_selected: usize,
    pub disable_network: bool,
    /// Port mappings (host, guest), listed inline.
    pub ports: Vec<(u16, u16)>,
    pub ports_selected: usize,
    /// Network policy rules, listed inline. Applied at creation time only.
    pub network_rules: Vec<NetworkRule>,
    pub network_rules_selected: usize,
    /// Secrets injected via the TLS proxy, listed inline.
    pub secrets: Vec<SecretConfig>,
    pub secrets_selected: usize,
    pub error: Option<String>,
    /// Inline directory browser for picking the workdir path.
    pub dir_picker: DirPicker,
    pub port_add: PortAddDialog,
    pub env_var_add: EnvVarAddDialog,
    pub net_rule_add: NetRuleAddDialog,
    pub mount_add: MountAddDialog,
    pub secret_add: SecretAddDialog,
}

impl CreateDialog {
    /// Every inline list's selection is valid for that list.
    pub open spec fn selections_ok(self) -> bool {
        &&& sel_ok(self.env_vars_selected, self.env_vars@.len())
        &&& sel_ok(self.mounts_selected, self.mounts@.len())
        &&& sel_ok(self.ports_selected, self.ports@.len())
        &&& sel_ok(self.network_rules_selected, self.network_rules@.len())
        &&& sel_ok(self.secrets_selected, self.secrets@.len())
    }

    /// Each open "Add" popup that edits an existing entry points at one.
    pub open spec fn edits_ok(self) -> bool {
        &&& (self.port_add.visible ==> (self.port_add.editing_index matches Some(i) ==> i < self.ports@.len()))
        &&& (self.env_var_add.visible ==> (self.env_var_add.editing_index matches Some(i) ==> i < self.env_vars@.len()))
        &&& (self.net_rule_add.visible ==> (self.net_rule_add.editing_index matches Some(i) ==> i < self.network_rules@.len()))
        &&& (self.mount_add.visible ==> (self.mount_add.editing_index matches Some(i) ==> i < self.mounts@.len()))
        &&& (self.secret_add.visible ==> (self.secret_add.editing_index matches Some(i) ==> i < self.secrets@.len()))
    }

    /// Each popup's focused input is one of its inputs.
    pub open spec fn popup_fields_ok(self) -> bool {
        &&& self.port_add.add_field < 2
        &&& self.env_var_add.add_field < 2
        &&& self.net_rule_add.add_field < NetRuleAddDialog::FIELD_COUNT
        &&& self.net_rule_add.protocol_cursor < 4
        &&& self.mount_add.add_field < 3
        &&& self.secret_add.add_field < SecretAddDialog::FIELD_COUNT
    }

    /// The states the key handlers accept: valid list selections and edit
    /// targets, a protocol cursor inside the protocol list, and a directory
    /// picker whose highlight is inside its scroll window.
    pub open spec fn wf(self) -> bool {
        &&& self.selections_ok()
        &&& self.edits_ok()
        &&& self.field <= self.form_field_count_spec()
        &&& self.popup_fields_ok()
        &&& picker_ok(self.dir_picker)
        &&& picker_ok(self.mount_add.dir_picker)
    }

    pub open spec fn form_field_count_spec(self) -> nat {
        form_field_count_of(self.tab)
    }

    pub open spec fn is_create_focused_spec(self) -> bool {
        self.field == self.form_field_count_spec()
    }

    pub open spec fn current_text_spec(self) -> Option<TextField> {
        if self.is_create_focused_spec() {
            None
        } else {
            text_field_at(self.tab, self.field)
        }
    }

    pub open spec fn focused_list_spec(self) -> Option<ListField> {
        if self.is_create_focused_spec() {
            None
        } else {
            list_field_at(self.tab, self.field)
        }
    }

    pub open spec fn is_numeric_spec(self) -> bool {
        !self.is_create_focused_spec() && self.tab == DialogTab::Basic && 2 <= self.field <= 5
    }

    pub open spec fn is_toggle_spec(self) -> bool {
        !self.is_create_focused_spec() && self.tab == DialogTab::Network && self.field == 0
    }

    pub open spec fn disabled_spec(self, tab: DialogTab, idx: int) -> bool {
        self.disable_network && tab == DialogTab::Network && (idx == 1 || idx == 2)
    }

    /// The text of field `f`.
    pub open spec fn text_of(self, f: TextField) -> String {
        match f {
            TextField::Name => self.name,
            TextField::Image => self.image,
            TextField::Cpus => self.cpus,
            TextField::MaxCpus => self.max_cpus,
            TextField::Memory => self.memory,
            TextField::MaxMemory => self.max_memory,
            TextField::Hostname => self.hostname,
            TextField::User => self.user,
            TextField::Shell => self.shell,
        }
    }

    /// This dialog with field `f` holding `s`.
    pub open spec fn with_text(self, f: TextField, s: String) -> Self {
        match f {
            TextField::Name => CreateDialog { name: s, ..self },
            TextField::Image => CreateDialog { image: s, ..self },
            TextField::Cpus => CreateDialog { cpus: s, ..self },
            TextField::MaxCpus => CreateDialog { max_cpus: s, ..self },
            TextField::Memory => CreateDialog { memory: s, ..self },
            TextField::MaxMemory => CreateDialog { max_memory: s, ..self },
            TextField::Hostname => CreateDialog { hostname: s, ..self },
            TextField::User => CreateDialog { user: s, ..self },
            TextField::Shell => CreateDialog { shell: s, ..self },
        }
    }

    /// The dialog as `open` leaves it, apart from its visibility.
    pub open spec fn is_fresh(self) -> bool {
        &&& self.tab == DialogTab::Basic
        &&& self.field == 0
        &&& !self.list_edit_mode
        &&& self.name@.len() == 0
        &&& self.max_cpus@.len() == 0
        &&& self.max_memory@.len() == 0
        &&& self.env_vars@.len() == 0
        &&& self.env_vars_selected == 0
        &&& self.mounts@.len() == 0
        &&& self.mounts_selected == 0
        &&& !self.disable_network
        &&& self.ports@.len() == 0
        &&& self.ports_selected == 0
        &&& self.network_rules@.len() == 0
        &&& self.network_rules_selected == 0
        &&& self.secrets@.len() == 0
        &&& self.secrets_selected == 0
        &&& self.error is None
        &&& !self.dir_picker.visible
        &&& self.dir_picker.selected == 0
        &&& self.dir_picker.scroll_offset == 0
        &&& !self.port_add.visible && self.port_add.is_fresh()
        &&& !self.env_var_add.visible && self.env_var_add.is_fresh()
        &&& !self.net_rule_add.visible && self.net_rule_add.is_fresh()
        &&& !self.mount_add.visible && self.mount_add.is_fresh()
        &&& self.mount_add.dir_picker.selected == 0
        &&& self.mount_add.dir_picker.scroll_offset == 0
        &&& !self.secret_add.visible && self.secret_add.is_fresh()
    }

    /// The dialog as `closed` leaves it, apart from its visibility: fresh,
    /// with every text field empty and both directory pickers emptied.
    pub open spec fn is_cleared(self) -> bool {
        &&& self.is_fresh()
        &&& self.image@.len() == 0
        &&& self.cpus@.len() == 0
        &&& self.memory@.len() == 0
        &&& self.workdir@.len() == 0
        &&& self.hostname@.len() == 0
        &&& self.user@.len() == 0
        &&& self.shell@.len() == 0
        &&& self.dir_picker.path@.len() == 0
        &&& self.dir_picker.entries@.len() == 0
        &&& !self.dir_picker.showing_drives
        &&& self.mount_add.dir_picker.path@.len() == 0
        &&& self.mount_add.dir_picker.entries@.len() == 0
        &&& !self.mount_add.dir_picker.showing_drives
    }

    fn build(visible: bool, image: String, cpus: String, memory: String, workdir: String, hostname: String, user: String, shell: String) -> (r: Self)
        ensures
            r.visible == visible,
            r.tab == DialogTab::Basic,
            r.field == 0,
            !r.list_edit_mode,
            r.name@.len() == 0,
            r.image == image,
            r.cpus == cpus,
            r.max_cpus@.len() == 0,
            r.memory == memory,
            r.max_memory@.len() == 0,
            r.workdir == workdir,
            r.hostname == hostname,
            r.user == user,
            r.shell == shell,
            r.env_vars@.len() == 0,
            r.env_vars_selected == 0,
            r.mounts@.len() == 0,
            r.mounts_selected == 0,
            !r.disable_network,
            r.ports@.len() == 0,
            r.ports_selected == 0,
            r.network_rules@.len() == 0,
            r.network_rules_selected == 0,
            r.secrets@.len() == 0,
            r.secrets_selected == 0,
            r.error is None,
            !r.dir_picker.visible,
            r.dir_picker.selected == 0,
            r.dir_picker.scroll_offset == 0,
            r.dir_picker.entries@.len() == 0,
            r.dir_picker.path@.len() == 0,
            !r.dir_picker.showing_drives,
            !r.port_add.visible && r.port_add.is_fresh(),
            !r.env_var_add.visible && r.env_var_add.is_fresh(),
            !r.net_rule_add.visible && r.net_rule_add.is_fresh(),
            !r.mount_add.visible && r.mount_add.is_fresh(),
            r.mount_add.dir_picker.selected == 0,
            r.mount_add.dir_picker.scroll_offset == 0,
            r.mount_add.dir_picker.entries@.len() == 0,
            r.mount_add.dir_picker.path@.len() == 0,
            !r.mount_add.dir_picker.showing_drives,
            !r.secret_add.visible && r.secret_add.is_fresh(),
    {
        let mount_add = MountAddDialog::closed();
        CreateDialog {
            visible,
            tab: DialogTab::Basic,
            field: 0,
            list_edit_mode: false,
            name: String::new(),
            image,
            cpus,
            max_cpus: String::new(),
            memory,
            max_memory: String::new(),
            workdir,
            hostname,
            user,
            shell,
            env_vars: Vec::new(),
            env_vars_selected: 0,
            mounts: Vec::new(),
            mounts_selected: 0,
            disable_network: false,
            ports: Vec::new(),
            ports_selected: 0,
            network_rules: Vec::new(),
            network_rules_selected: 0,
            secrets: Vec::new(),
            secrets_selected: 0,
            error: None,
            dir_picker: DirPicker::closed(),
            port_add: PortAddDialog::closed(),
            env_var_add: EnvVarAddDialog::closed(),
            net_rule_add: NetRuleAddDialog::closed(),
            mount_add,
            secret_add: SecretAddDialog::closed(),
        }
    }

    /// The hidden dialog with every field empty.
    pub fn closed() -> (r: Self)
        ensures
            !r.visible,
            r.is_cleared(),
            r.wf(),
    {
        Self::build(false, String::new(), String::new(), String::new(), String::new(), String::new(), String::new(), String::new())
    }

    /// The dialog with its built-in defaults: image `alpine`, 1 CPU,
    /// 512 MiB, shell `/bin/sh`, everything else empty.
    pub fn open() -> (r: Self)
        ensures
            r.visible,
            r.is_fresh(),
            r.image@ == "alpine"@,
            r.cpus@ == "1"@,
            r.memory@ == "512"@,
            r.workdir@.len() == 0,
            r.hostname@.len() == 0,
            r.user@.len() == 0,
            r.shell@ == "/bin/sh"@,
            r.wf(),
    {
        Self::build(true, to_string("alpine"), to_string("1"), to_string("512"), String::new(), String::new(), String::new(), to_string("/bin/sh"))
    }

    /// The dialog as it opens with the user's defaults `cfg`: fresh and
    /// visible, each prefilled field taken from `cfg` where it is set and
    /// from the built-in defaults of [`Self::open`] elsewhere.
    pub open spec fn prefilled_from(self, cfg: AppConfig) -> bool {
        &&& self.visible
        &&& self.is_fresh()
        &&& self.image@ == match cfg.image {
            Some(v) => v@,
            None => "alpine"@,
        }
        &&& self.cpus@ == match cfg.cpus {
            Some(v) => decimal(v as nat),
            None => "1"@,
        }
        &&& self.memory@ == match cfg.memory_mib {
            Some(v) => decimal(v as nat),
            None => "512"@,
        }
        &&& self.hostname@ == match cfg.hostname {
            Some(v) => v@,
            None => Seq::<char>::empty(),
        }
        &&& self.workdir@ == match cfg.workdir {
            Some(v) => v@,
            None => Seq::<char>::empty(),
        }
        &&& self.user@ == match cfg.user {
            Some(v) => v@,
            None => Seq::<char>::empty(),
        }
        &&& self.shell@ == match cfg.shell {
            Some(v) => v@,
            None => "/bin/sh"@,
        }
        &&& self.wf()
    }

    /// Open the dialog, prefilling fields from the user's config file where
    /// present and using the defaults of [`Self::open`] elsewhere.
    pub fn open_with_config(cfg: &AppConfig) -> (r: Self)
        ensures
            r.prefilled_from(*cfg),
    {
        let image = match &cfg.image {
            Some(v) => copy_string(v),
            None => to_string("alpine"),
        };
        let cpus = match cfg.cpus {
            Some(v) => {
                let mut s = String::new();
                push_decimal(&mut s, v as u64);
                assert(s@ =~= decimal(v as nat));
                s
            },
            None => to_string("1"),
        };
        let memory = match cfg.memory_mib {
            Some(v) => {
                let mut s = String::new();
                push_decimal(&mut s, v as u64);
                assert(s@ =~= decimal(v as nat));
                s
            },
            None => to_string("512"),
        };
        let hostname = match &cfg.hostname {
            Some(v) => copy_string(v),
            None => String::new(),
        };
        let workdir = match &cfg.workdir {
            Some(v) => copy_string(v),
            None => String::new(),
        };
        let user = match &cfg.user {
            Some(v) => copy_string(v),
            None => String::new(),
        };
        let shell = match &cfg.shell {
            Some(v) => copy_string(v),
            None => to_string("/bin/sh"),
        };
        Self::build(true, image, cpus, memory, workdir, hostname, user, shell)
    }

    /// Number of navigable form fields (excluding the Create button) on the
    /// active tab.
    pub fn form_field_count(&self) -> (r: usize)
        ensures
            r == self.form_field_count_spec(),
    {
        match self.tab {
            DialogTab::Basic => 7,
            DialogTab::GuestOs => 5,
            DialogTab::Network => 3,
            DialogTab::Secrets => 1,
        }
    }

    /// Total navigable positions: form fields plus the Create button.
    pub fn field_count(&self) -> (r: usize)
        ensures
            r == self.form_field_count_spec() + 1,
    {
        self.form_field_count() + 1
    }

    /// True when the Create button is focused (last navigable position).
    pub fn is_create_focused(&self) -> (r: bool)
        ensures
            r == self.is_create_focused_spec(),
    {
        self.field == self.form_field_count()
    }

    /// The text field holding focus, if any (the workdir, toggles, lists
    /// and the Create button are not text fields).
    pub fn current_text_field(&self) -> (r: Option<TextField>)
        ensures
            r == self.current_text_spec(),
    {
        if self.is_create_focused() {
            return None;
        }
        match self.tab {
            DialogTab::Basic => if self.field == 0 {
                Some(TextField::Name)
            } else if self.field == 1 {
                Some(TextField::Image)
            } else if self.field == 2 {
                Some(TextField::Cpus)
            } else if self.field == 3 {
                Some(TextField::MaxCpus)
            } else if self.field == 4 {
                Some(TextField::Memory)
            } else if self.field == 5 {
                Some(TextField::MaxMemory)
            } else {
                None
            },
            DialogTab::GuestOs => if self.field == 0 {
                Some(TextField::Hostname)
            } else if self.field == 1 {
                Some(TextField::User)
            } else if self.field == 2 {
                Some(TextField::Shell)
            } else {
                None
            },
            _ => None,
        }
    }

    /// Apply `edit` to the focused text field; no-op when no text field has
    /// focus.
    pub fn edit_current_field(&mut self, edit: FieldEdit)
        ensures
            match old(self).current_text_spec() {
                Some(f) => {
                    &&& *final(self) == old(self).with_text(f, final(self).text_of(f))
                    &&& final(self).text_of(f)@ == match edit {
                        FieldEdit::Push(c) => old(self).text_of(f)@.push(c),
                        FieldEdit::Pop => if old(self).text_of(f)@.len() > 0 {
                            old(self).text_of(f)@.drop_last()
                        } else {
                            old(self).text_of(f)@
                        },
                    }
                },
                None => *final(self) == *old(self),
            },
    {
        let f = match self.current_text_field() {
            Some(f) => f,
            None => return,
        };
        let s: &mut String = match f {
            TextField::Name => &mut self.name,
            TextField::Image => &mut self.image,
            TextField::Cpus => &mut self.cpus,
            TextField::MaxCpus => &mut self.max_cpus,
            TextField::Memory => &mut self.memory,
            TextField::MaxMemory => &mut self.max_memory,
            TextField::Hostname => &mut self.hostname,
            TextField::User => &mut self.user,
            TextField::Shell => &mut self.shell,
        };
        match edit {
            FieldEdit::Push(c) => push_char(s, c),
            FieldEdit::Pop => {
                let _ = pop_char(s);
            },
        }
    }

    /// True when the focused field only accepts ASCII digits (CPU and
    /// memory fields).
    pub fn is_numeric_field(&self) -> (r: bool)
        ensures
            r == self.is_numeric_spec(),
    {
        !self.is_create_focused() && self.tab == DialogTab::Basic && 2 <= self.field
            && self.field <= 5
    }

    /// True when the focused field is a boolean toggle (Disable Network).
    pub fn is_toggle_field(&self) -> (r: bool)
        ensures
            r == self.is_toggle_spec(),
    {
        !self.is_create_focused() && self.tab == DialogTab::Network && self.field == 0
    }

    /// The inline list the focused field shows, if any.
    pub fn focused_list(&self) -> (r: Option<ListField>)
        ensures
            r == self.focused_list_spec(),
    {
        if self.is_create_focused() {
            return None;
        }
        match self.tab {
            DialogTab::GuestOs => if self.field == 3 {
                Some(ListField::EnvVars)
            } else if self.field == 4 {
                Some(ListField::Mounts)
            } else {
                None
            },
            DialogTab::Network => if self.field == 1 {
                Some(ListField::Ports)
            } else if self.field == 2 {
                Some(ListField::NetworkRules)
            } else {
                None
            },
            DialogTab::Secrets => if self.field == 0 {
                Some(ListField::Secrets)
            } else {
                None
            },
            _ => None,
        }
    }

    /// True when field `field_idx` of `tab` is greyed out because network
    /// access is disabled (the Network tab's port and rule lists).
    pub fn field_disabled_by_network(&self, tab: DialogTab, field_idx: usize) -> (r: bool)
        ensures
            r == self.disabled_spec(tab, field_idx as int),
    {
        self.disable_network && tab == DialogTab::Network && (field_idx == 1 || field_idx == 2)
    }

    /// The position one step from `idx` in the given direction, wrapping.
    pub open spec fn step_spec(self, idx: int, forward: bool) -> int {
        let count = self.form_field_count_spec() + 1;
        if forward {
            (idx + 1) % (count as int)
        } else if idx == 0 {
            count - 1
        } else {
            idx - 1
        }
    }

    /// The first position reached from `idx` by stepping in the given
    /// direction (at most `fuel` steps) that is the Create button or not
    /// disabled; -1 when there is none.
    pub open spec fn next_enabled_from(self, idx: int, forward: bool, fuel: nat) -> int
        decreases fuel,
    {
        if fuel == 0 {
            -1
        } else {
            let j = self.step_spec(idx, forward);
            if j == self.form_field_count_spec() || !self.disabled_spec(self.tab, j) {
                j
            } else {
                self.next_enabled_from(j, forward, (fuel - 1) as nat)
            }
        }
    }

    /// The position after `current` in the given direction that is not
    /// disabled, or `current` when every position is.
    pub open spec fn next_enabled_spec(self, current: int, forward: bool) -> int {
        let r = self.next_enabled_from(current, forward, self.form_field_count_spec() + 1);
        if r < 0 {
            current
        } else {
            r
        }
    }

    /// The next enabled position after `current` in the given direction.
    pub fn next_enabled_field_index(&self, current: usize, forward: bool) -> (r: usize)
        requires
            current < usize::MAX,
        ensures
            r == self.next_enabled_spec(current as int, forward),
    {
        let count = self.field_count();
        let form = self.form_field_count();
        let mut idx = current;
        let mut k: usize = 0;
        while k < count
            invariant
                count == self.form_field_count_spec() + 1,
                form == self.form_field_count_spec(),
                k <= count,
                idx < usize::MAX,
                self.next_enabled_from(current as int, forward, count as nat) == self.next_enabled_from(
                    idx as int,
                    forward,
                    (count - k) as nat,
                ),
            decreases count - k,
        {
            idx = if forward {
                (idx + 1) % count
            } else if idx == 0 {
                count - 1
            } else {
                idx - 1
            };
            if idx == form || !self.field_disabled_by_network(self.tab, idx) {
                return idx;
            }
            k = k + 1;
        }
        current
    }

    /// Focus the next enabled position (wrapping) and leave list mode.
    pub fn next_field(&mut self)
        requires
            old(self).field < usize::MAX,
        ensures
            *final(self) == (CreateDialog {
                field: final(self).field,
                list_edit_mode: false,
                ..*old(self)
            }),
            final(self).field == old(self).next_enabled_spec(old(self).field as int, true),
    {
        self.field = self.next_enabled_field_index(self.field, true);
        self.list_edit_mode = false;
    }

    /// Focus the previous enabled position (wrapping) and leave list mode.
    pub fn prev_field(&mut self)
        requires
            old(self).field < usize::MAX,
        ensures
            *final(self) == (CreateDialog {
                field: final(self).field,
                list_edit_mode: false,
                ..*old(self)
            }),
            final(self).field == old(self).next_enabled_spec(old(self).field as int, false),
    {
        self.field = self.next_enabled_field_index(self.field, false);
        self.list_edit_mode = false;
    }

    /// Switch to `tab`, focusing its first field and clearing the error.
    pub fn switch_tab(&mut self, tab: DialogTab)
        ensures
            *final(self) == (CreateDialog {
                tab,
                field: 0,
                list_edit_mode: false,
                error: None,
                ..*old(self)
            }),
    {
        self.tab = tab;
        self.field = 0;
        self.list_edit_mode = false;
        self.error = None;
    }
}

//----------------------------------------------------------------------
// Inline lists of the create dialog
//----------------------------------------------------------------------

/// The selection after moving it one step up or down a list of `len`
/// entries, stopping at either end (0 for an empty list).
pub open spec fn moved_sel(sel: usize, len: nat, up: bool) -> usize {
    if len == 0 {
        0
    } else if up {
        if sel > 0 {
            (sel - 1) as usize
        } else {
            sel
        }
    } else if sel + 1 < len {
        (sel + 1) as usize
    } else {
        sel
    }
}

/// The selection after deleting the selected entry, leaving `new_len`
/// entries: it steps back when it fell off the end.
pub open spec fn del_sel(sel: usize, new_len: nat) -> usize {
    if sel >= new_len && sel > 0 {
        (sel - 1) as usize
    } else {
        sel
    }
}

/// Move `*selected` one step within a list of `len` entries.
fn move_sel(selected: &mut usize, len: usize, up: bool)
    ensures
        *final(selected) == moved_sel(*old(selected), len as nat, up),
{
    if len == 0 {
        *selected = 0;
    } else if up {
        if *selected > 0 {
            *selected = *selected - 1;
        }
    } else if *selected < len - 1 {
        *selected = *selected + 1;
    }
}

/// Delete the selected entry of a non-empty list and fix the selection.
fn remove_selected<T>(entries: &mut Vec<T>, selected: &mut usize)
    requires
        sel_ok(*old(selected), old(entries)@.len()),
    ensures
        old(entries)@.len() == 0 ==> *final(entries) == *old(entries) && *final(selected)
            == *old(selected),
        old(entries)@.len() > 0 ==> final(entries)@ == old(entries)@.remove(*old(selected) as int)
            && *final(selected) == del_sel(*old(selected), final(entries)@.len()),
        sel_ok(*final(selected), final(entries)@.len()),
{
    if entries.len() == 0 {
        return;
    }
    let _ = entries.remove(*selected);
    if *selected >= entries.len() && *selected > 0 {
        *selected = *selected - 1;
    }
}

impl CreateDialog {
    /// Number of entries of `list`.
    pub open spec fn list_len(self, list: ListField) -> nat {
        match list {
            ListField::EnvVars => self.env_vars@.len(),
            ListField::Mounts => self.mounts@.len(),
            ListField::Ports => self.ports@.len(),
            ListField::NetworkRules => self.network_rules@.len(),
            ListField::Secrets => self.secrets@.len(),
        }
    }

    /// The selected entry of `list`.
    pub open spec fn list_sel(self, list: ListField) -> usize {
        match list {
            ListField::EnvVars => self.env_vars_selected,
            ListField::Mounts => self.mounts_selected,
            ListField::Ports => self.ports_selected,
            ListField::NetworkRules => self.network_rules_selected,
            ListField::Secrets => self.secrets_selected,
        }
    }

    /// This dialog with the selection of `list` at `sel`.
    pub open spec fn with_sel(self, list: ListField, sel: usize) -> Self {
        match list {
            ListField::EnvVars => CreateDialog { env_vars_selected: sel, ..self },
            ListField::Mounts => CreateDialog { mounts_selected: sel, ..self },
            ListField::Ports => CreateDialog { ports_selected: sel, ..self },
            ListField::NetworkRules => CreateDialog { network_rules_selected: sel, ..self },
            ListField::Secrets => CreateDialog { secrets_selected: sel, ..self },
        }
    }

    /// Move the selection of `list` one entry up or down, stopping at
    /// either end.
    pub fn move_list_selection(&mut self, list: ListField, up: bool)
        ensures
            *final(self) == old(self).with_sel(
                list,
                moved_sel(old(self).list_sel(list), old(self).list_len(list), up),
            ),
    {
        match list {
            ListField::EnvVars => move_sel(&mut self.env_vars_selected, self.env_vars.len(), up),
            ListField::Mounts => move_sel(&mut self.mounts_selected, self.mounts.len(), up),
            ListField::Ports => move_sel(&mut self.ports_selected, self.ports.len(), up),
            ListField::NetworkRules => move_sel(
                &mut self.network_rules_selected,
                self.network_rules.len(),
                up,
            ),
            ListField::Secrets => move_sel(&mut self.secrets_selected, self.secrets.len(), up),
        }
    }

    /// `after` is this dialog with the selected entry of `list` deleted
    /// (see [`del_sel`]); nothing changes when `list` is empty.
    pub open spec fn list_deleted(self, list: ListField, after: Self) -> bool {
        if self.list_len(list) == 0 {
            after == self
        } else {
            let sel = self.list_sel(list);
            match list {
                ListField::EnvVars => {
                    &&& after == (CreateDialog {
                        env_vars: after.env_vars,
                        env_vars_selected: after.env_vars_selected,
                        ..self
                    })
                    &&& after.env_vars@ == self.env_vars@.remove(sel as int)
                    &&& after.env_vars_selected == del_sel(sel, after.env_vars@.len())
                },
                ListField::Mounts => {
                    &&& after == (CreateDialog {
                        mounts: after.mounts,
                        mounts_selected: after.mounts_selected,
                        ..self
                    })
                    &&& after.mounts@ == self.mounts@.remove(sel as int)
                    &&& after.mounts_selected == del_sel(sel, after.mounts@.len())
                },
                ListField::Ports => {
                    &&& after == (CreateDialog {
                        ports: after.ports,
                        ports_selected: after.ports_selected,
                        ..self
                    })
                    &&& after.ports@ == self.ports@.remove(sel as int)
                    &&& after.ports_selected == del_sel(sel, after.ports@.len())
                },
                ListField::NetworkRules => {
                    &&& after == (CreateDialog {
                        network_rules: after.network_rules,
                        network_rules_selected: after.network_rules_selected,
                        ..self
                    })
                    &&& after.network_rules@ == self.network_rules@.remove(sel as int)
                    &&& after.network_rules_selected == del_sel(sel, after.network_rules@.len())
                },
                ListField::Secrets => {
                    &&& after == (CreateDialog {
                        secrets: after.secrets,
                        secrets_selected: after.secrets_selected,
                        ..self
                    })
                    &&& after.secrets@ == self.secrets@.remove(sel as int)
                    &&& after.secrets_selected == del_sel(sel, after.secrets@.len())
                },
            }
        }
    }

    /// Delete the selected entry of `list`, if it has one.
    pub fn delete_list_selected(&mut self, list: ListField)
        requires
            old(self).selections_ok(),
        ensures
            old(self).list_deleted(list, *final(self)),
            final(self).selections_ok(),
    {
        match list {
            ListField::EnvVars => remove_selected(&mut self.env_vars, &mut self.env_vars_selected),
            ListField::Mounts => remove_selected(&mut self.mounts, &mut self.mounts_selected),
            ListField::Ports => remove_selected(&mut self.ports, &mut self.ports_selected),
            ListField::NetworkRules => remove_selected(
                &mut self.network_rules,
                &mut self.network_rules_selected,
            ),
            ListField::Secrets => remove_selected(&mut self.secrets, &mut self.secrets_selected),
        }
    }

    /// Where moving the selected network rule lands it: one place up or
    /// down, kept inside the list.
    pub open spec fn rule_move_target(self, up: bool) -> int {
        let sel = self.network_rules_selected;
        if up {
            if sel > 0 {
                sel - 1
            } else {
                0
            }
        } else if sel + 1 < self.network_rules@.len() {
            sel + 1
        } else {
            self.network_rules@.len() - 1
        }
    }

    /// `after` is this dialog with the selected network rule swapped with
    /// its neighbour above (`up`) or below, the selection following it;
    /// nothing changes with fewer than two rules or at the end of the list.
    pub open spec fn rule_moved(self, up: bool, after: Self) -> bool {
        let rules = self.network_rules@;
        let sel = self.network_rules_selected as int;
        let target = self.rule_move_target(up);
        if rules.len() < 2 || target == sel {
            after == self
        } else {
            &&& after == (CreateDialog {
                network_rules: after.network_rules,
                network_rules_selected: target as usize,
                ..self
            })
            &&& after.network_rules@ == rules.update(sel, rules[target]).update(target, rules[sel])
        }
    }

    /// Move the selected network rule one place up or down, so rules can
    /// be put in the order they are evaluated.
    pub fn move_network_rule(&mut self, up: bool)
        requires
            old(self).selections_ok(),
        ensures
            old(self).rule_moved(up, *final(self)),
            final(self).selections_ok(),
    {
        let len = self.network_rules.len();
        if len < 2 {
            return;
        }
        let sel = self.network_rules_selected;
        let target = if up {
            if sel > 0 {
                sel - 1
            } else {
                0
            }
        } else if sel + 1 < len {
            sel + 1
        } else {
            len - 1
        };
        if target == sel {
            return;
        }
        let ghost rules = self.network_rules@;
        let r = self.network_rules.remove(sel);
        self.network_rules.insert(target, r);
        self.network_rules_selected = target;
        assert(self.network_rules@ =~= rules.update(sel as int, rules[target as int]).update(
            target as int,
            rules[sel as int],
        ));
    }

    /// `after` is this dialog with the "Add" popup of `list` open and empty.
    pub open spec fn list_add_opened(self, list: ListField, after: Self) -> bool {
        match list {
            ListField::EnvVars => after == (CreateDialog {
                env_var_add: after.env_var_add,
                ..self
            }) && after.env_var_add.visible && after.env_var_add.is_fresh(),
            ListField::Mounts => after == (CreateDialog {
                mount_add: after.mount_add,
                ..self
            }) && after.mount_add.visible && after.mount_add.is_fresh(),
            ListField::Ports => after == (CreateDialog {
                port_add: after.port_add,
                ..self
            }) && after.port_add.visible && after.port_add.is_fresh(),
            ListField::NetworkRules => after == (CreateDialog {
                net_rule_add: after.net_rule_add,
                ..self
            }) && after.net_rule_add.visible && after.net_rule_add.is_fresh(),
            ListField::Secrets => after == (CreateDialog {
                secret_add: after.secret_add,
                ..self
            }) && after.secret_add.visible && after.secret_add.is_fresh(),
        }
    }

    /// Open the "Add" popup of `list`, empty.
    pub fn open_list_add(&mut self, list: ListField)
        ensures
            old(self).list_add_opened(list, *final(self)),
    {
        match list {
            ListField::EnvVars => self.env_var_add = EnvVarAddDialog::open(),
            ListField::Mounts => self.mount_add = MountAddDialog::open(),
            ListField::Ports => self.port_add = PortAddDialog::open(),
            ListField::NetworkRules => self.net_rule_add = NetRuleAddDialog::open(),
            ListField::Secrets => self.secret_add = SecretAddDialog::open(),
        }
    }

    /// `after` is this dialog with the popup of `list` open on its selected
    /// entry; unchanged when the list has no selected entry.
    pub open spec fn list_edit_opened(self, list: ListField, after: Self) -> bool {
        if self.list_sel(list) < self.list_len(list) {
            match list {
                ListField::EnvVars => after == (CreateDialog {
                    env_var_add: after.env_var_add,
                    ..self
                }) && after.env_var_add.is_edit_of(
                    self.env_vars_selected,
                    self.env_vars@[self.env_vars_selected as int],
                ),
                ListField::Mounts => after == (CreateDialog {
                    mount_add: after.mount_add,
                    ..self
                }) && after.mount_add.is_edit_of(
                    self.mounts_selected,
                    self.mounts@[self.mounts_selected as int],
                ),
                ListField::Ports => after == (CreateDialog {
                    port_add: after.port_add,
                    ..self
                }) && after.port_add.is_edit_of(
                    self.ports_selected,
                    self.ports@[self.ports_selected as int],
                ),
                ListField::NetworkRules => after == (CreateDialog {
                    net_rule_add: after.net_rule_add,
                    ..self
                }) && after.net_rule_add.is_edit_of(
                    self.network_rules_selected,
                    self.network_rules@[self.network_rules_selected as int],
                ),
                ListField::Secrets => after == (CreateDialog {
                    secret_add: after.secret_add,
                    ..self
                }) && after.secret_add.is_edit_of(
                    self.secrets_selected,
                    self.secrets@[self.secrets_selected as int],
                ),
            }
        } else {
            after == self
        }
    }

    /// Open the popup of `list` on its selected entry, if the list has
    /// one; returns whether it did.
    pub fn open_list_edit(&mut self, list: ListField) -> (opened: bool)
        ensures
            opened == (old(self).list_sel(list) < old(self).list_len(list)),
            old(self).list_edit_opened(list, *final(self)),
    {
        match list {
            ListField::EnvVars => {
                let i = self.env_vars_selected;
                if i >= self.env_vars.len() {
                    return false;
                }
                self.env_var_add = EnvVarAddDialog::open_for_edit(i, &self.env_vars[i]);
            },
            ListField::Mounts => {
                let i = self.mounts_selected;
                if i >= self.mounts.len() {
                    return false;
                }
                self.mount_add = MountAddDialog::open_for_edit(i, &self.mounts[i]);
            },
            ListField::Ports => {
                let i = self.ports_selected;
                if i >= self.ports.len() {
                    return false;
                }
                self.port_add = PortAddDialog::open_for_edit(i, self.ports[i]);
            },
            ListField::NetworkRules => {
                let i = self.network_rules_selected;
                if i >= self.network_rules.len() {
                    return false;
                }
                self.net_rule_add = NetRuleAddDialog::open_for_edit(i, &self.network_rules[i]);
            },
            ListField::Secrets => {
                let i = self.secrets_selected;
                if i >= self.secrets.len() {
                    return false;
                }
                self.secret_add = SecretAddDialog::open_for_edit(i, &self.secrets[i]);
            },
        }
        true
    }
}

/// A picker's highlight lies inside its scroll window and its entry list.
pub open spec fn picker_ok(p: DirPicker) -> bool {
    &&& p.entries@.len() <= usize::MAX
    &&& p.scroll_offset <= p.selected
    &&& p.selected < p.scroll_offset + PICKER_VISIBLE_ROWS
    &&& p.selected <= p.entries@.len()
}

//----------------------------------------------------------------------
// Volumes view and exec dialog
//----------------------------------------------------------------------

/// State of the top-level "Volumes" management view.
#[derive(Debug, Clone)]
pub struct VolumesView {
    pub visible: bool,
    pub volumes: Vec<VolumeInfo>,
    pub selected: usize,
    pub mode: SubDialogMode,
    /// Name input buffer (Add mode).
    pub name_input: String,
    /// Whether the volume being created is disk-backed (vs. directory).
    pub disk: bool,
    pub error: Option<String>,
}

impl VolumesView {
    fn build(visible: bool) -> (r: Self)
        ensures
            r.visible == visible,
            r.volumes@.len() == 0,
            r.selected == 0,
            r.mode == SubDialogMode::List,
            r.name_input@.len() == 0,
            !r.disk,
            r.error is None,
    {
        VolumesView {
            visible,
            volumes: Vec::new(),
            selected: 0,
            mode: SubDialogMode::List,
            name_input: String::new(),
            disk: false,
            error: None,
        }
    }

    pub fn closed() -> (r: Self)
        ensures
            !r.visible,
            r.volumes@.len() == 0,
            r.selected == 0,
            r.mode == SubDialogMode::List,
            r.name_input@.len() == 0,
            !r.disk,
            r.error is None,
    {
        Self::build(false)
    }

    pub fn open() -> (r: Self)
        ensures
            r.visible,
            r.volumes@.len() == 0,
            r.selected == 0,
            r.mode == SubDialogMode::List,
            r.name_input@.len() == 0,
            !r.disk,
            r.error is None,
    {
        Self::build(true)
    }
}

/// The command line prefilled in the "Exec" dialog: empty, so the user
/// must type a command.
pub const DEFAULT_EXEC_COMMAND: &'static str = "";

/// State of the "Exec" dialog: prompts for a command line to run inside a
/// running sandbox in a new host terminal window.
#[derive(Debug, Clone)]
pub struct ExecDialog {
    pub visible: bool,
    /// Name of the sandbox the command will be executed in.
    pub sandbox_name: String,
    /// Command line typed by the user.
    pub command: String,
    pub error: Option<String>,
}

impl ExecDialog {
    pub fn closed() -> (r: Self)
        ensures
            !r.visible,
            r.sandbox_name@.len() == 0,
            r.command@.len() == 0,
            r.error is None,
    {
        ExecDialog { visible: false, sandbox_name: String::new(), command: String::new(), error: None }
    }

    /// Open the dialog for the given sandbox with an empty command line.
    pub fn open(sandbox_name: String) -> (r: Self)
        ensures
            r.visible,
            r.sandbox_name == sandbox_name,
            r.command@ == DEFAULT_EXEC_COMMAND@,
            r.error is None,
    {
        ExecDialog {
            visible: true,
            sandbox_name,
            command: to_string(DEFAULT_EXEC_COMMAND),
            error: None,
        }
    }
}

} // verus!
