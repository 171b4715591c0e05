//! Key handling inside the create dialog's "Add" popups (ports,
//! environment variables, network rules, mounts, secrets) and the checks
//! that run when a popup is submitted.
use vstd::prelude::*;

use crate::sandbox::{
    join_hosts, host_text, port_range_text, MountSource, NetRuleAction, NetRuleDestGroup, NetRuleDestKind, NetRuleDirection,
    NetRuleProtocol, NetworkRule, SecretConfig, SecretHostKind, SecretHostPattern,
    VolumeMountConfig,
};
use crate::text::{
    chars_of, contains_char, copy_string, decimal, has_char, index_of, is_digit, is_digit_spec,
    is_whitespace, lemma_decimal_digits, lemma_decimal_reads_back, lemma_index_of,
    lemma_split_concat, lemma_split_single, lemma_trim_digits, lemma_trim_idempotent,
    lemma_trim_space_prefix,
    trim_end, trim_start,
    is_whitespace_spec, parse_unsigned, parse_unsigned_str, pop_char, push_char, split,
    split_chars, str_eq, string_from_chars, trim, trim_chars, trim_str,
};

use super::actions::{parent_of, path_parent};
use super::dialogs::{
    del_sel, moved_sel, CreateDialog, DialogTab, DirPicker, EnvVarAddDialog, FieldEdit, ListField,
    MountAddDialog,
    MountKindChoice, NetRuleAddDialog, PortAddDialog, SecretAddDialog, DRIVES_ENTRY,
    PICKER_VISIBLE_ROWS, picker_ok, sel_ok,
};
use super::keys::{KeyCode, KeyModifiers};
use super::{Effect, PickerTarget};
use super::validate::{
    cidr_error, is_ip_addr, is_ip_address, parse_port_range, port_range_parse, validate_cidr,
};

verus! {

/// `s` without its last character (unchanged when empty).
pub open spec fn popped(s: Seq<char>) -> Seq<char> {
    if s.len() > 0 {
        s.drop_last()
    } else {
        s
    }
}

/// `new_list` is `list` with one entry stored: at `editing` when editing
/// an existing entry, else appended; `new_sel` selects it.
pub open spec fn stored_at<T>(
    list: Seq<T>,
    editing: Option<usize>,
    new_list: Seq<T>,
    new_sel: usize,
) -> bool {
    match editing {
        Some(i) => i < list.len() && new_list == list.update(i as int, new_list[i as int])
            && new_sel == i,
        None => new_list.len() == list.len() + 1 && new_list == list.push(new_list.last())
            && new_sel == list.len(),
    }
}

/// Store `item` in `list` at `editing`, or append it; select it.
fn store<T>(list: &mut Vec<T>, sel: &mut usize, editing: Option<usize>, item: T)
    requires
        editing matches Some(i) ==> i < old(list)@.len(),
    ensures
        stored_at(old(list)@, editing, final(list)@, *final(sel)),
        final(list)@[*final(sel) as int] == item,
{
    match editing {
        Some(i) => {
            list.set(i, item);
            *sel = i;
        },
        None => {
            list.push(item);
            *sel = list.len() - 1;
        },
    }
}

/// The keys that move between the two inputs of a two-field popup.
pub open spec fn is_field_switch(code: KeyCode) -> bool {
    code == KeyCode::Tab || code == KeyCode::Down || code == KeyCode::BackTab || code
        == KeyCode::Up
}

//----------------------------------------------------------------------
// Port mappings
//----------------------------------------------------------------------

/// `e` is `d` once the port popup was submitted: both ports parsed
/// (trimmed, 0 to 65535) and the mapping stored, or the first bad port
/// reported.
pub open spec fn port_submitted(d: CreateDialog, e: CreateDialog) -> bool {
    let p = d.port_add;
    match (
        parse_unsigned(trim(p.host_input@), 65535),
        parse_unsigned(trim(p.guest_input@), 65535),
    ) {
        (Some(h), Some(g)) => {
            &&& e == (CreateDialog {
                ports: e.ports,
                ports_selected: e.ports_selected,
                port_add: PortAddDialog { visible: false, ..p },
                ..d
            })
            &&& stored_at(d.ports@, p.editing_index, e.ports@, e.ports_selected)
            &&& e.ports@[e.ports_selected as int] == (h as u16, g as u16)
        },
        (None, _) => {
            &&& e == (CreateDialog { port_add: PortAddDialog { error: e.port_add.error, ..p }, ..d })
            &&& e.port_add.error matches Some(m) && m@ == "Invalid host port (0–65535)"@
        },
        (Some(_), None) => {
            &&& e == (CreateDialog { port_add: PortAddDialog { error: e.port_add.error, ..p }, ..d })
            &&& e.port_add.error matches Some(m) && m@ == "Invalid guest port (0–65535)"@
        },
    }
}

/// `e` is `d` after `code` reached the port popup: Esc closes it, the
/// navigation keys switch between host and guest port, digits and
/// Backspace edit the focused port, and Enter moves on or submits.
pub open spec fn port_add_key_done(d: CreateDialog, code: KeyCode, e: CreateDialog) -> bool {
    let p = d.port_add;
    if code == KeyCode::Esc {
        e == (CreateDialog { port_add: PortAddDialog { visible: false, ..p }, ..d })
    } else if is_field_switch(code) {
        e == (CreateDialog {
            port_add: PortAddDialog { add_field: ((p.add_field + 1) % 2) as usize, ..p },
            ..d
        })
    } else if code == KeyCode::Backspace {
        if p.add_field == 0 {
            &&& e == (CreateDialog {
                port_add: PortAddDialog { host_input: e.port_add.host_input, error: None, ..p },
                ..d
            })
            &&& e.port_add.host_input@ == popped(p.host_input@)
        } else {
            &&& e == (CreateDialog {
                port_add: PortAddDialog { guest_input: e.port_add.guest_input, error: None, ..p },
                ..d
            })
            &&& e.port_add.guest_input@ == popped(p.guest_input@)
        }
    } else if code == KeyCode::Enter {
        if p.add_field == 0 {
            e == (CreateDialog { port_add: PortAddDialog { add_field: 1, ..p }, ..d })
        } else {
            port_submitted(d, e)
        }
    } else if code matches KeyCode::Char(c) && is_digit_spec(c) {
        let c = code->Char_0;
        if p.add_field == 0 {
            &&& e == (CreateDialog {
                port_add: PortAddDialog { host_input: e.port_add.host_input, error: None, ..p },
                ..d
            })
            &&& e.port_add.host_input@ == p.host_input@.push(c)
        } else {
            &&& e == (CreateDialog {
                port_add: PortAddDialog { guest_input: e.port_add.guest_input, error: None, ..p },
                ..d
            })
            &&& e.port_add.guest_input@ == p.guest_input@.push(c)
        }
    } else {
        e == d
    }
}

impl CreateDialog {
    /// Handle a key while the port popup is open (see
    /// [`port_add_key_done`]).
    pub fn handle_port_add_key(&mut self, code: KeyCode)
        requires
            old(self).port_add.visible,
            old(self).wf(),
        ensures
            port_add_key_done(*old(self), code, *final(self)),
    {
        match code {
            KeyCode::Esc => {
                self.port_add.visible = false;
            },
            KeyCode::Tab | KeyCode::Down | KeyCode::BackTab | KeyCode::Up => {
                let f = self.port_add.add_field;
                self.port_add.add_field = (f + 1) % 2;
            },
            KeyCode::Backspace => {
                if self.port_add.add_field == 0 {
                    let _ = pop_char(&mut self.port_add.host_input);
                } else {
                    let _ = pop_char(&mut self.port_add.guest_input);
                }
                self.port_add.error = None;
            },
            KeyCode::Enter => {
                if self.port_add.add_field == 0 {
                    self.port_add.add_field = 1;
                } else {
                    self.submit_port();
                }
            },
            KeyCode::Char(c) => {
                if is_digit(c) {
                    if self.port_add.add_field == 0 {
                        push_char(&mut self.port_add.host_input, c);
                    } else {
                        push_char(&mut self.port_add.guest_input, c);
                    }
                    self.port_add.error = None;
                }
            },
            _ => {},
        }
    }

    fn submit_port(&mut self)
        requires
            old(self).port_add.visible,
            old(self).edits_ok(),
        ensures
            port_submitted(*old(self), *final(self)),
    {
        let host_t = trim_str(self.port_add.host_input.as_str());
        let guest_t = trim_str(self.port_add.guest_input.as_str());
        let host = parse_unsigned_str(host_t.as_str(), 65535);
        let guest = parse_unsigned_str(guest_t.as_str(), 65535);
        match (host, guest) {
            (Some(h), Some(g)) => {
                let editing = self.port_add.editing_index;
                store(&mut self.ports, &mut self.ports_selected, editing, (h as u16, g as u16));
                self.port_add.visible = false;
            },
            (None, _) => {
                self.port_add.error = Some(crate::text::to_string("Invalid host port (0–65535)"));
            },
            (Some(_), None) => {
                self.port_add.error = Some(crate::text::to_string("Invalid guest port (0–65535)"));
            },
        }
    }
}

/// Editing a port mapping and saving it unchanged keeps the list as it
/// was, with that mapping selected and the popup closed.
pub proof fn law_port_edit_round_trip(d: CreateDialog, i: usize, e: CreateDialog)
    requires
        i < d.ports@.len(),
        d.port_add.is_edit_of(i, d.ports@[i as int]),
        port_submitted(d, e),
    ensures
        e.ports@ == d.ports@,
        e.ports_selected == i,
        !e.port_add.visible,
{
    let (h, g) = d.ports@[i as int];
    lemma_decimal_reads_back(h as nat, 65535);
    lemma_decimal_reads_back(g as nat, 65535);
    assert(e.ports@ =~= d.ports@);
}

//----------------------------------------------------------------------
// Environment variables
//----------------------------------------------------------------------

/// `e` is `d` once the variable popup was submitted: the trimmed key must
/// be non-empty and free of `=`; the value is kept as typed.
pub open spec fn env_var_submitted(d: CreateDialog, e: CreateDialog) -> bool {
    let p = d.env_var_add;
    let key = trim(p.key_input@);
    if key.len() == 0 || has_char(key, '=') {
        &&& e == (CreateDialog {
            env_var_add: EnvVarAddDialog { error: e.env_var_add.error, ..p },
            ..d
        })
        &&& e.env_var_add.error matches Some(m) && m@ == if key.len() == 0 {
            "Key cannot be empty"@
        } else {
            "Key must not contain '='"@
        }
    } else {
        &&& e == (CreateDialog {
            env_vars: e.env_vars,
            env_vars_selected: e.env_vars_selected,
            env_var_add: EnvVarAddDialog { visible: false, ..p },
            ..d
        })
        &&& stored_at(d.env_vars@, p.editing_index, e.env_vars@, e.env_vars_selected)
        &&& e.env_vars@[e.env_vars_selected as int].0@ == key
        &&& e.env_vars@[e.env_vars_selected as int].1@ == p.value_input@
    }
}

/// Editing an environment variable and saving it unchanged keeps it: an
/// entry whose key is trimmed, non-empty and free of `=` (as every stored
/// key is) comes back in place with the same key and value, the rest of
/// the list untouched.
pub proof fn law_env_var_edit_round_trip(d: CreateDialog, i: usize, e: CreateDialog)
    requires
        i < d.env_vars@.len(),
        d.env_var_add.is_edit_of(i, d.env_vars@[i as int]),
        trim(d.env_vars@[i as int].0@) == d.env_vars@[i as int].0@,
        d.env_vars@[i as int].0@.len() > 0,
        !has_char(d.env_vars@[i as int].0@, '='),
        env_var_submitted(d, e),
    ensures
        e.env_vars@.len() == d.env_vars@.len(),
        e.env_vars_selected == i,
        !e.env_var_add.visible,
        e.env_vars@[i as int].0@ == d.env_vars@[i as int].0@,
        e.env_vars@[i as int].1@ == d.env_vars@[i as int].1@,
        forall|j: int| 0 <= j < d.env_vars@.len() && j != i ==> e.env_vars@[j] == d.env_vars@[j],
{
}

/// A key the variable popup stores: trimmed, non-empty and free of `=`.
pub open spec fn env_key_ok(k: Seq<char>) -> bool {
    &&& trim(k) == k
    &&& k.len() > 0
    &&& !has_char(k, '=')
}

/// Every key of the environment-variable list is one the popup stores.
pub open spec fn env_keys_ok(vars: Seq<(String, String)>) -> bool {
    forall|j: int| 0 <= j < vars.len() ==> env_key_ok(#[trigger] vars[j].0@)
}

/// Saving the variable popup keeps every key of the list trimmed,
/// non-empty and free of `=`, and the selection on an entry.
pub proof fn law_env_var_submit_keeps_keys(d: CreateDialog, e: CreateDialog)
    requires
        env_keys_ok(d.env_vars@),
        sel_ok(d.env_vars_selected, d.env_vars@.len()),
        d.env_var_add.editing_index matches Some(i) ==> i < d.env_vars@.len(),
        env_var_submitted(d, e),
    ensures
        env_keys_ok(e.env_vars@),
        sel_ok(e.env_vars_selected, e.env_vars@.len()),
{
    let key = trim(d.env_var_add.key_input@);
    lemma_trim_idempotent(d.env_var_add.key_input@);
    if !(key.len() == 0 || has_char(key, '=')) {
        assert forall|j: int| 0 <= j < e.env_vars@.len() implies env_key_ok(
            #[trigger] e.env_vars@[j].0@,
        ) by {
            if j != e.env_vars_selected {
                assert(e.env_vars@[j] == d.env_vars@[j]);
            }
        }
    }
}

/// `e` is `d` after `code` reached the variable popup: Esc closes it, the
/// navigation keys switch between key and value, characters and
/// Backspace edit the focused input (`=` is refused in the key), and
/// Enter moves on or submits.
pub open spec fn env_var_add_key_done(d: CreateDialog, code: KeyCode, e: CreateDialog) -> bool {
    let p = d.env_var_add;
    if code == KeyCode::Esc {
        e == (CreateDialog { env_var_add: EnvVarAddDialog { visible: false, ..p }, ..d })
    } else if is_field_switch(code) {
        e == (CreateDialog {
            env_var_add: EnvVarAddDialog { add_field: ((p.add_field + 1) % 2) as usize, ..p },
            ..d
        })
    } else if code == KeyCode::Backspace {
        if p.add_field == 0 {
            &&& e == (CreateDialog {
                env_var_add: EnvVarAddDialog { key_input: e.env_var_add.key_input, error: None, ..p },
                ..d
            })
            &&& e.env_var_add.key_input@ == popped(p.key_input@)
        } else {
            &&& e == (CreateDialog {
                env_var_add: EnvVarAddDialog {
                    value_input: e.env_var_add.value_input,
                    error: None,
                    ..p
                },
                ..d
            })
            &&& e.env_var_add.value_input@ == popped(p.value_input@)
        }
    } else if code == KeyCode::Enter {
        if p.add_field == 0 {
            e == (CreateDialog { env_var_add: EnvVarAddDialog { add_field: 1, ..p }, ..d })
        } else {
            env_var_submitted(d, e)
        }
    } else if code is Char {
        let c = code->Char_0;
        if p.add_field == 0 && c == '=' {
            &&& e == (CreateDialog {
                env_var_add: EnvVarAddDialog { error: e.env_var_add.error, ..p },
                ..d
            })
            &&& e.env_var_add.error matches Some(m) && m@ == "Key must not contain '='"@
        } else if p.add_field == 0 {
            &&& e == (CreateDialog {
                env_var_add: EnvVarAddDialog { key_input: e.env_var_add.key_input, error: None, ..p },
                ..d
            })
            &&& e.env_var_add.key_input@ == p.key_input@.push(c)
        } else {
            &&& e == (CreateDialog {
                env_var_add: EnvVarAddDialog {
                    value_input: e.env_var_add.value_input,
                    error: None,
                    ..p
                },
                ..d
            })
            &&& e.env_var_add.value_input@ == p.value_input@.push(c)
        }
    } else {
        e == d
    }
}

impl CreateDialog {
    /// Handle a key while the environment-variable popup is open (see
    /// [`env_var_add_key_done`]).
    pub fn handle_env_var_add_key(&mut self, code: KeyCode)
        requires
            old(self).env_var_add.visible,
            old(self).wf(),
        ensures
            env_var_add_key_done(*old(self), code, *final(self)),
    {
        match code {
            KeyCode::Esc => {
                self.env_var_add.visible = false;
            },
            KeyCode::Tab | KeyCode::Down | KeyCode::BackTab | KeyCode::Up => {
                let f = self.env_var_add.add_field;
                self.env_var_add.add_field = (f + 1) % 2;
            },
            KeyCode::Backspace => {
                if self.env_var_add.add_field == 0 {
                    let _ = pop_char(&mut self.env_var_add.key_input);
                } else {
                    let _ = pop_char(&mut self.env_var_add.value_input);
                }
                self.env_var_add.error = None;
            },
            KeyCode::Enter => {
                if self.env_var_add.add_field == 0 {
                    self.env_var_add.add_field = 1;
                } else {
                    self.submit_env_var();
                }
            },
            KeyCode::Char(c) => {
                if self.env_var_add.add_field == 0 && c == '=' {
                    self.env_var_add.error = Some(
                        crate::text::to_string("Key must not contain '='"),
                    );
                    return;
                }
                if self.env_var_add.add_field == 0 {
                    push_char(&mut self.env_var_add.key_input, c);
                } else {
                    push_char(&mut self.env_var_add.value_input, c);
                }
                self.env_var_add.error = None;
            },
            _ => {},
        }
    }

    fn submit_env_var(&mut self)
        requires
            old(self).env_var_add.visible,
            old(self).edits_ok(),
        ensures
            env_var_submitted(*old(self), *final(self)),
    {
        let key_cs = trim_chars(&chars_of(self.env_var_add.key_input.as_str()));
        if key_cs.len() == 0 {
            self.env_var_add.error = Some(crate::text::to_string("Key cannot be empty"));
            return;
        }
        if contains_char(&key_cs, '=') {
            self.env_var_add.error = Some(crate::text::to_string("Key must not contain '='"));
            return;
        }
        let key = string_from_chars(&key_cs);
        let value = copy_string(&self.env_var_add.value_input);
        let editing = self.env_var_add.editing_index;
        store(&mut self.env_vars, &mut self.env_vars_selected, editing, (key, value));
        self.env_var_add.visible = false;
    }
}


//----------------------------------------------------------------------
// Network rules
//----------------------------------------------------------------------

/// Index of the first `x` in `s`, or -1.
pub open spec fn first_index<T>(s: Seq<T>, x: T) -> int
    decreases s.len(),
{
    if s.len() == 0 {
        -1
    } else if s[0] == x {
        0
    } else {
        let r = first_index(s.drop_first(), x);
        if r < 0 {
            -1
        } else {
            r + 1
        }
    }
}

proof fn lemma_first_index<T>(s: Seq<T>, x: T, i: int)
    requires
        0 <= i <= s.len(),
        forall|j: int| 0 <= j < i ==> s[j] != x,
    ensures
        i < s.len() && s[i] == x ==> first_index(s, x) == i,
        i == s.len() ==> first_index(s, x) == -1,
    decreases i,
{
    if i > 0 {
        lemma_first_index(s.drop_first(), x, i - 1);
    }
}

/// Some protocol of `ps` is one of the two control-message protocols,
/// which only egress rules may name.
pub open spec fn has_control_msg_protocol(ps: Seq<NetRuleProtocol>) -> bool {
    exists|i: int| 0 <= i < ps.len() && (#[trigger] ps[i]).is_icmp_spec()
}

/// `e` is `d` after Space on the protocol list: the highlighted protocol
/// is switched off when on and on when off, except that an ingress rule
/// refuses the control-message protocols.
pub open spec fn protocol_toggled(d: CreateDialog, e: CreateDialog) -> bool {
    let r = d.net_rule_add;
    let proto = NetRuleProtocol::at(r.protocol_cursor);
    let i = first_index(r.protocols@, proto);
    if proto.is_icmp_spec() && r.direction == NetRuleDirection::Ingress {
        &&& e == (CreateDialog {
            net_rule_add: NetRuleAddDialog { error: e.net_rule_add.error, ..r },
            ..d
        })
        &&& e.net_rule_add.error matches Some(m) && m@ == "ICMP protocols are egress-only"@
    } else {
        &&& e == (CreateDialog {
            net_rule_add: NetRuleAddDialog { protocols: e.net_rule_add.protocols, error: None, ..r },
            ..d
        })
        &&& e.net_rule_add.protocols@ == if i >= 0 {
            r.protocols@.remove(i)
        } else {
            r.protocols@.push(proto)
        }
    }
}

fn control_msg_protocol_in(ps: &Vec<NetRuleProtocol>) -> (r: bool)
    ensures
        r == has_control_msg_protocol(ps@),
{
    let n = ps.len();
    for i in 0..n
        invariant
            n == ps@.len(),
            forall|j: int| 0 <= j < i ==> !(#[trigger] ps@[j]).is_icmp_spec(),
    {
        if ps[i].is_icmp() {
            return true;
        }
    }
    false
}

fn position_of_protocol(ps: &Vec<NetRuleProtocol>, p: NetRuleProtocol) -> (r: Option<usize>)
    ensures
        match r {
            Some(i) => i < ps@.len() && first_index(ps@, p) == i,
            None => first_index(ps@, p) == -1,
        },
{
    let n = ps.len();
    for i in 0..n
        invariant
            n == ps@.len(),
            forall|j: int| 0 <= j < i ==> ps@[j] != p,
    {
        if ps[i] == p {
            proof {
                lemma_first_index(ps@, p, i as int);
            }
            return Some(i);
        }
    }
    proof {
        lemma_first_index(ps@, p, n as int);
    }
    None
}

/// What the port filter of a rule becomes: none when blank, else the
/// parsed port or range.
pub open spec fn rule_ports(input: Seq<char>) -> Result<Option<(u16, u16)>, Seq<char>> {
    let t = trim(input);
    if t.len() == 0 {
        Ok(None)
    } else {
        match port_range_parse(t) {
            Ok(pr) => Ok(Some(pr)),
            Err(m) => Err(m),
        }
    }
}

/// Why the rule popup of `d` cannot be submitted, or `None`: an ingress
/// rule may not name the control-message protocols; a destination kind
/// that takes a value needs one (trimmed), which must be an IP address,
/// a CIDR block, or a domain without whitespace; the port filter must
/// parse.
pub open spec fn net_rule_error(d: CreateDialog) -> Option<Seq<char>> {
    let r = d.net_rule_add;
    let v = trim(r.dest_input@);
    if r.direction == NetRuleDirection::Ingress && has_control_msg_protocol(r.protocols@) {
        Some("ICMP protocols are egress-only"@)
    } else if r.dest_kind.needs_text_spec() && v.len() == 0 {
        Some("Destination value is required"@)
    } else if r.dest_kind == NetRuleDestKind::Ip && !is_ip_addr(v) {
        Some("Invalid IP address"@)
    } else if r.dest_kind == NetRuleDestKind::Cidr && cidr_error(v) is Some {
        cidr_error(v)
    } else if (r.dest_kind == NetRuleDestKind::Domain || r.dest_kind
        == NetRuleDestKind::DomainSuffix) && exists|i: int|
        0 <= i < v.len() && is_whitespace_spec(#[trigger] v[i]) {
        Some("Domain must not contain whitespace"@)
    } else {
        match rule_ports(r.ports_input@) {
            Err(m) => Some(m),
            Ok(_) => None,
        }
    }
}

/// `e` is `d` once the rule popup was submitted: the first problem found
/// (see [`net_rule_error`]) is shown, or the rule is stored with its
/// trimmed destination value and parsed port filter, and the popup
/// closes.
pub open spec fn net_rule_submitted(d: CreateDialog, e: CreateDialog) -> bool {
    let r = d.net_rule_add;
    match net_rule_error(d) {
        Some(m) => {
            &&& e == (CreateDialog {
                net_rule_add: NetRuleAddDialog { error: e.net_rule_add.error, ..r },
                ..d
            })
            &&& e.net_rule_add.error matches Some(x) && x@ == m
        },
        None => {
            let rule = e.network_rules@[e.network_rules_selected as int];
            &&& e == (CreateDialog {
                network_rules: e.network_rules,
                network_rules_selected: e.network_rules_selected,
                net_rule_add: NetRuleAddDialog { visible: false, ..r },
                ..d
            })
            &&& stored_at(d.network_rules@, r.editing_index, e.network_rules@, e.network_rules_selected)
            &&& rule.direction == r.direction
            &&& rule.action == r.action
            &&& rule.dest_kind == r.dest_kind
            &&& rule.dest_value@ == trim(r.dest_input@)
            &&& rule.dest_group == r.dest_group
            &&& rule.protocols@ == r.protocols@
            &&& rule_ports(r.ports_input@) == Ok::<Option<(u16, u16)>, Seq<char>>(rule.port_range)
        },
    }
}

/// The text of a port filter reads back as that filter, when a range runs
/// from low to high.
pub proof fn lemma_rule_ports_round_trip(pr: Option<(u16, u16)>)
    requires
        pr matches Some((lo, hi)) ==> lo <= hi,
    ensures
        rule_ports(port_range_text(pr)) == Ok::<Option<(u16, u16)>, Seq<char>>(pr),
{
    match pr {
        None => {
            assert(trim(seq![]) =~= Seq::<char>::empty());
        },
        Some((lo, hi)) => {
            let a = decimal(lo as nat);
            lemma_decimal_digits(lo as nat);
            lemma_decimal_reads_back(lo as nat, 65535);
            lemma_index_of(a, '-', a.len() as int);
            if lo == hi {
                lemma_trim_digits(a);
            } else {
                let b = decimal(hi as nat);
                lemma_decimal_digits(hi as nat);
                lemma_decimal_reads_back(hi as nat, 65535);
                reveal_strlit("-");
                let t = a + "-"@ + b;
                assert(t =~= a + seq!['-'] + b);
                assert(!is_whitespace_spec(t[0]));
                assert(t.last() == b.last());
                assert(!is_whitespace_spec(t.last()));
                assert(trim_start(t) == t);
                assert(trim_end(t) == t);
                lemma_index_of(t, '-', a.len() as int);
                assert(t.take(a.len() as int) =~= a);
                assert(t.skip(a.len() as int + 1) =~= b);
            }
        },
    }
}

/// A stored network rule passes the checks of the rule popup: an ingress
/// rule names no control-message protocol; the destination value is
/// trimmed, present when its kind takes one, and an IP address, a CIDR
/// block or a domain without whitespace as its kind asks; a port range
/// runs from low to high.
pub open spec fn rule_accepted(rule: NetworkRule) -> bool {
    let v = rule.dest_value@;
    &&& !(rule.direction == NetRuleDirection::Ingress && has_control_msg_protocol(rule.protocols@))
    &&& trim(v) == v
    &&& (rule.dest_kind.needs_text_spec() ==> v.len() > 0)
    &&& (rule.dest_kind == NetRuleDestKind::Ip ==> is_ip_addr(v))
    &&& (rule.dest_kind == NetRuleDestKind::Cidr ==> cidr_error(v) is None)
    &&& (rule.dest_kind == NetRuleDestKind::Domain || rule.dest_kind
        == NetRuleDestKind::DomainSuffix ==> forall|i: int|
        0 <= i < v.len() ==> !is_whitespace_spec(#[trigger] v[i]))
    &&& (rule.port_range matches Some((lo, hi)) ==> lo <= hi)
}

/// Editing a network rule that passes the popup's checks and saving it
/// unchanged (BackTab to the last field, then Enter) gives the rule back
/// in place, field for field, the rest of the list untouched, with that
/// rule selected and the popup closed.
pub proof fn law_net_rule_edit_round_trip(d: CreateDialog, i: usize, mid: CreateDialog, e: CreateDialog)
    requires
        i < d.network_rules@.len(),
        d.net_rule_add.is_edit_of(i, d.network_rules@[i as int]),
        rule_accepted(d.network_rules@[i as int]),
        net_rule_add_key_done(d, KeyCode::BackTab, mid),
        net_rule_add_key_done(mid, KeyCode::Enter, e),
    ensures
        e.network_rules@.len() == d.network_rules@.len(),
        e.network_rules_selected == i,
        !e.net_rule_add.visible,
        e.network_rules@[i as int].direction == d.network_rules@[i as int].direction,
        e.network_rules@[i as int].action == d.network_rules@[i as int].action,
        e.network_rules@[i as int].dest_kind == d.network_rules@[i as int].dest_kind,
        e.network_rules@[i as int].dest_value@ == d.network_rules@[i as int].dest_value@,
        e.network_rules@[i as int].dest_group == d.network_rules@[i as int].dest_group,
        e.network_rules@[i as int].protocols@ == d.network_rules@[i as int].protocols@,
        e.network_rules@[i as int].port_range == d.network_rules@[i as int].port_range,
        forall|j: int|
            0 <= j < d.network_rules@.len() && j != i ==> e.network_rules@[j] == d.network_rules@[j],
{
    let rule = d.network_rules@[i as int];
    lemma_rule_ports_round_trip(rule.port_range);
    assert(mid.net_rule_add.add_field == 5);
    assert(net_rule_error(mid) is None);
}

/// The keys that cycle a choice in the rule popup.
pub open spec fn is_cycle_key(code: KeyCode) -> bool {
    code == KeyCode::Left || code == KeyCode::Right || code == KeyCode::Char(' ')
}

/// `e` is `d` after `code` reached the rule popup. Tab/Down and
/// BackTab/Up move between the six fields (wrapping); Left, Right and
/// Space cycle the direction, action, destination kind and (for a group
/// destination) the group; characters and Backspace edit the destination
/// value (for kinds that take one) and the port filter (digits and `-`);
/// Left/Right move over the protocols and Space toggles one; Enter moves
/// on, or submits from the last field.
pub open spec fn net_rule_add_key_done(d: CreateDialog, code: KeyCode, e: CreateDialog) -> bool {
    let r = d.net_rule_add;
    let f = r.add_field;
    if code == KeyCode::Esc {
        e == (CreateDialog { net_rule_add: NetRuleAddDialog { visible: false, ..r }, ..d })
    } else if code == KeyCode::Tab || code == KeyCode::Down {
        e == (CreateDialog {
            net_rule_add: NetRuleAddDialog { add_field: ((f + 1) % 6) as usize, ..r },
            ..d
        })
    } else if code == KeyCode::BackTab || code == KeyCode::Up {
        e == (CreateDialog {
            net_rule_add: NetRuleAddDialog { add_field: ((f + 5) % 6) as usize, ..r },
            ..d
        })
    } else if is_cycle_key(code) && f == 0 {
        e == (CreateDialog {
            net_rule_add: NetRuleAddDialog { direction: r.direction.next(), error: None, ..r },
            ..d
        })
    } else if is_cycle_key(code) && f == 1 {
        e == (CreateDialog {
            net_rule_add: NetRuleAddDialog { action: r.action.next(), error: None, ..r },
            ..d
        })
    } else if is_cycle_key(code) && f == 2 {
        e == (CreateDialog {
            net_rule_add: NetRuleAddDialog { dest_kind: r.dest_kind.next(), error: None, ..r },
            ..d
        })
    } else if is_cycle_key(code) && f == 3 && r.dest_kind == NetRuleDestKind::Group {
        e == (CreateDialog {
            net_rule_add: NetRuleAddDialog { dest_group: r.dest_group.next(), error: None, ..r },
            ..d
        })
    } else if code == KeyCode::Backspace && f == 3 {
        &&& e == (CreateDialog {
            net_rule_add: NetRuleAddDialog { dest_input: e.net_rule_add.dest_input, error: None, ..r },
            ..d
        })
        &&& e.net_rule_add.dest_input@ == popped(r.dest_input@)
    } else if code is Char && f == 3 && r.dest_kind.needs_text_spec() {
        &&& e == (CreateDialog {
            net_rule_add: NetRuleAddDialog { dest_input: e.net_rule_add.dest_input, error: None, ..r },
            ..d
        })
        &&& e.net_rule_add.dest_input@ == r.dest_input@.push(code->Char_0)
    } else if code == KeyCode::Left && f == 4 {
        e == (CreateDialog {
            net_rule_add: NetRuleAddDialog {
                protocol_cursor: ((r.protocol_cursor + 3) % 4) as usize,
                ..r
            },
            ..d
        })
    } else if code == KeyCode::Right && f == 4 {
        e == (CreateDialog {
            net_rule_add: NetRuleAddDialog {
                protocol_cursor: ((r.protocol_cursor + 1) % 4) as usize,
                ..r
            },
            ..d
        })
    } else if code == KeyCode::Char(' ') && f == 4 {
        protocol_toggled(d, e)
    } else if code == KeyCode::Backspace && f == 5 {
        &&& e == (CreateDialog {
            net_rule_add: NetRuleAddDialog { ports_input: e.net_rule_add.ports_input, error: None, ..r },
            ..d
        })
        &&& e.net_rule_add.ports_input@ == popped(r.ports_input@)
    } else if code matches KeyCode::Char(c) && f == 5 && (is_digit_spec(c) || c == '-') {
        &&& e == (CreateDialog {
            net_rule_add: NetRuleAddDialog { ports_input: e.net_rule_add.ports_input, error: None, ..r },
            ..d
        })
        &&& e.net_rule_add.ports_input@ == r.ports_input@.push(code->Char_0)
    } else if code == KeyCode::Enter {
        if f == 5 {
            net_rule_submitted(d, e)
        } else {
            e == (CreateDialog {
                net_rule_add: NetRuleAddDialog { add_field: (f + 1) as usize, ..r },
                ..d
            })
        }
    } else {
        e == d
    }
}

impl CreateDialog {
    fn toggle_protocol(&mut self)
        requires
            old(self).net_rule_add.protocol_cursor < 4,
        ensures
            protocol_toggled(*old(self), *final(self)),
    {
        let proto = NetRuleProtocol::nth(self.net_rule_add.protocol_cursor);
        if proto.is_icmp() && self.net_rule_add.direction == NetRuleDirection::Ingress {
            self.net_rule_add.error = Some(
                crate::text::to_string("ICMP protocols are egress-only"),
            );
            return;
        }
        match position_of_protocol(&self.net_rule_add.protocols, proto) {
            Some(i) => {
                let _ = self.net_rule_add.protocols.remove(i);
            },
            None => {
                self.net_rule_add.protocols.push(proto);
            },
        }
        self.net_rule_add.error = None;
    }

    /// Check the rule popup (see [`net_rule_error`]); on success the
    /// trimmed destination value and the port filter.
    fn net_rule_checked(&self) -> (r: Result<(String, Option<(u16, u16)>), &'static str>)
        ensures
            match net_rule_error(*self) {
                Some(m) => r matches Err(x) && x@ == m,
                None => r matches Ok((v, pr)) && v@ == trim(self.net_rule_add.dest_input@)
                    && rule_ports(self.net_rule_add.ports_input@) == Ok::<
                    Option<(u16, u16)>,
                    Seq<char>,
                >(pr),
            },
    {
        let r = &self.net_rule_add;
        if r.direction == NetRuleDirection::Ingress && control_msg_protocol_in(&r.protocols) {
            return Err("ICMP protocols are egress-only");
        }
        let v = trim_str(r.dest_input.as_str());
        if r.dest_kind.needs_text_value() && v.as_str().is_empty() {
            return Err("Destination value is required");
        }
        if r.dest_kind == NetRuleDestKind::Ip && !is_ip_address(v.as_str()) {
            return Err("Invalid IP address");
        }
        if r.dest_kind == NetRuleDestKind::Cidr {
            if let Err(m) = validate_cidr(v.as_str()) {
                return Err(m);
            }
        }
        if r.dest_kind == NetRuleDestKind::Domain || r.dest_kind == NetRuleDestKind::DomainSuffix {
            if has_whitespace(v.as_str()) {
                return Err("Domain must not contain whitespace");
            }
        }
        let pt = trim_str(r.ports_input.as_str());
        let pr = if pt.as_str().is_empty() {
            None
        } else {
            match parse_port_range(pt.as_str()) {
                Ok(x) => Some(x),
                Err(m) => return Err(m),
            }
        };
        Ok((v, pr))
    }

    fn submit_net_rule(&mut self)
        requires
            old(self).net_rule_add.visible,
            old(self).edits_ok(),
        ensures
            net_rule_submitted(*old(self), *final(self)),
    {
        match self.net_rule_checked() {
            Err(m) => {
                self.net_rule_add.error = Some(crate::text::to_string(m));
            },
            Ok((dest_value, port_range)) => {
                let r = &self.net_rule_add;
                let mut protocols: Vec<NetRuleProtocol> = Vec::new();
                let n = r.protocols.len();
                for i in 0..n
                    invariant
                        n == r.protocols@.len(),
                        protocols@ == r.protocols@.take(i as int),
                {
                    protocols.push(r.protocols[i]);
                    assert(protocols@ =~= r.protocols@.take(i + 1));
                }
                assert(r.protocols@.take(n as int) =~= r.protocols@);
                let rule = NetworkRule {
                    direction: r.direction,
                    action: r.action,
                    dest_kind: r.dest_kind,
                    dest_value,
                    dest_group: r.dest_group,
                    protocols,
                    port_range,
                };
                let editing = r.editing_index;
                store(&mut self.network_rules, &mut self.network_rules_selected, editing, rule);
                self.net_rule_add.visible = false;
            },
        }
    }

    /// Handle a key while the network-rule popup is open (see
    /// [`net_rule_add_key_done`]).
    pub fn handle_net_rule_add_key(&mut self, code: KeyCode)
        requires
            old(self).net_rule_add.visible,
            old(self).wf(),
        ensures
            net_rule_add_key_done(*old(self), code, *final(self)),
    {
        let f = self.net_rule_add.add_field;
        let cycle_key = code == KeyCode::Left || code == KeyCode::Right || code == KeyCode::Char(
            ' ',
        );
        if code == KeyCode::Esc {
            self.net_rule_add.visible = false;
        } else if code == KeyCode::Tab || code == KeyCode::Down {
            self.net_rule_add.add_field = (f + 1) % 6;
        } else if code == KeyCode::BackTab || code == KeyCode::Up {
            self.net_rule_add.add_field = (f + 5) % 6;
        } else if cycle_key && f == 0 {
            self.net_rule_add.direction = self.net_rule_add.direction.cycle();
            self.net_rule_add.error = None;
        } else if cycle_key && f == 1 {
            self.net_rule_add.action = self.net_rule_add.action.cycle();
            self.net_rule_add.error = None;
        } else if cycle_key && f == 2 {
            self.net_rule_add.dest_kind = self.net_rule_add.dest_kind.cycle();
            self.net_rule_add.error = None;
        } else if cycle_key && f == 3 && self.net_rule_add.dest_kind == NetRuleDestKind::Group {
            self.net_rule_add.dest_group = self.net_rule_add.dest_group.cycle();
            self.net_rule_add.error = None;
        } else if code == KeyCode::Backspace && f == 3 {
            let _ = pop_char(&mut self.net_rule_add.dest_input);
            self.net_rule_add.error = None;
        } else if f == 3 && self.net_rule_add.dest_kind.needs_text_value() && is_char_key(code) {
            if let KeyCode::Char(c) = code {
                push_char(&mut self.net_rule_add.dest_input, c);
            }
            self.net_rule_add.error = None;
        } else if code == KeyCode::Left && f == 4 {
            self.net_rule_add.protocol_cursor = (self.net_rule_add.protocol_cursor + 3) % 4;
        } else if code == KeyCode::Right && f == 4 {
            self.net_rule_add.protocol_cursor = (self.net_rule_add.protocol_cursor + 1) % 4;
        } else if code == KeyCode::Char(' ') && f == 4 {
            self.toggle_protocol();
        } else if code == KeyCode::Backspace && f == 5 {
            let _ = pop_char(&mut self.net_rule_add.ports_input);
            self.net_rule_add.error = None;
        } else if f == 5 && is_port_char(code) {
            if let KeyCode::Char(c) = code {
                push_char(&mut self.net_rule_add.ports_input, c);
            }
            self.net_rule_add.error = None;
        } else if code == KeyCode::Enter {
            if f == 5 {
                self.submit_net_rule();
            } else {
                self.net_rule_add.add_field = f + 1;
            }
        }
    }
}

/// True if `s` holds a whitespace character.
fn has_whitespace(s: &str) -> (r: bool)
    ensures
        r == exists|i: int| 0 <= i < s@.len() && is_whitespace_spec(#[trigger] s@[i]),
{
    let vc = chars_of(s);
    let n = vc.len();
    for i in 0..n
        invariant
            n == vc@.len(),
            vc@ == s@,
            forall|j: int| 0 <= j < i ==> !is_whitespace_spec(#[trigger] vc@[j]),
    {
        if is_whitespace(vc[i]) {
            assert(is_whitespace_spec(s@[i as int]));
            return true;
        }
    }
    false
}

/// A character key.
fn is_char_key(code: KeyCode) -> (r: bool)
    ensures
        r == code is Char,
{
    match code {
        KeyCode::Char(_) => true,
        _ => false,
    }
}

/// A digit or `-` typed into the port filter.
fn is_port_char(code: KeyCode) -> (r: bool)
    ensures
        r == (code matches KeyCode::Char(c) && (is_digit_spec(c) || c == '-')),
{
    match code {
        KeyCode::Char(c) => is_digit(c) || c == '-',
        _ => false,
    }
}


//----------------------------------------------------------------------
// Secrets
//----------------------------------------------------------------------

/// How one trimmed, non-empty allowed-host entry reads: a lone `*` is
/// any host, an entry holding `*` a wildcard, anything else an exact
/// host.
pub open spec fn host_pattern_of(t: Seq<char>) -> (SecretHostKind, Seq<char>) {
    if t == "*"@ {
        (SecretHostKind::Any, Seq::<char>::empty())
    } else if has_char(t, '*') {
        (SecretHostKind::Wildcard, t)
    } else {
        (SecretHostKind::Exact, t)
    }
}

/// The patterns of the comma-separated entries `parts`, each trimmed,
/// blank entries skipped.
pub open spec fn host_list(parts: Seq<Seq<char>>) -> Seq<(SecretHostKind, Seq<char>)>
    decreases parts.len(),
{
    if parts.len() == 0 {
        seq![]
    } else {
        let rest = host_list(parts.drop_last());
        let t = trim(parts.last());
        if t.len() == 0 {
            rest
        } else {
            rest.push(host_pattern_of(t))
        }
    }
}

/// The allowed hosts typed as comma-separated text.
pub open spec fn allowed_hosts_of(s: Seq<char>) -> Seq<(SecretHostKind, Seq<char>)> {
    host_list(split(s, ','))
}

/// The kind and text of a host pattern.
pub open spec fn pattern_view(h: SecretHostPattern) -> (SecretHostKind, Seq<char>) {
    (h.kind, h.value@)
}

/// Parse comma-separated allowed hosts (see [`allowed_hosts_of`]).
pub fn parse_allowed_hosts(s: &str) -> (r: Vec<SecretHostPattern>)
    ensures
        r@.map_values(|h: SecretHostPattern| pattern_view(h)) == allowed_hosts_of(s@),
{
    let cs = chars_of(s);
    let parts = split_chars(&cs, ',');
    let ghost all = split(cs@, ',');
    let mut out: Vec<SecretHostPattern> = Vec::new();
    let n = parts.len();
    for k in 0..n
        invariant
            n == parts@.len(),
            n == all.len(),
            all == split(s@, ','),
            forall|j: int| 0 <= j < n ==> (#[trigger] parts@[j])@ == all[j],
            out@.map_values(|h: SecretHostPattern| pattern_view(h)) == host_list(all.take(k as int)),
    {
        let t = trim_chars(&parts[k]);
        assert(all.take(k + 1).drop_last() =~= all.take(k as int));
        assert(all.take(k + 1).last() == all[k as int]);
        if t.len() > 0 {
            let text = string_from_chars(&t);
            let is_any = str_eq(text.as_str(), "*");
            let pat = if is_any {
                SecretHostPattern { kind: SecretHostKind::Any, value: String::new() }
            } else if contains_char(&t, '*') {
                SecretHostPattern { kind: SecretHostKind::Wildcard, value: text }
            } else {
                SecretHostPattern { kind: SecretHostKind::Exact, value: text }
            };
            let ghost before = out@;
            out.push(pat);
            assert(out@.map_values(|h: SecretHostPattern| pattern_view(h)) =~= before.map_values(
                |h: SecretHostPattern| pattern_view(h),
            ).push(pattern_view(pat)));
        }
    }
    assert(all.take(n as int) =~= all);
    out
}

/// Why the secret popup of `d` cannot be submitted, or `None`: the
/// trimmed variable name must be non-empty and free of `=` and NUL, the
/// value non-empty, and at least one allowed host given.
pub open spec fn secret_error(d: CreateDialog) -> Option<Seq<char>> {
    let p = d.secret_add;
    let env = trim(p.env_input@);
    if env.len() == 0 {
        Some("Env var name cannot be empty"@)
    } else if has_char(env, '=') || has_char(env, '\0') {
        Some("Env var must not contain '=' or NUL"@)
    } else if p.value_input@.len() == 0 {
        Some("Value cannot be empty"@)
    } else if allowed_hosts_of(p.hosts_input@).len() == 0 {
        Some("At least one allowed host is required"@)
    } else {
        None
    }
}

/// `e` is `d` once the secret popup was submitted: the first problem (see
/// [`secret_error`]) is shown, or the secret is stored with its trimmed
/// variable name, its value, its parsed hosts and its injection scopes,
/// and the popup closes.
pub open spec fn secret_submitted(d: CreateDialog, e: CreateDialog) -> bool {
    let p = d.secret_add;
    match secret_error(d) {
        Some(m) => {
            &&& e == (CreateDialog {
                secret_add: SecretAddDialog { error: e.secret_add.error, ..p },
                ..d
            })
            &&& e.secret_add.error matches Some(x) && x@ == m
        },
        None => {
            let sec = e.secrets@[e.secrets_selected as int];
            &&& e == (CreateDialog {
                secrets: e.secrets,
                secrets_selected: e.secrets_selected,
                secret_add: SecretAddDialog { visible: false, ..p },
                ..d
            })
            &&& stored_at(d.secrets@, p.editing_index, e.secrets@, e.secrets_selected)
            &&& sec.env_var@ == trim(p.env_input@)
            &&& sec.value@ == p.value_input@
            &&& sec.allowed_hosts@.map_values(|h: SecretHostPattern| pattern_view(h))
                == allowed_hosts_of(p.hosts_input@)
            &&& sec.inject_headers == p.inject_headers
            &&& sec.inject_basic_auth == p.inject_basic_auth
            &&& sec.inject_query == p.inject_query
            &&& sec.inject_body == p.inject_body
            &&& sec.require_tls_identity == p.require_tls_identity
        },
    }
}

/// An allowed host as the secret popup would have read it: any host has
/// no text; a wildcard holds `*` and is not a lone `*`; an exact host
/// holds no `*`; the text of a wildcard or exact host is trimmed,
/// non-empty and free of commas.
pub open spec fn host_accepted(h: SecretHostPattern) -> bool {
    let v = h.value@;
    match h.kind {
        SecretHostKind::Any => v.len() == 0,
        SecretHostKind::Wildcard => has_char(v, '*') && v != "*"@ && trim(v) == v && v.len() > 0
            && !has_char(v, ','),
        SecretHostKind::Exact => !has_char(v, '*') && trim(v) == v && v.len() > 0 && !has_char(
            v,
            ',',
        ),
    }
}

/// A stored secret passes the checks of the secret popup: its variable
/// name is trimmed, non-empty and free of `=` and NUL, its value is
/// non-empty, and it has at least one allowed host, each as the popup
/// reads hosts.
pub open spec fn secret_accepted(sec: SecretConfig) -> bool {
    let env = sec.env_var@;
    &&& trim(env) == env
    &&& env.len() > 0
    &&& !has_char(env, '=')
    &&& !has_char(env, '\0')
    &&& sec.value@.len() > 0
    &&& sec.allowed_hosts@.len() > 0
    &&& forall|k: int| 0 <= k < sec.allowed_hosts@.len() ==> host_accepted(#[trigger] sec.allowed_hosts@[k])
}

/// The display form of an accepted host reads back as that host.
proof fn lemma_host_text_reads_back(h: SecretHostPattern)
    requires
        host_accepted(h),
    ensures
        trim(host_text(h)) == host_text(h),
        host_text(h).len() > 0,
        !has_char(host_text(h), ','),
        host_pattern_of(host_text(h)) == pattern_view(h),
{
    reveal_strlit("*");
    if h.kind == SecretHostKind::Any {
        assert(trim_start("*"@) == "*"@);
        assert(trim_end("*"@) == "*"@);
        assert(h.value@ =~= Seq::<char>::empty());
    } else if h.kind == SecretHostKind::Exact {
        if h.value@ == "*"@ {
            assert(h.value@[0] == '*');
        }
    }
}

/// The allowed hosts shown in the secret popup, joined with `", "`, read
/// back as the same hosts.
pub proof fn lemma_hosts_round_trip(hs: Seq<SecretHostPattern>)
    requires
        forall|k: int| 0 <= k < hs.len() ==> host_accepted(#[trigger] hs[k]),
    ensures
        allowed_hosts_of(join_hosts(hs, ", "@)) == hs.map_values(|h: SecretHostPattern| pattern_view(h)),
    decreases hs.len(),
{
    if hs.len() == 0 {
        assert(index_of(Seq::<char>::empty(), ',') == -1);
        assert(split(Seq::<char>::empty(), ',') =~= seq![Seq::<char>::empty()]);
        assert(seq![Seq::<char>::empty()].drop_last() =~= Seq::<Seq<char>>::empty());
        assert(trim(Seq::<char>::empty()) =~= Seq::<char>::empty());
        assert(hs.map_values(|h: SecretHostPattern| pattern_view(h)) =~= seq![]);
        let p1 = seq![Seq::<char>::empty()];
        assert(p1.drop_last() =~= Seq::<Seq<char>>::empty());
        assert(host_list(Seq::<Seq<char>>::empty()) =~= seq![]);
        assert(p1.last() == Seq::<char>::empty());
        assert(host_list(p1) =~= seq![]);
        assert(allowed_hosts_of(join_hosts(hs, ", "@)) == hs.map_values(|h: SecretHostPattern| pattern_view(h)));
    } else if hs.len() == 1 {
        let t = host_text(hs[0]);
        lemma_host_text_reads_back(hs[0]);
        lemma_split_single(t, ',');
        assert(seq![t].drop_last() =~= Seq::<Seq<char>>::empty());
        assert(hs.map_values(|h: SecretHostPattern| pattern_view(h)) =~= seq![pattern_view(hs[0])]);
        assert(join_hosts(hs, ", "@) == t);
        assert(host_list(seq![t]) == host_list(Seq::<Seq<char>>::empty()).push(host_pattern_of(t)));
        assert(allowed_hosts_of(join_hosts(hs, ", "@)) == hs.map_values(|h: SecretHostPattern| pattern_view(h)));
    } else {
        let init = hs.drop_last();
        let t = host_text(hs.last());
        let x = join_hosts(init, ", "@);
        let y = seq![' '] + t;
        lemma_host_text_reads_back(hs.last());
        lemma_hosts_round_trip(init);
        reveal_strlit(", ");
        assert(join_hosts(hs, ", "@) =~= x + seq![','] + y);
        lemma_split_concat(x, y, ',');
        assert(!has_char(y, ',')) by {
            if has_char(y, ',') {
                let j = choose|j: int| 0 <= j < y.len() && y[j] == ',';
                assert(t[j - 1] == ',');
            }
        }
        lemma_split_single(y, ',');
        lemma_trim_space_prefix(t);
        let parts = split(join_hosts(hs, ", "@), ',');
        assert(parts == split(x, ',') + seq![y]);
        assert(parts.drop_last() =~= split(x, ','));
        assert(parts.last() == y);
        assert(trim(y) == t);
        assert(host_list(parts) == host_list(split(x, ',')).push(host_pattern_of(t)));
        assert(hs.map_values(|h: SecretHostPattern| pattern_view(h)) =~= init.map_values(
            |h: SecretHostPattern| pattern_view(h),
        ).push(pattern_view(hs.last())));
        assert(allowed_hosts_of(x) == init.map_values(|h: SecretHostPattern| pattern_view(h)));
        assert(allowed_hosts_of(join_hosts(hs, ", "@)) == hs.map_values(|h: SecretHostPattern| pattern_view(h)));
    }
}

/// Editing a secret that passes the popup's checks and saving it
/// unchanged gives the secret back in place: the same variable name and
/// value, the same allowed hosts with their kinds, and the same injection
/// scopes; the rest of the list is untouched, that secret is selected and
/// the popup closed. Saving unchanged is BackTab to the last field, then
/// Enter.
pub proof fn law_secret_edit_round_trip(d: CreateDialog, i: usize, mid: CreateDialog, e: CreateDialog)
    requires
        i < d.secrets@.len(),
        d.secret_add.is_edit_of(i, d.secrets@[i as int]),
        secret_accepted(d.secrets@[i as int]),
        secret_add_key_done(d, KeyCode::BackTab, mid),
        secret_add_key_done(mid, KeyCode::Enter, e),
    ensures
        e.secrets@.len() == d.secrets@.len(),
        e.secrets_selected == i,
        !e.secret_add.visible,
        e.secrets@[i as int].env_var@ == d.secrets@[i as int].env_var@,
        e.secrets@[i as int].value@ == d.secrets@[i as int].value@,
        e.secrets@[i as int].allowed_hosts@.map_values(|h: SecretHostPattern| pattern_view(h))
            == d.secrets@[i as int].allowed_hosts@.map_values(|h: SecretHostPattern| pattern_view(h)),
        e.secrets@[i as int].inject_headers == d.secrets@[i as int].inject_headers,
        e.secrets@[i as int].inject_basic_auth == d.secrets@[i as int].inject_basic_auth,
        e.secrets@[i as int].inject_query == d.secrets@[i as int].inject_query,
        e.secrets@[i as int].inject_body == d.secrets@[i as int].inject_body,
        e.secrets@[i as int].require_tls_identity == d.secrets@[i as int].require_tls_identity,
        forall|j: int| 0 <= j < d.secrets@.len() && j != i ==> e.secrets@[j] == d.secrets@[j],
{
    let sec = d.secrets@[i as int];
    lemma_hosts_round_trip(sec.allowed_hosts@);
    assert(mid.secret_add.add_field == 7);
    assert(secret_error(mid) is None);
}

/// The secret popup with its text input number `f` (0 variable, 1
/// value, 2 hosts) holding `t`.
pub open spec fn secret_with_text(p: SecretAddDialog, f: usize, t: String) -> SecretAddDialog {
    if f == 0 {
        SecretAddDialog { env_input: t, ..p }
    } else if f == 1 {
        SecretAddDialog { value_input: t, ..p }
    } else {
        SecretAddDialog { hosts_input: t, ..p }
    }
}

/// Text input number `f` of the secret popup.
pub open spec fn secret_text(p: SecretAddDialog, f: usize) -> String {
    if f == 0 {
        p.env_input
    } else if f == 1 {
        p.value_input
    } else {
        p.hosts_input
    }
}

/// The secret popup with toggle number `f` (3 headers, 4 basic auth,
/// 5 query, 6 body, 7 TLS identity) flipped.
pub open spec fn secret_flipped(p: SecretAddDialog, f: usize) -> SecretAddDialog {
    if f == 3 {
        SecretAddDialog { inject_headers: !p.inject_headers, ..p }
    } else if f == 4 {
        SecretAddDialog { inject_basic_auth: !p.inject_basic_auth, ..p }
    } else if f == 5 {
        SecretAddDialog { inject_query: !p.inject_query, ..p }
    } else if f == 6 {
        SecretAddDialog { inject_body: !p.inject_body, ..p }
    } else {
        SecretAddDialog { require_tls_identity: !p.require_tls_identity, ..p }
    }
}

/// `e` is `d` after `code` reached the secret popup. Tab/Down and
/// BackTab/Up move between the eight fields (wrapping); on the three
/// text inputs characters and Backspace edit, on the five toggles Space
/// flips; Enter moves on, or submits from the last field.
pub open spec fn secret_add_key_done(d: CreateDialog, code: KeyCode, e: CreateDialog) -> bool {
    let p = d.secret_add;
    let f = p.add_field;
    let toggle = 3 <= f <= 7;
    if code == KeyCode::Esc {
        e == (CreateDialog { secret_add: SecretAddDialog { visible: false, ..p }, ..d })
    } else if code == KeyCode::Tab || code == KeyCode::Down {
        e == (CreateDialog {
            secret_add: SecretAddDialog { add_field: ((f + 1) % 8) as usize, ..p },
            ..d
        })
    } else if code == KeyCode::BackTab || code == KeyCode::Up {
        e == (CreateDialog {
            secret_add: SecretAddDialog { add_field: ((f + 7) % 8) as usize, ..p },
            ..d
        })
    } else if code == KeyCode::Char(' ') && toggle {
        e == (CreateDialog {
            secret_add: SecretAddDialog { error: None, ..secret_flipped(p, f) },
            ..d
        })
    } else if code == KeyCode::Backspace && !toggle {
        &&& e == (CreateDialog {
            secret_add: SecretAddDialog {
                error: None,
                ..secret_with_text(p, f, secret_text(e.secret_add, f))
            },
            ..d
        })
        &&& secret_text(e.secret_add, f)@ == popped(secret_text(p, f)@)
    } else if code is Char && !toggle {
        &&& e == (CreateDialog {
            secret_add: SecretAddDialog {
                error: None,
                ..secret_with_text(p, f, secret_text(e.secret_add, f))
            },
            ..d
        })
        &&& secret_text(e.secret_add, f)@ == secret_text(p, f)@.push(code->Char_0)
    } else if code == KeyCode::Enter {
        if f == 7 {
            secret_submitted(d, e)
        } else {
            e == (CreateDialog {
                secret_add: SecretAddDialog { add_field: (f + 1) as usize, ..p },
                ..d
            })
        }
    } else {
        e == d
    }
}

impl CreateDialog {
    /// Check the secret popup (see [`secret_error`]); on success the
    /// trimmed variable name and the parsed hosts.
    fn secret_checked(&self) -> (r: Result<(String, Vec<SecretHostPattern>), &'static str>)
        ensures
            match secret_error(*self) {
                Some(m) => r matches Err(x) && x@ == m,
                None => r matches Ok((env, hosts)) && env@ == trim(self.secret_add.env_input@)
                    && hosts@.map_values(|h: SecretHostPattern| pattern_view(h))
                    == allowed_hosts_of(self.secret_add.hosts_input@),
            },
    {
        let p = &self.secret_add;
        let env = trim_chars(&chars_of(p.env_input.as_str()));
        if env.len() == 0 {
            return Err("Env var name cannot be empty");
        }
        if contains_char(&env, '=') || contains_char(&env, '\0') {
            return Err("Env var must not contain '=' or NUL");
        }
        if p.value_input.as_str().is_empty() {
            return Err("Value cannot be empty");
        }
        let hosts = parse_allowed_hosts(p.hosts_input.as_str());
        if hosts.len() == 0 {
            assert(hosts@.map_values(|h: SecretHostPattern| pattern_view(h)).len() == 0);
            return Err("At least one allowed host is required");
        }
        assert(hosts@.map_values(|h: SecretHostPattern| pattern_view(h)).len() > 0);
        Ok((string_from_chars(&env), hosts))
    }

    fn submit_secret(&mut self)
        requires
            old(self).secret_add.visible,
            old(self).edits_ok(),
        ensures
            secret_submitted(*old(self), *final(self)),
    {
        match self.secret_checked() {
            Err(m) => {
                self.secret_add.error = Some(crate::text::to_string(m));
            },
            Ok((env_var, allowed_hosts)) => {
                let p = &self.secret_add;
                let secret = SecretConfig {
                    env_var,
                    value: copy_string(&p.value_input),
                    allowed_hosts,
                    inject_headers: p.inject_headers,
                    inject_basic_auth: p.inject_basic_auth,
                    inject_query: p.inject_query,
                    inject_body: p.inject_body,
                    require_tls_identity: p.require_tls_identity,
                };
                let editing = p.editing_index;
                store(&mut self.secrets, &mut self.secrets_selected, editing, secret);
                self.secret_add.visible = false;
            },
        }
    }

    fn flip_secret_toggle(&mut self)
        requires
            3 <= old(self).secret_add.add_field <= 7,
        ensures
            *final(self) == (CreateDialog {
                secret_add: SecretAddDialog {
                    error: None,
                    ..secret_flipped(old(self).secret_add, old(self).secret_add.add_field)
                },
                ..*old(self)
            }),
    {
        let f = self.secret_add.add_field;
        if f == 3 {
            self.secret_add.inject_headers = !self.secret_add.inject_headers;
        } else if f == 4 {
            self.secret_add.inject_basic_auth = !self.secret_add.inject_basic_auth;
        } else if f == 5 {
            self.secret_add.inject_query = !self.secret_add.inject_query;
        } else if f == 6 {
            self.secret_add.inject_body = !self.secret_add.inject_body;
        } else {
            self.secret_add.require_tls_identity = !self.secret_add.require_tls_identity;
        }
        self.secret_add.error = None;
    }

    fn edit_secret_text(&mut self, edit: FieldEdit)
        requires
            old(self).secret_add.add_field < 3,
        ensures
            ({
                let f = old(self).secret_add.add_field;
                &&& *final(self) == (CreateDialog {
                    secret_add: SecretAddDialog {
                        error: None,
                        ..secret_with_text(old(self).secret_add, f, secret_text(final(self).secret_add, f))
                    },
                    ..*old(self)
                })
                &&& secret_text(final(self).secret_add, f)@ == match edit {
                    FieldEdit::Push(c) => secret_text(old(self).secret_add, f)@.push(c),
                    FieldEdit::Pop => popped(secret_text(old(self).secret_add, f)@),
                }
            }),
    {
        let f = self.secret_add.add_field;
        let s: &mut String = if f == 0 {
            &mut self.secret_add.env_input
        } else if f == 1 {
            &mut self.secret_add.value_input
        } else {
            &mut self.secret_add.hosts_input
        };
        match edit {
            FieldEdit::Push(c) => push_char(s, c),
            FieldEdit::Pop => {
                let _ = pop_char(s);
            },
        }
        self.secret_add.error = None;
    }

    /// Handle a key while the secret popup is open (see
    /// [`secret_add_key_done`]).
    pub fn handle_secret_add_key(&mut self, code: KeyCode)
        requires
            old(self).secret_add.visible,
            old(self).wf(),
        ensures
            secret_add_key_done(*old(self), code, *final(self)),
    {
        let f = self.secret_add.add_field;
        let toggle = 3 <= f && f <= 7;
        if code == KeyCode::Esc {
            self.secret_add.visible = false;
        } else if code == KeyCode::Tab || code == KeyCode::Down {
            self.secret_add.add_field = (f + 1) % 8;
        } else if code == KeyCode::BackTab || code == KeyCode::Up {
            self.secret_add.add_field = (f + 7) % 8;
        } else if code == KeyCode::Char(' ') && toggle {
            self.flip_secret_toggle();
        } else if code == KeyCode::Backspace && !toggle {
            self.edit_secret_text(FieldEdit::Pop);
        } else if is_char_key(code) && !toggle {
            if let KeyCode::Char(c) = code {
                self.edit_secret_text(FieldEdit::Push(c));
            }
        } else if code == KeyCode::Enter {
            if f == 7 {
                self.submit_secret();
            } else {
                self.secret_add.add_field = f + 1;
            }
        }
    }
}


//----------------------------------------------------------------------
// Volume mounts
//----------------------------------------------------------------------

/// Where a directory picker opens for `input`: the trimmed text, or the
/// root when blank.
pub open spec fn picker_start(input: Seq<char>) -> Seq<char> {
    if trim(input).len() == 0 {
        "/"@
    } else {
        trim(input)
    }
}

impl CreateDialog {
    /// Ask for the workdir picker, opened at the trimmed workdir (`/` when
    /// it is blank).
    pub fn workdir_picker(&self) -> (out: Effect)
        ensures
            out matches Effect::PickerOpen { target, path } && target == PickerTarget::Workdir
                && path@ == picker_start(self.workdir@),
    {
        let t = trim_str(self.workdir.as_str());
        let path = if t.as_str().is_empty() {
            crate::text::to_string("/")
        } else {
            t
        };
        Effect::PickerOpen { target: PickerTarget::Workdir, path }
    }
}

/// Why the mount popup of `d` cannot be submitted, or `None`: both the
/// guest path and the source, trimmed, must be non-empty.
pub open spec fn mount_error(d: CreateDialog) -> Option<Seq<char>> {
    let p = d.mount_add;
    if trim(p.guest_input@).len() == 0 {
        Some("Guest path cannot be empty"@)
    } else if trim(p.source_input@).len() == 0 {
        Some("Host path / volume name cannot be empty"@)
    } else {
        None
    }
}

/// `e` is `d` once the mount popup was submitted: the first problem (see
/// [`mount_error`]) is shown, or the mount is stored with its trimmed
/// guest path and its trimmed host path (bind) or volume name (named),
/// and the popup closes.
pub open spec fn mount_submitted(d: CreateDialog, e: CreateDialog) -> bool {
    let p = d.mount_add;
    match mount_error(d) {
        Some(m) => {
            &&& e == (CreateDialog { mount_add: MountAddDialog { error: e.mount_add.error, ..p }, ..d })
            &&& e.mount_add.error matches Some(x) && x@ == m
        },
        None => {
            let mount = e.mounts@[e.mounts_selected as int];
            &&& e == (CreateDialog {
                mounts: e.mounts,
                mounts_selected: e.mounts_selected,
                mount_add: MountAddDialog { visible: false, ..p },
                ..d
            })
            &&& stored_at(d.mounts@, p.editing_index, e.mounts@, e.mounts_selected)
            &&& mount.guest_path@ == trim(p.guest_input@)
            &&& match mount.source {
                MountSource::Bind(h) => p.kind == MountKindChoice::Bind && h@ == trim(
                    p.source_input@,
                ),
                MountSource::Named(n) => p.kind == MountKindChoice::Named && n@ == trim(
                    p.source_input@,
                ),
            }
        },
    }
}

/// The host path or volume name a mount is made from.
pub open spec fn mount_source_text(m: MountSource) -> Seq<char> {
    match m {
        MountSource::Bind(h) => h@,
        MountSource::Named(n) => n@,
    }
}

/// Editing a mount whose guest path and source are trimmed and non-empty
/// and saving it unchanged gives the mount back in place: the same guest
/// path, the same kind of source with the same text; the rest of the list
/// is untouched, that mount is selected and the popup closed.
pub proof fn law_mount_edit_round_trip(d: CreateDialog, i: usize, e: CreateDialog)
    requires
        i < d.mounts@.len(),
        d.mount_add.is_edit_of(i, d.mounts@[i as int]),
        trim(d.mounts@[i as int].guest_path@) == d.mounts@[i as int].guest_path@,
        d.mounts@[i as int].guest_path@.len() > 0,
        trim(mount_source_text(d.mounts@[i as int].source)) == mount_source_text(
            d.mounts@[i as int].source,
        ),
        mount_source_text(d.mounts@[i as int].source).len() > 0,
        mount_submitted(d, e),
    ensures
        e.mounts@.len() == d.mounts@.len(),
        e.mounts_selected == i,
        !e.mount_add.visible,
        e.mounts@[i as int].guest_path@ == d.mounts@[i as int].guest_path@,
        e.mounts@[i as int].source is Bind <==> d.mounts@[i as int].source is Bind,
        mount_source_text(e.mounts@[i as int].source) == mount_source_text(d.mounts@[i as int].source),
        forall|j: int| 0 <= j < d.mounts@.len() && j != i ==> e.mounts@[j] == d.mounts@[j],
{
}

/// The mount popup with its text `f` (1 guest path, 2 source, anything
/// else the new-volume name) holding `t`.
pub open spec fn mount_with_text(p: MountAddDialog, f: int, t: String) -> MountAddDialog {
    if f == 1 {
        MountAddDialog { guest_input: t, ..p }
    } else if f == 2 {
        MountAddDialog { source_input: t, ..p }
    } else {
        MountAddDialog { new_volume_name: t, ..p }
    }
}

/// Text `f` of the mount popup (see [`mount_with_text`]).
pub open spec fn mount_text(p: MountAddDialog, f: int) -> String {
    if f == 1 {
        p.guest_input
    } else if f == 2 {
        p.source_input
    } else {
        p.new_volume_name
    }
}

/// Which text of the mount popup typing edits: the new-volume name while
/// naming a new volume, else the guest path (field 1) or a bind mount's
/// host path (field 2); -1 when none.
pub open spec fn mount_edit_target(p: MountAddDialog) -> int {
    if p.new_volume_mode {
        0
    } else if p.add_field == 1 {
        1
    } else if p.add_field == 2 && p.kind == MountKindChoice::Bind {
        2
    } else {
        -1
    }
}

/// `e` is `d` after a character or Backspace: the edited text (see
/// [`mount_edit_target`]) changes to `t` and the error clears.
pub open spec fn mount_text_edited(d: CreateDialog, e: CreateDialog, t: Seq<char>) -> bool {
    let p = d.mount_add;
    let f = mount_edit_target(p);
    if f < 0 {
        e == (CreateDialog { mount_add: MountAddDialog { error: None, ..p }, ..d })
    } else {
        &&& e == (CreateDialog {
            mount_add: MountAddDialog {
                error: None,
                ..mount_with_text(p, f, mount_text(e.mount_add, f))
            },
            ..d
        })
        &&& mount_text(e.mount_add, f)@ == t
    }
}

/// `e` is `d` after Up or Down over a named mount's volume list: the
/// highlight moves one volume (stopping at the ends) and its name is
/// copied into the source.
pub open spec fn volume_moved(d: CreateDialog, up: bool, e: CreateDialog) -> bool {
    let p = d.mount_add;
    let vols = p.available_volumes@;
    let sel = if up {
        if p.selected_volume > 0 {
            p.selected_volume - 1
        } else {
            p.selected_volume as int
        }
    } else if p.selected_volume + 1 < vols.len() {
        p.selected_volume + 1
    } else {
        p.selected_volume as int
    };
    &&& e == (CreateDialog {
        mount_add: MountAddDialog {
            selected_volume: sel as usize,
            source_input: e.mount_add.source_input,
            ..p
        },
        ..d
    })
    &&& if sel < vols.len() {
        e.mount_add.source_input@ == vols[sel].name@
    } else {
        e.mount_add.source_input == p.source_input
    }
}

/// `e` and `out` are `d` and the outside work asked for after `code` (with
/// `mods`) reached the mount popup. Esc leaves new-volume naming or closes
/// the popup; Tab/BackTab (and Down/Up, except where they pick a volume)
/// move over the three fields; on the kind field
/// `b` picks a bind mount and `n` a named volume (synced with the source);
/// on the source field Ctrl+F opens the directory picker (bind) and
/// Ctrl+N starts naming a new volume (named), Up/Down pick a volume
/// (named); Space toggles a new volume's disk backing; characters and
/// Backspace edit (see [`mount_edit_target`]); Enter creates the new
/// volume, moves on, or submits.
pub open spec fn mount_add_key_done(
    d: CreateDialog,
    code: KeyCode,
    mods: KeyModifiers,
    e: CreateDialog,
    out: Option<Effect>,
) -> bool {
    let p = d.mount_add;
    let f = p.add_field;
    let named_source = p.kind == MountKindChoice::Named && f == 2;
    if code == KeyCode::Esc {
        &&& out is None
        &&& e == if p.new_volume_mode {
            CreateDialog { mount_add: MountAddDialog { new_volume_mode: false, error: None, ..p }, ..d }
        } else {
            CreateDialog { mount_add: MountAddDialog { visible: false, ..p }, ..d }
        }
    } else if code == KeyCode::Tab || (code == KeyCode::Down && !named_source) {
        out is None && e == (CreateDialog {
            mount_add: MountAddDialog { add_field: ((f + 1) % 3) as usize, ..p },
            ..d
        })
    } else if code == KeyCode::BackTab || (code == KeyCode::Up && !named_source) {
        out is None && e == (CreateDialog {
            mount_add: MountAddDialog {
                add_field: if f == 0 {
                    2
                } else {
                    (f - 1) as usize
                },
                ..p
            },
            ..d
        })
    } else if (code == KeyCode::Char('b') || code == KeyCode::Char('B')) && f == 0 {
        out is None && e == (CreateDialog {
            mount_add: MountAddDialog { kind: MountKindChoice::Bind, error: None, ..p },
            ..d
        })
    } else if (code == KeyCode::Char('n') || code == KeyCode::Char('N')) && f == 0 {
        &&& out is None
        &&& e == (CreateDialog {
            mount_add: MountAddDialog { error: None, ..e.mount_add },
            ..d
        })
        &&& (MountAddDialog { kind: MountKindChoice::Named, ..p }).volume_synced(
            MountAddDialog { error: p.error, ..e.mount_add },
        )
    } else if code == KeyCode::Char('f') && mods.control && p.kind == MountKindChoice::Bind
        && f == 2 {
        &&& e == d
        &&& out matches Some(Effect::PickerOpen { target, path }) && target
            == PickerTarget::MountSource && path@ == picker_start(p.source_input@)
    } else if code == KeyCode::Char('n') && mods.control && named_source {
        &&& out is None
        &&& e == (CreateDialog {
            mount_add: MountAddDialog {
                new_volume_mode: true,
                new_volume_name: e.mount_add.new_volume_name,
                new_volume_disk: false,
                error: None,
                ..p
            },
            ..d
        })
        &&& e.mount_add.new_volume_name@.len() == 0
    } else if code == KeyCode::Char(' ') && p.new_volume_mode {
        out is None && e == (CreateDialog {
            mount_add: MountAddDialog { new_volume_disk: !p.new_volume_disk, ..p },
            ..d
        })
    } else if code == KeyCode::Backspace {
        out is None && mount_text_edited(d, e, popped(mount_text(p, mount_edit_target(p))@))
    } else if code == KeyCode::Enter {
        if p.new_volume_mode {
            let name = trim(p.new_volume_name@);
            if name.len() == 0 {
                &&& out is None
                &&& e == (CreateDialog { mount_add: MountAddDialog { error: e.mount_add.error, ..p }, ..d })
                &&& e.mount_add.error matches Some(x) && x@ == "Name cannot be empty"@
            } else {
                &&& e == (CreateDialog {
                    mount_add: MountAddDialog {
                        new_volume_mode: false,
                        source_input: e.mount_add.source_input,
                        ..p
                    },
                    ..d
                })
                &&& e.mount_add.source_input@ == name
                &&& out matches Some(Effect::CreateVolume { name: n, disk }) && n@ == name && disk
                    == p.new_volume_disk
            }
        } else if f < 2 {
            out is None && e == (CreateDialog {
                mount_add: MountAddDialog { add_field: (f + 1) as usize, ..p },
                ..d
            })
        } else {
            out is None && mount_submitted(d, e)
        }
    } else if code is Char {
        out is None && mount_text_edited(
            d,
            e,
            mount_text(p, mount_edit_target(p))@.push(code->Char_0),
        )
    } else if code == KeyCode::Up && named_source {
        out is None && volume_moved(d, true, e)
    } else if code == KeyCode::Down && named_source {
        out is None && volume_moved(d, false, e)
    } else {
        out is None && e == d
    }
}

impl CreateDialog {
    fn edit_mount_text(&mut self, edit: FieldEdit)
        ensures
            mount_text_edited(
                *old(self),
                *final(self),
                match edit {
                    FieldEdit::Push(c) => mount_text(
                        old(self).mount_add,
                        mount_edit_target(old(self).mount_add),
                    )@.push(c),
                    FieldEdit::Pop => popped(
                        mount_text(old(self).mount_add, mount_edit_target(old(self).mount_add))@,
                    ),
                },
            ),
    {
        let p = &mut self.mount_add;
        if p.new_volume_mode || p.add_field == 1 || (p.add_field == 2 && p.kind
            == MountKindChoice::Bind) {
            let s: &mut String = if p.new_volume_mode {
                &mut p.new_volume_name
            } else if p.add_field == 1 {
                &mut p.guest_input
            } else {
                &mut p.source_input
            };
            match edit {
                FieldEdit::Push(c) => push_char(s, c),
                FieldEdit::Pop => {
                    let _ = pop_char(s);
                },
            }
        }
        self.mount_add.error = None;
    }

    fn move_volume(&mut self, up: bool)
        ensures
            volume_moved(*old(self), up, *final(self)),
    {
        let p = &mut self.mount_add;
        if up {
            if p.selected_volume > 0 {
                p.selected_volume = p.selected_volume - 1;
            }
        } else if p.selected_volume < p.available_volumes.len() && p.selected_volume + 1
            < p.available_volumes.len() {
            p.selected_volume = p.selected_volume + 1;
        }
        if p.selected_volume < p.available_volumes.len() {
            let name = copy_string(&p.available_volumes[p.selected_volume].name);
            p.source_input = name;
        }
    }

    fn submit_mount(&mut self)
        requires
            old(self).mount_add.visible,
            old(self).edits_ok(),
        ensures
            mount_submitted(*old(self), *final(self)),
    {
        let p = &self.mount_add;
        let guest = trim_str(p.guest_input.as_str());
        let source = trim_str(p.source_input.as_str());
        if guest.as_str().is_empty() {
            self.mount_add.error = Some(crate::text::to_string("Guest path cannot be empty"));
            return;
        }
        if source.as_str().is_empty() {
            self.mount_add.error = Some(
                crate::text::to_string("Host path / volume name cannot be empty"),
            );
            return;
        }
        let src = match p.kind {
            MountKindChoice::Bind => MountSource::Bind(source),
            MountKindChoice::Named => MountSource::Named(source),
        };
        let mount = VolumeMountConfig { guest_path: guest, source: src };
        let editing = p.editing_index;
        store(&mut self.mounts, &mut self.mounts_selected, editing, mount);
        self.mount_add.visible = false;
    }

    /// Handle a key while the mount popup (not its directory picker) is
    /// open; returns the outside work to ask for (see
    /// [`mount_add_key_done`]).
    pub fn handle_mount_add_key(&mut self, code: KeyCode, mods: KeyModifiers) -> (out: Option<
        Effect,
    >)
        requires
            old(self).mount_add.visible,
            old(self).wf(),
        ensures
            mount_add_key_done(*old(self), code, mods, *final(self), out),
    {
        let f = self.mount_add.add_field;
        let named_source = self.mount_add.kind == MountKindChoice::Named && f == 2;
        if code == KeyCode::Esc {
            if self.mount_add.new_volume_mode {
                self.mount_add.new_volume_mode = false;
                self.mount_add.error = None;
            } else {
                self.mount_add.visible = false;
            }
        } else if code == KeyCode::Tab || (code == KeyCode::Down && !named_source) {
            self.mount_add.add_field = (f + 1) % 3;
        } else if code == KeyCode::BackTab || (code == KeyCode::Up && !named_source) {
            self.mount_add.add_field = if f == 0 {
                2
            } else {
                f - 1
            };
        } else if (code == KeyCode::Char('b') || code == KeyCode::Char('B')) && f == 0 {
            self.mount_add.kind = MountKindChoice::Bind;
            self.mount_add.error = None;
        } else if (code == KeyCode::Char('n') || code == KeyCode::Char('N')) && f == 0 {
            self.mount_add.kind = MountKindChoice::Named;
            self.mount_add.sync_selected_volume_from_source();
            self.mount_add.error = None;
        } else if code == KeyCode::Char('f') && mods.control && self.mount_add.kind
            == MountKindChoice::Bind && f == 2 {
            let t = trim_str(self.mount_add.source_input.as_str());
            let path = if t.as_str().is_empty() {
                crate::text::to_string("/")
            } else {
                t
            };
            return Some(Effect::PickerOpen { target: PickerTarget::MountSource, path });
        } else if code == KeyCode::Char('n') && mods.control && named_source {
            self.mount_add.new_volume_mode = true;
            self.mount_add.new_volume_name = String::new();
            self.mount_add.new_volume_disk = false;
            self.mount_add.error = None;
        } else if code == KeyCode::Char(' ') && self.mount_add.new_volume_mode {
            self.mount_add.new_volume_disk = !self.mount_add.new_volume_disk;
        } else if code == KeyCode::Backspace {
            self.edit_mount_text(FieldEdit::Pop);
        } else if code == KeyCode::Enter {
            if self.mount_add.new_volume_mode {
                let name = trim_str(self.mount_add.new_volume_name.as_str());
                if name.as_str().is_empty() {
                    self.mount_add.error = Some(crate::text::to_string("Name cannot be empty"));
                } else {
                    let disk = self.mount_add.new_volume_disk;
                    self.mount_add.new_volume_mode = false;
                    self.mount_add.source_input = copy_string(&name);
                    return Some(Effect::CreateVolume { name, disk });
                }
            } else if f < 2 {
                self.mount_add.add_field = f + 1;
            } else {
                self.submit_mount();
            }
        } else if is_char_key(code) {
            if let KeyCode::Char(c) = code {
                self.edit_mount_text(FieldEdit::Push(c));
            }
        } else if code == KeyCode::Up && named_source {
            self.move_volume(true);
        } else if code == KeyCode::Down && named_source {
            self.move_volume(false);
        }
        None
    }
}


//----------------------------------------------------------------------
// The form itself
//----------------------------------------------------------------------

/// `e` is `d` with the focused text field (if any) changed to `t` and the
/// error cleared.
pub open spec fn form_text_edited(d: CreateDialog, e: CreateDialog, t: Seq<char>) -> bool {
    match d.current_text_spec() {
        Some(f) => {
            &&& e == (CreateDialog { error: None, ..d.with_text(f, e.text_of(f)) })
            &&& e.text_of(f)@ == t
        },
        None => e == (CreateDialog { error: None, ..d }),
    }
}

/// The text of the focused field, empty when no text field has focus.
pub open spec fn focused_text(d: CreateDialog) -> Seq<char> {
    match d.current_text_spec() {
        Some(f) => d.text_of(f)@,
        None => Seq::<char>::empty(),
    }
}

/// `e` and `out` are `d` and the outside work asked for after `code`
/// reached the form (not an inline list in list mode, and not Enter on
/// the Create button). Esc closes and clears the dialog; Tab/Down and
/// BackTab/Up move to the next or previous enabled field; Space flips the
/// "disable network" toggle; Left/Right switch tabs (except on the Create
/// button); Enter enters list mode on a list, opens the directory picker
/// on the workdir field, or moves on; characters and Backspace edit the
/// focused text field, numeric fields taking digits only. Fields greyed
/// out by a disabled network ignore Enter, Backspace and characters.
pub open spec fn form_key_done(d: CreateDialog, code: KeyCode, e: CreateDialog, out: Option<
    Effect,
>) -> bool {
    let disabled = d.disabled_spec(d.tab, d.field as int);
    let workdir_field = d.tab == DialogTab::Basic && d.field == 6;
    if code == KeyCode::Esc {
        out is None && !e.visible && e.is_cleared() && e.wf()
    } else if code == KeyCode::Tab || code == KeyCode::Down {
        out is None && e == (CreateDialog {
            field: d.next_enabled_spec(d.field as int, true) as usize,
            list_edit_mode: false,
            ..d
        })
    } else if code == KeyCode::BackTab || code == KeyCode::Up {
        out is None && e == (CreateDialog {
            field: d.next_enabled_spec(d.field as int, false) as usize,
            list_edit_mode: false,
            ..d
        })
    } else if code == KeyCode::Char(' ') && d.is_toggle_spec() {
        out is None && e == (CreateDialog {
            disable_network: !d.disable_network,
            error: None,
            ..d
        })
    } else if (code == KeyCode::Left || code == KeyCode::Right) && !d.is_create_focused_spec() {
        out is None && e == (CreateDialog {
            tab: if code == KeyCode::Left {
                d.tab.prev_spec()
            } else {
                d.tab.next_spec()
            },
            field: 0,
            list_edit_mode: false,
            error: None,
            ..d
        })
    } else if code == KeyCode::Enter {
        if disabled {
            out is None && e == d
        } else if d.focused_list_spec() is Some {
            out is None && e == (CreateDialog { list_edit_mode: true, error: None, ..d })
        } else if workdir_field {
            &&& e == d
            &&& out matches Some(Effect::PickerOpen { target, path }) && target
                == PickerTarget::Workdir && path@ == picker_start(d.workdir@)
        } else {
            out is None && e == (CreateDialog {
                field: d.next_enabled_spec(d.field as int, true) as usize,
                list_edit_mode: false,
                ..d
            })
        }
    } else if code == KeyCode::Backspace {
        out is None && if disabled {
            e == d
        } else {
            form_text_edited(d, e, popped(focused_text(d)))
        }
    } else if code is Char {
        let c = code->Char_0;
        out is None && if d.is_toggle_spec() || d.is_create_focused_spec() || disabled
            || d.focused_list_spec() is Some || workdir_field {
            e == d
        } else if d.is_numeric_spec() && !is_digit_spec(c) {
            &&& e == (CreateDialog { error: e.error, ..d })
            &&& e.error matches Some(m) && m@ == "Only digits allowed here"@
        } else {
            form_text_edited(d, e, focused_text(d).push(c))
        }
    } else {
        out is None && e == d
    }
}

impl CreateDialog {
    fn edit_form_text(&mut self, edit: FieldEdit)
        ensures
            form_text_edited(
                *old(self),
                *final(self),
                match edit {
                    FieldEdit::Push(c) => focused_text(*old(self)).push(c),
                    FieldEdit::Pop => popped(focused_text(*old(self))),
                },
            ),
    {
        self.edit_current_field(edit);
        self.error = None;
    }

    /// Handle a key on the form of the create dialog, outside list mode
    /// and other than Enter on the Create button; returns the outside work
    /// to ask for (see [`form_key_done`]).
    pub fn handle_form_key(&mut self, code: KeyCode) -> (out: Option<Effect>)
        requires
            old(self).wf(),
            !(code == KeyCode::Enter && old(self).is_create_focused_spec()),
        ensures
            form_key_done(*old(self), code, *final(self), out),
    {
        let disabled = self.field_disabled_by_network(self.tab, self.field);
        let workdir_field = self.tab == DialogTab::Basic && self.field == 6;
        if code == KeyCode::Esc {
            *self = CreateDialog::closed();
        } else if code == KeyCode::Tab || code == KeyCode::Down {
            self.next_field();
        } else if code == KeyCode::BackTab || code == KeyCode::Up {
            self.prev_field();
        } else if code == KeyCode::Char(' ') && self.is_toggle_field() {
            self.disable_network = !self.disable_network;
            self.error = None;
        } else if (code == KeyCode::Left || code == KeyCode::Right) && !self.is_create_focused() {
            let tab = if code == KeyCode::Left {
                self.tab.prev()
            } else {
                self.tab.next()
            };
            self.switch_tab(tab);
        } else if code == KeyCode::Enter {
            if disabled {
            } else if self.focused_list().is_some() {
                self.list_edit_mode = true;
                self.error = None;
            } else if workdir_field {
                return Some(self.workdir_picker());
            } else {
                self.next_field();
            }
        } else if code == KeyCode::Backspace {
            if !disabled {
                self.edit_form_text(FieldEdit::Pop);
            }
        } else if is_char_key(code) {
            if let KeyCode::Char(c) = code {
                if self.is_toggle_field() || self.is_create_focused() || disabled
                    || self.focused_list().is_some() || workdir_field {
                } else if self.is_numeric_field() && !is_digit(c) {
                    self.error = Some(crate::text::to_string("Only digits allowed here"));
                } else {
                    self.edit_form_text(FieldEdit::Push(c));
                }
            }
        }
        None
    }
}

//----------------------------------------------------------------------
// Directory picker
//----------------------------------------------------------------------

/// What `std::path::Path::join` gives for `base` and `entry`: `entry`
/// appended to `base` after a separator (or `entry` alone when it is
/// absolute).
pub uninterp spec fn path_join(base: Seq<char>, entry: Seq<char>) -> Seq<char>;

/// `Path::join` of `base` and `entry`, as text. The result is named
/// [`path_join`]; nothing more is stated of it.
#[verifier::external_body]
fn join_path(base: &str, entry: &str) -> (r: String)
    ensures
        r@ == path_join(base@, entry@),
{
    std::path::Path::new(base).join(entry).to_string_lossy().into_owned()
}

/// The open picker: the mount popup's when it is visible, else the
/// workdir picker.
pub open spec fn open_picker(d: CreateDialog) -> DirPicker {
    if d.mount_add.dir_picker.visible {
        d.mount_add.dir_picker
    } else {
        d.dir_picker
    }
}

/// `d` with the open picker (see [`open_picker`]) replaced by `p`.
pub open spec fn with_open_picker(d: CreateDialog, p: DirPicker) -> CreateDialog {
    if d.mount_add.dir_picker.visible {
        CreateDialog { mount_add: MountAddDialog { dir_picker: p, ..d.mount_add }, ..d }
    } else {
        CreateDialog { dir_picker: p, ..d }
    }
}

/// Which picker is open.
pub open spec fn open_picker_target(d: CreateDialog) -> PickerTarget {
    if d.mount_add.dir_picker.visible {
        PickerTarget::MountSource
    } else {
        PickerTarget::Workdir
    }
}

/// The highlighted entry of `p`, empty when there is none.
pub open spec fn picker_entry(p: DirPicker) -> Seq<char> {
    if p.selected < p.entries@.len() {
        p.entries@[p.selected as int]@
    } else {
        Seq::<char>::empty()
    }
}

/// `out` asks for what Enter on picker `p` leads to: the drive list for
/// the drive entry; the highlighted drive while drives are shown; the
/// parent directory for `..` (the drive list when already at a root);
/// else the highlighted subdirectory.
pub open spec fn picker_entered(p: DirPicker, target: PickerTarget, out: Option<Effect>) -> bool {
    let entry = picker_entry(p);
    let parent = match path_parent(p.path@) {
        Some(q) => q,
        None => p.path@,
    };
    if entry == DRIVES_ENTRY@ || (!p.showing_drives && entry == ".."@ && parent == p.path@) {
        out matches Some(Effect::PickerShowDrives(t)) && t == target
    } else {
        let to = if p.showing_drives {
            entry
        } else if entry == ".."@ {
            parent
        } else {
            path_join(p.path@, entry)
        };
        out matches Some(Effect::PickerNavigate { target: t, path }) && t == target && path@ == to
    }
}

/// `e` and `out` are `d` and the outside work asked for after `code`
/// reached the open directory picker. Esc closes it; Up/Down move the
/// highlight; Enter goes where [`picker_entered`] says; Space picks the
/// shown directory (unless drives are shown) and closes the picker; `/`
/// shows the drives and `~` the home directory.
pub open spec fn picker_key_done(d: CreateDialog, code: KeyCode, e: CreateDialog, out: Option<
    Effect,
>) -> bool {
    let p = open_picker(d);
    let target = open_picker_target(d);
    if code == KeyCode::Esc {
        out is None && e == with_open_picker(d, DirPicker { visible: false, ..p })
    } else if code == KeyCode::Up {
        let sel = if p.selected > 0 {
            p.selected - 1
        } else {
            0
        };
        out is None && e == with_open_picker(
            d,
            DirPicker {
                selected: sel as usize,
                scroll_offset: if sel < p.scroll_offset {
                    sel as usize
                } else {
                    p.scroll_offset
                },
                ..p
            },
        )
    } else if code == KeyCode::Down {
        let sel = if p.selected + 1 < p.entries@.len() {
            p.selected + 1
        } else {
            p.selected as int
        };
        out is None && e == with_open_picker(
            d,
            DirPicker {
                selected: sel as usize,
                scroll_offset: if sel >= p.scroll_offset + PICKER_VISIBLE_ROWS {
                    (sel + 1 - PICKER_VISIBLE_ROWS) as usize
                } else {
                    p.scroll_offset
                },
                ..p
            },
        )
    } else if code == KeyCode::Enter {
        e == d && picker_entered(p, target, out)
    } else if code == KeyCode::Char(' ') {
        let closed = DirPicker { visible: false, ..p };
        &&& out is None
        &&& if d.mount_add.dir_picker.visible {
            &&& e == (CreateDialog {
                mount_add: MountAddDialog {
                    source_input: e.mount_add.source_input,
                    dir_picker: closed,
                    ..d.mount_add
                },
                ..d
            })
            &&& if p.showing_drives {
                e.mount_add.source_input == d.mount_add.source_input
            } else {
                e.mount_add.source_input@ == p.path@
            }
        } else {
            &&& e == (CreateDialog { workdir: e.workdir, dir_picker: closed, ..d })
            &&& if p.showing_drives {
                e.workdir == d.workdir
            } else {
                e.workdir@ == p.path@
            }
        }
    } else if code == KeyCode::Char('/') {
        &&& e == d
        &&& out matches Some(Effect::PickerShowDrives(t)) && t == target
    } else if code == KeyCode::Char('~') {
        &&& e == d
        &&& out matches Some(Effect::PickerHome(t)) && t == target
    } else {
        out is None && e == d
    }
}

impl CreateDialog {
    fn picker_enter(p: &DirPicker, target: PickerTarget) -> (out: Option<Effect>)
        ensures
            picker_entered(*p, target, out),
    {
        let entry = if p.selected < p.entries.len() {
            copy_string(&p.entries[p.selected])
        } else {
            String::new()
        };
        if str_eq(entry.as_str(), DRIVES_ENTRY) {
            return Some(Effect::PickerShowDrives(target));
        }
        if p.showing_drives {
            return Some(Effect::PickerNavigate { target, path: entry });
        }
        if str_eq(entry.as_str(), "..") {
            let parent = match parent_of(p.path.as_str()) {
                Some(q) => q,
                None => copy_string(&p.path),
            };
            if str_eq(parent.as_str(), p.path.as_str()) {
                return Some(Effect::PickerShowDrives(target));
            }
            return Some(Effect::PickerNavigate { target, path: parent });
        }
        let path = join_path(p.path.as_str(), entry.as_str());
        Some(Effect::PickerNavigate { target, path })
    }

    /// Handle a key while a directory picker is open; returns the outside
    /// work to ask for (see [`picker_key_done`]).
    pub fn handle_picker_key(&mut self, code: KeyCode) -> (out: Option<Effect>)
        requires
            old(self).wf(),
        ensures
            picker_key_done(*old(self), code, *final(self), out),
    {
        let mount = self.mount_add.dir_picker.visible;
        let target = if mount {
            PickerTarget::MountSource
        } else {
            PickerTarget::Workdir
        };
        if code == KeyCode::Esc {
            if mount {
                self.mount_add.dir_picker.visible = false;
            } else {
                self.dir_picker.visible = false;
            }
        } else if code == KeyCode::Up {
            if mount {
                self.mount_add.dir_picker.move_up();
            } else {
                self.dir_picker.move_up();
            }
        } else if code == KeyCode::Down {
            if mount {
                self.mount_add.dir_picker.move_down();
            } else {
                self.dir_picker.move_down();
            }
        } else if code == KeyCode::Enter {
            return if mount {
                Self::picker_enter(&self.mount_add.dir_picker, target)
            } else {
                Self::picker_enter(&self.dir_picker, target)
            };
        } else if code == KeyCode::Char(' ') {
            if mount {
                if !self.mount_add.dir_picker.showing_drives {
                    self.mount_add.source_input = copy_string(&self.mount_add.dir_picker.path);
                }
                self.mount_add.dir_picker.visible = false;
            } else {
                if !self.dir_picker.showing_drives {
                    self.workdir = copy_string(&self.dir_picker.path);
                }
                self.dir_picker.visible = false;
            }
        } else if code == KeyCode::Char('/') {
            return Some(Effect::PickerShowDrives(target));
        } else if code == KeyCode::Char('~') {
            return Some(Effect::PickerHome(target));
        }
        None
    }
}


//----------------------------------------------------------------------
// The popups keep the dialog well-formed
//----------------------------------------------------------------------

proof fn lemma_next_enabled_from_bound(d: CreateDialog, idx: int, forward: bool, fuel: nat)
    requires
        0 <= idx <= d.form_field_count_spec(),
    ensures
        -1 <= d.next_enabled_from(idx, forward, fuel) <= d.form_field_count_spec(),
    decreases fuel,
{
    if fuel > 0 {
        let j = d.step_spec(idx, forward);
        if !(j == d.form_field_count_spec() || !d.disabled_spec(d.tab, j)) {
            lemma_next_enabled_from_bound(d, j, forward, (fuel - 1) as nat);
        }
    }
}

/// Moving between fields stays on the form.
pub proof fn lemma_next_enabled_bound(d: CreateDialog, current: int, forward: bool)
    requires
        0 <= current <= d.form_field_count_spec(),
    ensures
        0 <= d.next_enabled_spec(current, forward) <= d.form_field_count_spec(),
{
    lemma_next_enabled_from_bound(d, current, forward, d.form_field_count_spec() + 1);
}

pub proof fn lemma_port_add_key_wf(d: CreateDialog, code: KeyCode, e: CreateDialog)
    requires
        d.wf(),
        d.port_add.visible,
        port_add_key_done(d, code, e),
    ensures
        e.wf(),
{
}

pub proof fn lemma_env_var_add_key_wf(d: CreateDialog, code: KeyCode, e: CreateDialog)
    requires
        d.wf(),
        d.env_var_add.visible,
        env_var_add_key_done(d, code, e),
    ensures
        e.wf(),
{
}

pub proof fn lemma_net_rule_add_key_wf(d: CreateDialog, code: KeyCode, e: CreateDialog)
    requires
        d.wf(),
        d.net_rule_add.visible,
        net_rule_add_key_done(d, code, e),
    ensures
        e.wf(),
{
}

pub proof fn lemma_secret_add_key_wf(d: CreateDialog, code: KeyCode, e: CreateDialog)
    requires
        d.wf(),
        d.secret_add.visible,
        secret_add_key_done(d, code, e),
    ensures
        e.wf(),
{
}

pub proof fn lemma_mount_add_key_wf(
    d: CreateDialog,
    code: KeyCode,
    mods: KeyModifiers,
    e: CreateDialog,
    out: Option<Effect>,
)
    requires
        d.wf(),
        d.mount_add.visible,
        mount_add_key_done(d, code, mods, e, out),
    ensures
        e.wf(),
{
}

pub proof fn lemma_form_key_wf(d: CreateDialog, code: KeyCode, e: CreateDialog, out: Option<Effect>)
    requires
        d.wf(),
        d.field <= d.form_field_count_spec(),
        form_key_done(d, code, e, out),
    ensures
        e.wf(),
        e.field <= e.form_field_count_spec(),
{
    lemma_next_enabled_bound(d, d.field as int, true);
    lemma_next_enabled_bound(d, d.field as int, false);
}

pub proof fn lemma_picker_key_wf(d: CreateDialog, code: KeyCode, e: CreateDialog, out: Option<Effect>)
    requires
        d.wf(),
        picker_key_done(d, code, e, out),
    ensures
        e.wf(),
{
    let p = open_picker(d);
    assert(picker_ok(p));
    if code == KeyCode::Up {
        assert(picker_ok(e.dir_picker));
        assert(picker_ok(e.mount_add.dir_picker));
    } else if code == KeyCode::Down {
        let sel: int = if p.selected + 1 < p.entries@.len() {
            p.selected + 1
        } else {
            p.selected as int
        };
        let off: int = if sel >= p.scroll_offset + PICKER_VISIBLE_ROWS {
            sel + 1 - PICKER_VISIBLE_ROWS
        } else {
            p.scroll_offset as int
        };
        assert(0 <= off <= sel < off + PICKER_VISIBLE_ROWS);
        assert(sel <= p.entries@.len());
        let q = DirPicker { selected: sel as usize, scroll_offset: off as usize, ..p };
        assert(picker_ok(q));
        assert(e == with_open_picker(d, q));
        assert(picker_ok(e.dir_picker));
        assert(picker_ok(e.mount_add.dir_picker));
    }
}


//----------------------------------------------------------------------
// Inline lists in list mode
//----------------------------------------------------------------------

/// The keys that act on the focused inline list in list mode: Esc, Up,
/// Down, `a`/`A`, `d`/`D`/Delete, Enter, and `+`/`-` on the network rules.
pub open spec fn is_list_key(code: KeyCode, list: ListField) -> bool {
    ||| code == KeyCode::Esc
    ||| code == KeyCode::Up
    ||| code == KeyCode::Down
    ||| code == KeyCode::Char('a')
    ||| code == KeyCode::Char('A')
    ||| code == KeyCode::Char('d')
    ||| code == KeyCode::Char('D')
    ||| code == KeyCode::Delete
    ||| code == KeyCode::Enter
    ||| list == ListField::NetworkRules && (code == KeyCode::Char('+') || code == KeyCode::Char(
        '-',
    ))
}

/// `e` is `d` after list key `code` on `list`: Esc leaves list mode, Up
/// and Down move the selection, `a` opens the empty "Add" popup, `d` or
/// Delete deletes the selected entry, Enter opens the popup on it, and
/// `+`/`-` move a network rule up or down.
pub open spec fn list_key_done(d: CreateDialog, list: ListField, code: KeyCode, e: CreateDialog) -> bool {
    if code == KeyCode::Esc {
        e == (CreateDialog { list_edit_mode: false, ..d })
    } else if code == KeyCode::Up || code == KeyCode::Down {
        e == d.with_sel(list, moved_sel(d.list_sel(list), d.list_len(list), code == KeyCode::Up))
    } else if code == KeyCode::Char('a') || code == KeyCode::Char('A') {
        d.list_add_opened(list, e)
    } else if code == KeyCode::Char('d') || code == KeyCode::Char('D') || code == KeyCode::Delete {
        d.list_deleted(list, e)
    } else if code == KeyCode::Enter {
        d.list_edit_opened(list, e)
    } else {
        d.rule_moved(code == KeyCode::Char('+'), e)
    }
}

/// A key on the variable popup, or on the focused inline list, keeps
/// every key of the environment-variable list trimmed, non-empty and free
/// of `=`, and the list's selection on an entry (or 0 when it is empty).
pub proof fn law_env_var_keys_kept(d: CreateDialog, code: KeyCode, list: ListField, e: CreateDialog)
    requires
        d.wf(),
        env_keys_ok(d.env_vars@),
        (d.env_var_add.visible && env_var_add_key_done(d, code, e)) || list_key_done(d, list, code, e),
    ensures
        env_keys_ok(e.env_vars@),
        sel_ok(e.env_vars_selected, e.env_vars@.len()),
{
    if d.env_var_add.visible && env_var_add_key_done(d, code, e) {
        if code == KeyCode::Enter && d.env_var_add.add_field != 0 {
            law_env_var_submit_keeps_keys(d, e);
        }
    } else if code == KeyCode::Char('d') || code == KeyCode::Char('D') || code == KeyCode::Delete {
        if list == ListField::EnvVars && d.env_vars@.len() > 0 {
            let sel = d.env_vars_selected as int;
            assert forall|j: int| 0 <= j < e.env_vars@.len() implies env_key_ok(
                #[trigger] e.env_vars@[j].0@,
            ) by {
                if j < sel {
                    assert(e.env_vars@[j] == d.env_vars@[j]);
                } else {
                    assert(e.env_vars@[j] == d.env_vars@[j + 1]);
                }
            }
        }
    }
}

/// The list key opens the mount popup, whose volume list then needs
/// refreshing.
pub open spec fn list_key_refreshes(d: CreateDialog, list: ListField, code: KeyCode) -> bool {
    &&& list == ListField::Mounts
    &&& (code == KeyCode::Char('a') || code == KeyCode::Char('A') || (code == KeyCode::Enter
        && d.list_sel(list) < d.list_len(list)))
}

impl CreateDialog {
    /// Handle list key `code` on the focused `list` (see
    /// [`list_key_done`]); returns whether the volumes should be re-read.
    pub fn handle_list_key(&mut self, list: ListField, code: KeyCode) -> (refresh: bool)
        requires
            old(self).wf(),
            is_list_key(code, list),
        ensures
            list_key_done(*old(self), list, code, *final(self)),
            refresh == list_key_refreshes(*old(self), list, code),
    {
        if code == KeyCode::Esc {
            self.list_edit_mode = false;
            false
        } else if code == KeyCode::Up || code == KeyCode::Down {
            self.move_list_selection(list, code == KeyCode::Up);
            false
        } else if code == KeyCode::Char('a') || code == KeyCode::Char('A') {
            self.open_list_add(list);
            list == ListField::Mounts
        } else if code == KeyCode::Char('d') || code == KeyCode::Char('D') || code
            == KeyCode::Delete {
            self.delete_list_selected(list);
            false
        } else if code == KeyCode::Enter {
            let opened = self.open_list_edit(list);
            opened && list == ListField::Mounts
        } else {
            self.move_network_rule(code == KeyCode::Char('+'));
            false
        }
    }
}

/// No "Add" popup is open.
pub open spec fn no_popup_open(d: CreateDialog) -> bool {
    &&& !d.port_add.visible
    &&& !d.env_var_add.visible
    &&& !d.net_rule_add.visible
    &&& !d.mount_add.visible
    &&& !d.secret_add.visible
}

pub proof fn lemma_list_key_wf(d: CreateDialog, list: ListField, code: KeyCode, e: CreateDialog)
    requires
        d.wf(),
        no_popup_open(d),
        is_list_key(code, list),
        list_key_done(d, list, code, e),
    ensures
        e.wf(),
{
    if code == KeyCode::Up || code == KeyCode::Down {
        assert(e.selections_ok());
    } else if code == KeyCode::Char('a') || code == KeyCode::Char('A') {
        assert(e.wf());
    } else if code == KeyCode::Char('d') || code == KeyCode::Char('D') || code == KeyCode::Delete {
        assert(e.selections_ok());
        assert(e.edits_ok());
    } else if code == KeyCode::Enter {
        assert(e.edits_ok());
    }
}

} // verus!
