use microsandbox_tui::sandbox::{
    host_path_to_guest_path, resolve_workdir_host_path, FsEntry, LocalFsEntryKind, MetricsSnapshot,
    MountBacking, NetRuleAction, NetRuleDestGroup, NetRuleDestKind, NetRuleDirection,
    NetRuleProtocol, NetworkRule, SandboxInfo, SandboxStatus, SecretConfig, SecretHostKind,
    SecretHostPattern,
};
use microsandbox_tui::theme::{gauge_level, GaugeLevel, ThemeMode};

fn bind_mount(host: &str, guest: &str) -> MountBacking {
    MountBacking::Bind { host: host.to_string(), guest: guest.to_string() }
}

#[test]
fn test_resolve_workdir_host_path_exact_match() {
    let mounts = vec![bind_mount("/home/user/project", "/workspace")];
    assert_eq!(resolve_workdir_host_path("/workspace", &mounts), "/home/user/project");
}

#[test]
fn test_resolve_workdir_host_path_subdirectory() {
    let mounts = vec![bind_mount("/home/user/project", "/workspace")];
    assert_eq!(resolve_workdir_host_path("/workspace/src", &mounts), "/home/user/project/src");
}

#[test]
fn test_resolve_workdir_host_path_no_matching_mount_falls_back_to_guest() {
    let mounts = vec![bind_mount("/home/user/project", "/other")];
    assert_eq!(resolve_workdir_host_path("/workspace", &mounts), "/workspace");
}

#[test]
fn test_resolve_workdir_host_path_no_mounts_falls_back_to_guest() {
    assert_eq!(resolve_workdir_host_path("/workspace", &Vec::new()), "/workspace");
}

#[test]
fn resolve_workdir_skips_other_mounts() {
    let mounts = vec![MountBacking::Other, bind_mount("/srv", "/data")];
    assert_eq!(resolve_workdir_host_path("/data/x", &mounts), "/srv/x");
}

#[test]
fn test_host_path_to_guest_path_windows_backslash() {
    assert_eq!(host_path_to_guest_path(r"d:\my-directory\my-subdir\"), "/d/my-directory/my-subdir");
}

#[test]
fn test_host_path_to_guest_path_windows_forward_slash() {
    assert_eq!(host_path_to_guest_path("D:/my-directory/my-subdir"), "/d/my-directory/my-subdir");
}

#[test]
fn test_host_path_to_guest_path_windows_uppercase_drive() {
    assert_eq!(host_path_to_guest_path(r"C:\Users\me"), "/c/Users/me");
}

#[test]
fn test_host_path_to_guest_path_windows_drive_root() {
    assert_eq!(host_path_to_guest_path(r"E:\"), "/e");
    assert_eq!(host_path_to_guest_path("E:"), "/e");
}

#[test]
fn test_host_path_to_guest_path_unix_passthrough() {
    assert_eq!(host_path_to_guest_path("/home/user/project"), "/home/user/project");
}

#[test]
fn test_host_path_to_guest_path_unix_trailing_slash() {
    assert_eq!(host_path_to_guest_path("/home/user/project/"), "/home/user/project");
}

#[test]
fn test_host_path_to_guest_path_unix_root() {
    assert_eq!(host_path_to_guest_path("/"), "/");
}

#[test]
fn test_sandbox_info_construction() {
    let info = SandboxInfo {
        name: "mybox".into(),
        status: SandboxStatus::Running,
        image: "alpine:latest".into(),
        cpus: 2,
        memory_mib: 1024,
        created_at: None,
        updated_at: None,
        workdir: None,
    };
    assert_eq!(info.name, "mybox");
    assert_eq!(info.status, SandboxStatus::Running);
    assert_eq!(info.cpus, 2);
    assert_eq!(info.memory_mib, 1024);
    assert!(info.created_at.is_none());
}

#[test]
fn test_sandbox_info_clone() {
    let info = SandboxInfo {
        name: "mybox".into(),
        status: SandboxStatus::Stopped,
        image: "alpine:latest".into(),
        cpus: 1,
        memory_mib: 512,
        created_at: Some(1_700_000_000_000),
        updated_at: None,
        workdir: None,
    };
    let cloned = info.clone();
    assert_eq!(cloned.name, info.name);
    assert_eq!(cloned.status, info.status);
}

#[test]
fn test_metrics_snapshot_default_is_zero() {
    let m = MetricsSnapshot::default();
    assert_eq!(m.cpu_percent_x100, 0);
    assert_eq!(m.memory_bytes, 0);
    assert_eq!(m.disk_read_bytes, 0);
    assert_eq!(m.disk_write_bytes, 0);
    assert_eq!(m.net_rx_bytes, 0);
    assert_eq!(m.net_tx_bytes, 0);
    assert_eq!(m.disk_used_bytes, None);
    assert_eq!(m.disk_free_bytes, None);
    assert_eq!(m.uptime_secs, 0);
}

#[test]
fn test_metrics_snapshot_construction() {
    let m = MetricsSnapshot {
        cpu_percent_x100: 7550,
        memory_bytes: 256 * 1024 * 1024,
        disk_used_bytes: Some(128 * 1024 * 1024),
        disk_free_bytes: Some(896 * 1024 * 1024),
        uptime_secs: 3661,
        ..Default::default()
    };
    assert_eq!(m.cpu_percent_x100, 7550);
    assert_eq!(m.memory_bytes, 256 * 1024 * 1024);
    assert_eq!(m.disk_used_bytes, Some(128 * 1024 * 1024));
    assert_eq!(m.disk_free_bytes, Some(896 * 1024 * 1024));
    assert_eq!(m.uptime_secs, 3661);
}

#[test]
fn test_metrics_snapshot_clone() {
    let m = MetricsSnapshot { cpu_percent_x100: 1000, ..Default::default() };
    let c = m.clone();
    assert_eq!(c.cpu_percent_x100, 1000);
}

#[test]
fn test_fs_entry_construction() {
    let e = FsEntry { path: "/etc/passwd".into(), kind: LocalFsEntryKind::File, size: 1234 };
    assert_eq!(e.path, "/etc/passwd");
    assert_eq!(e.kind, LocalFsEntryKind::File);
    assert_eq!(e.size, 1234);
}

#[test]
fn test_fs_entry_clone() {
    let e = FsEntry { path: "/tmp".into(), kind: LocalFsEntryKind::Directory, size: 0 };
    let c = e.clone();
    assert_eq!(c.path, e.path);
    assert_eq!(c.kind, e.kind);
}

#[test]
fn test_local_fs_entry_kind_equality() {
    assert_eq!(LocalFsEntryKind::File, LocalFsEntryKind::File);
    assert_ne!(LocalFsEntryKind::File, LocalFsEntryKind::Directory);
    assert_ne!(LocalFsEntryKind::Symlink, LocalFsEntryKind::Other);
}

#[test]
fn test_all_local_fs_entry_kind_variants() {
    let variants = [
        LocalFsEntryKind::File,
        LocalFsEntryKind::Directory,
        LocalFsEntryKind::Symlink,
        LocalFsEntryKind::Other,
    ];
    for (i, a) in variants.iter().enumerate() {
        for (j, b) in variants.iter().enumerate() {
            if i == j {
                assert_eq!(a, b);
            } else {
                assert_ne!(a, b);
            }
        }
    }
}

#[test]
fn test_net_rule_action_label() {
    assert_eq!(NetRuleAction::Allow.label(), "ALLOW");
    assert_eq!(NetRuleAction::Deny.label(), "DENY");
}

#[test]
fn test_net_rule_direction_label() {
    assert_eq!(NetRuleDirection::Egress.label(), "EGRESS");
    assert_eq!(NetRuleDirection::Ingress.label(), "INGRESS");
    assert_eq!(NetRuleDirection::Any.label(), "ANY");
}

#[test]
fn test_net_rule_dest_kind_cycle_wraps() {
    let mut kind = NetRuleDestKind::Any;
    for _ in 0..NetRuleDestKind::ALL.len() {
        kind = kind.cycle();
    }
    assert_eq!(kind, NetRuleDestKind::Any);
}

#[test]
fn test_net_rule_dest_group_cycle_wraps() {
    let mut group = NetRuleDestGroup::Public;
    for _ in 0..NetRuleDestGroup::ALL.len() {
        group = group.cycle();
    }
    assert_eq!(group, NetRuleDestGroup::Public);
}

#[test]
fn test_net_rule_protocol_is_icmp() {
    assert!(NetRuleProtocol::Icmpv4.is_icmp());
    assert!(NetRuleProtocol::Icmpv6.is_icmp());
    assert!(!NetRuleProtocol::Tcp.is_icmp());
    assert!(!NetRuleProtocol::Udp.is_icmp());
}

#[test]
fn test_secret_config_summary_redacts_value() {
    let secret = SecretConfig {
        env_var: "OPENAI_API_KEY".into(),
        value: "sk-super-secret".into(),
        allowed_hosts: vec![SecretHostPattern {
            kind: SecretHostKind::Exact,
            value: "api.openai.com".into(),
        }],
        inject_headers: true,
        inject_basic_auth: true,
        inject_query: false,
        inject_body: false,
        require_tls_identity: true,
    };
    let summary = secret.summary();
    assert!(!summary.contains("sk-super-secret"));
    assert!(summary.contains("OPENAI_API_KEY"));
    assert!(summary.contains("api.openai.com"));
}

#[test]
fn network_rule_summary_names_every_part() {
    let rule = NetworkRule {
        direction: NetRuleDirection::Egress,
        action: NetRuleAction::Deny,
        dest_kind: NetRuleDestKind::Cidr,
        dest_value: "10.0.0.0/8".into(),
        dest_group: NetRuleDestGroup::Public,
        protocols: vec![NetRuleProtocol::Tcp, NetRuleProtocol::Udp],
        port_range: Some((8000, 9000)),
    };
    let s = rule.summary();
    assert!(s.contains("DENY"));
    assert!(s.contains("EGRESS"));
    assert!(s.contains("10.0.0.0/8"));
    assert!(s.contains("TCP"));
    assert!(s.contains("UDP"));
    assert!(s.contains("8000"));
    assert!(s.contains("9000"));
}

#[test]
fn net_rule_direction_and_action_cycle_back() {
    assert_eq!(NetRuleDirection::Egress.cycle().cycle().cycle(), NetRuleDirection::Egress);
    assert_eq!(NetRuleAction::Allow.cycle().cycle(), NetRuleAction::Allow);
}

#[test]
fn dest_kind_needs_text_value_only_for_typed_destinations() {
    assert!(!NetRuleDestKind::Any.needs_text_value());
    assert!(NetRuleDestKind::Ip.needs_text_value());
    assert!(NetRuleDestKind::Cidr.needs_text_value());
    assert!(NetRuleDestKind::Domain.needs_text_value());
    assert!(NetRuleDestKind::DomainSuffix.needs_text_value());
    assert!(!NetRuleDestKind::Group.needs_text_value());
}

#[test]
fn sandbox_status_names() {
    assert_eq!(SandboxStatus::Running.name(), "Running");
    assert_eq!(SandboxStatus::Stopped.name(), "Stopped");
    assert_eq!(SandboxStatus::Crashed.name(), "Crashed");
}

#[test]
fn test_theme_mode_toggled_round_trips() {
    assert_eq!(ThemeMode::Dark.toggled(), ThemeMode::Light);
    assert_eq!(ThemeMode::Light.toggled(), ThemeMode::Dark);
    assert_eq!(ThemeMode::Dark.toggled().toggled(), ThemeMode::Dark);
}

#[test]
fn theme_mode_default_is_dark() {
    assert_eq!(ThemeMode::default(), ThemeMode::Dark);
}

#[test]
fn gauge_level_thresholds() {
    assert_eq!(gauge_level(1000), GaugeLevel::Normal);
    assert_eq!(gauge_level(6999), GaugeLevel::Normal);
    assert_eq!(gauge_level(7000), GaugeLevel::Warning);
    assert_eq!(gauge_level(8990), GaugeLevel::Warning);
    assert_eq!(gauge_level(9000), GaugeLevel::Critical);
    assert_eq!(gauge_level(10000), GaugeLevel::Critical);
}

#[test]
fn guest_path_of_slashes_alone_is_root() {
    assert_eq!(host_path_to_guest_path("//"), "/");
    assert_eq!(host_path_to_guest_path("///"), "/");
    assert_eq!(host_path_to_guest_path(r"\\"), "/");
    assert_eq!(host_path_to_guest_path(r"\"), "/");
    assert_eq!(host_path_to_guest_path("/a//"), "/a");
    assert_eq!(host_path_to_guest_path(""), "");
}

#[test]
fn guest_path_conversion_is_idempotent() {
    for host in [r"D:\work\", "/home/user/", "//", "E:", "rel/dir/", "a"] {
        let g = host_path_to_guest_path(host);
        assert_eq!(host_path_to_guest_path(&g), g);
        assert!(!g.contains('\\'));
        assert!(g == "/" || !g.ends_with('/'));
    }
}
