//! The dispatch layer: provider resolution, service-action planning,
//! init-system detection, target policy and remote decoding.

use inapi::error::Error;
use inapi::frames::Frame;
use inapi::host::Host;
use inapi::package::{default_provider, Macports, Providers};
use inapi::remote::{
    bool_response, default_provider_response, exec_request, file_get_mode_request,
    file_is_file_request, file_set_mode_request, mode_response, owner_response,
};
use inapi::service::{
    is_start_link, parse_runlevel, rc_directory, service_init_plan, service_systemd_plan,
    systemd_probe_command, Service,
};
use inapi::target::{ServiceStrategy, Target};
use inapi::telemetry::{Cpu, Os, Telemetry};
use inapi::text::mentions_systemd;

#[test]
fn nix_sole_candidate_active_resolves_to_nix() {
    let candidates = vec![Providers::Nix];
    let active = vec![true];
    assert_eq!(default_provider(&candidates, &active).unwrap(), Providers::Nix);
}

#[test]
fn no_active_candidate_is_a_resolution_error() {
    let candidates = vec![Providers::Nix];
    let active = vec![false];
    assert!(matches!(default_provider(&candidates, &active), Err(Error::NoProvider)));
}

#[test]
fn first_active_candidate_wins() {
    let candidates = vec![Providers::Dnf, Providers::Yum, Providers::Apt];
    let active = vec![false, true, true];
    assert_eq!(default_provider(&candidates, &active).unwrap(), Providers::Yum);
}

#[test]
fn provider_names_round_trip() {
    for p in [
        Providers::Apt,
        Providers::Dnf,
        Providers::Homebrew,
        Providers::Macports,
        Providers::Nix,
        Providers::Pkg,
        Providers::Yum,
    ] {
        assert_eq!(Providers::from_name(p.name()), Some(p));
    }
    assert_eq!(Providers::from_name("Portage"), None);
}

#[test]
fn macports_identity_and_probe() {
    let mut host = Host::new();
    let provider = Macports;
    assert_eq!(provider.get_providers(), Providers::Macports);
    assert_eq!(provider.is_active(&mut host).unwrap(), false);
}

#[test]
fn systemd_start_already_active_is_a_noop() {
    assert_eq!(systemd_probe_command("start"), Some("is-active"));
    assert_eq!(service_systemd_plan("nginx", "start", true), None);
}

#[test]
fn systemd_start_when_inactive_runs_one_command() {
    assert_eq!(
        service_systemd_plan("nginx", "start", false),
        Some("systemctl start nginx".to_string())
    );
}

#[test]
fn systemd_enable_already_enabled_is_a_noop() {
    assert_eq!(systemd_probe_command("enable"), Some("is-enabled"));
    assert_eq!(service_systemd_plan("nginx", "enable", true), None);
    assert_eq!(
        service_systemd_plan("nginx", "enable", false),
        Some("systemctl enable nginx".to_string())
    );
}

#[test]
fn systemd_stop_and_disable_invert_the_probe() {
    assert_eq!(service_systemd_plan("nginx", "stop", false), None);
    assert_eq!(
        service_systemd_plan("nginx", "stop", true),
        Some("systemctl stop nginx".to_string())
    );
    assert_eq!(service_systemd_plan("nginx", "disable", false), None);
    assert_eq!(
        service_systemd_plan("nginx", "disable", true),
        Some("systemctl disable nginx".to_string())
    );
}

#[test]
fn other_actions_always_run() {
    assert_eq!(systemd_probe_command("reload"), None);
    assert_eq!(
        service_systemd_plan("nginx", "reload", false),
        Some("systemctl reload nginx".to_string())
    );
}

#[test]
fn init_script_enable_plans() {
    assert_eq!(
        service_init_plan("nginx", "enable", false),
        Some("update-rc.d nginx enable".to_string())
    );
    assert_eq!(service_init_plan("nginx", "enable", true), None);
    assert_eq!(
        service_init_plan("nginx", "disable", true),
        Some("update-rc.d nginx disable".to_string())
    );
    assert_eq!(service_init_plan("nginx", "disable", false), None);
}

#[test]
fn runlevel_report_parses() {
    assert_eq!(parse_runlevel("N 5\n"), Some(5));
    assert_eq!(parse_runlevel("N 3"), Some(3));
    assert_eq!(parse_runlevel("unknown"), None);
    assert_eq!(parse_runlevel("N 5x"), None);
    assert_eq!(parse_runlevel("n 5"), None);
    assert_eq!(parse_runlevel(""), None);
}

#[test]
fn rc_directory_names_the_runlevel() {
    assert_eq!(rc_directory(5), "/etc/rc5.d");
    assert_eq!(rc_directory(0), "/etc/rc0.d");
}

#[test]
fn start_links_match_exactly() {
    assert!(is_start_link("/etc/rc5.d/S20nginx", "nginx"));
    assert!(!is_start_link("/etc/rc5.d/K20nginx", "nginx"));
    assert!(!is_start_link("/etc/rc5.d/S2nginx", "nginx"));
    assert!(!is_start_link("/etc/rc5.d/S20nginx2", "nginx"));
    assert!(!is_start_link("S20nginx", "nginx"));
    assert!(!is_start_link("", "nginx"));
}

#[test]
fn systemd_detection_scans_the_report() {
    assert!(mentions_systemd("'/proc/1/exe' -> '/lib/systemd/systemd'\n"));
    assert!(!mentions_systemd("'/proc/1/exe' -> '/sbin/init'\n"));
    assert!(!mentions_systemd(""));
}

#[test]
fn target_policies() {
    assert_eq!(Target::Nixos.provider_candidates(), vec![Providers::Nix]);
    assert_eq!(Target::Ubuntu.provider_candidates(), vec![Providers::Apt]);
    assert_eq!(Target::Debian.provider_candidates(), vec![Providers::Apt]);
    assert_eq!(Target::Nixos.service_strategy(), ServiceStrategy::SystemdOnly);
    assert_eq!(Target::Ubuntu.service_strategy(), ServiceStrategy::DetectInit);
    assert_eq!(Target::Nixos.os_family(), "linux");
    assert_eq!(Target::Nixos.platform_name(), "nixos");
    assert_eq!(Target::Ubuntu.os_family(), "debian");
    assert_eq!(Target::Ubuntu.platform_name(), "ubuntu");
    assert_eq!(Target::Debian.platform_name(), "debian");
}

#[test]
fn remote_bool_reply_reads_one_and_zero() {
    let mut host = Host::test_new(None, true, false, None);
    file_is_file_request(&mut host, "/tmp/moo").unwrap();
    let out = host.take_outbox();
    assert_eq!(out.len(), 2);

    host.push_response(vec![Frame::text("Ok", true), Frame::text("1", false)]);
    assert_eq!(bool_response(&mut host, "is_file", 1).unwrap(), true);

    host.push_response(vec![Frame::text("Ok", true), Frame::text("0", false)]);
    assert_eq!(bool_response(&mut host, "is_file", 1).unwrap(), false);
}

#[test]
fn remote_mode_reply_parses_and_bounds() {
    let mut host = Host::test_new(None, true, false, None);
    file_get_mode_request(&mut host, "/tmp/moo").unwrap();
    host.take_outbox();

    host.push_response(vec![Frame::text("Ok", true), Frame::text("644", false)]);
    assert_eq!(mode_response(&mut host).unwrap(), 644);

    host.push_response(vec![Frame::text("Ok", true), Frame::text("70000", false)]);
    assert!(matches!(mode_response(&mut host), Err(Error::Parse(_))));
}

#[test]
fn remote_owner_reply_reads_four_frames() {
    let mut host = Host::test_new(None, true, false, None);
    host.push_response(vec![
        Frame::text("Ok", true),
        Frame::text("root", true),
        Frame::text("0", true),
        Frame::text("wheel", true),
        Frame::text("10", false),
    ]);
    let owner = owner_response(&mut host).unwrap();
    assert_eq!(owner.user_name, "root");
    assert_eq!(owner.user_uid, 0);
    assert_eq!(owner.group_name, "wheel");
    assert_eq!(owner.group_gid, 10);
}

#[test]
fn remote_provider_reply_resolves_identifier() {
    let mut host = Host::test_new(None, true, false, None);
    host.push_response(vec![Frame::text("Ok", true), Frame::text("Nix", false)]);
    assert_eq!(default_provider_response(&mut host).unwrap(), Providers::Nix);

    host.push_response(vec![Frame::text("Ok", true), Frame::text("Portage", false)]);
    assert!(matches!(default_provider_response(&mut host), Err(Error::Parse(_))));
}

#[test]
fn request_frames_carry_exact_arguments() {
    let mut host = Host::test_new(None, true, false, None);
    exec_request(&mut host, "whoami").unwrap();
    file_set_mode_request(&mut host, "/tmp/moo", 755).unwrap();
    let out = host.take_outbox();
    assert_eq!(out.len(), 5);
    let texts: Vec<String> = out
        .iter()
        .map(|f| match &f.data {
            inapi::frames::FrameData::Text(s) => s.clone(),
            _ => panic!("expected text"),
        })
        .collect();
    assert_eq!(texts, vec!["command::exec", "whoami", "file::set_mode", "/tmp/moo", "755"]);
    assert!(out[0].more && !out[1].more && out[2].more && out[3].more && !out[4].more);
}

#[test]
fn service_request_then_agent_failure() {
    let mut host = Host::test_new(None, true, false, None);
    let service = Service::new("nginx");
    service.action_request(&mut host, "stop").unwrap();
    host.take_outbox();
    host.push_response(vec![
        Frame::text("Err", true),
        Frame::text("unit not found", false),
    ]);
    match inapi::remote::command_result_response(&mut host) {
        Err(Error::Agent(m)) => assert_eq!(m, "unit not found"),
        _ => panic!("expected an agent error"),
    }
}

#[test]
fn telemetry_snapshot_keeps_its_fields() {
    let cpu = Cpu::new("GenuineIntel", "Intel(R) Core(TM)", 8);
    let os = Os::new("x86_64", "debian", "ubuntu", "22.04.3", 22, 4, 3);
    let snapshot = Telemetry::new(cpu, Vec::new(), "web01", 16777216, Vec::new(), os);
    assert_eq!(snapshot.cpu.vendor, "GenuineIntel");
    assert_eq!(snapshot.cpu.cores, 8);
    assert_eq!(snapshot.hostname, "web01");
    assert_eq!(snapshot.memory, 16777216);
    assert_eq!(snapshot.os.platform, "ubuntu");
    assert_eq!(snapshot.os.version_maj, 22);
}
