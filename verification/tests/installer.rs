use nix_installer::action::{ActionDescription, ActionState, StatefulAction};
use nix_installer::configure_init_service::{InitSystem, UnitSrc};
use nix_installer::configure_shell_profile::{
    ConfigureShellProfile, CreateOrAppendFileReceipt, HarmonicError, PROFILE_TARGETS,
};
use nix_installer::configure_upstream_init_service::{
    ConfigureUpstreamInitService, DARWIN_NIXD_DAEMON_DEST, DARWIN_NIX_DAEMON_DEST, SERVICE_DEST,
};
use nix_installer::create_apfs_volume::{
    CreateApfsVolume, CreateApfsVolumeError, DiskUtilApfsContainer, DiskUtilApfsListOutput,
    DiskUtilApfsListVolume,
};
use nix_installer::distribution::{Distribution, TarballLocation, UrlOrPath, NIX_TARBALL_URL};
use nix_installer::kickstart_launchctl_service::{
    Action, KickstartLaunchctlService, KickstartLaunchctlServiceError,
};

fn texts(ds: &[ActionDescription]) -> Vec<(String, Vec<String>)> {
    ds.iter()
        .map(|d| (d.description.clone(), d.explanation.clone()))
        .collect()
}

fn listing(containers: &[&[&str]]) -> DiskUtilApfsListOutput {
    DiskUtilApfsListOutput {
        containers: containers
            .iter()
            .map(|vols| DiskUtilApfsContainer {
                volumes: vols
                    .iter()
                    .map(|n| DiskUtilApfsListVolume { name: n.to_string() })
                    .collect(),
            })
            .collect(),
    }
}

#[test]
fn nix_tarball_is_the_builtin_url() {
    match Distribution::Nix.tarball_location() {
        TarballLocation::UrlOrPath(UrlOrPath::Url(u)) => assert_eq!(u, NIX_TARBALL_URL),
        _ => panic!("expected the built-in URL"),
    }
}

#[test]
fn user_preference_wins() {
    let pref = Some(UrlOrPath::Path("/tmp/nix.tar.xz".to_string()));
    for d in [Distribution::Nix, Distribution::DeterminateNix] {
        match d.tarball_location_or(&pref) {
            TarballLocation::UrlOrPath(UrlOrPath::Path(p)) => assert_eq!(p, "/tmp/nix.tar.xz"),
            _ => panic!("expected the preferred path"),
        }
    }
}

#[test]
fn no_preference_gives_builtin_location() {
    match Distribution::Nix.tarball_location_or(&None) {
        TarballLocation::UrlOrPath(UrlOrPath::Url(u)) => assert_eq!(u, NIX_TARBALL_URL),
        _ => panic!("expected the built-in URL"),
    }
}

#[test]
fn stateful_action_execute_then_revert() {
    let mut a = StatefulAction::new(7u8);
    assert_eq!(a.state, ActionState::Uncompleted);
    assert!(a.begin_execute());
    assert_eq!(a.state, ActionState::Progress);
    a.finish_execute(true);
    assert_eq!(a.state, ActionState::Completed);
    // a second execution does nothing
    assert!(!a.begin_execute());
    assert_eq!(a.state, ActionState::Completed);
    assert!(a.begin_revert());
    a.finish_revert(true);
    assert_eq!(a.state, ActionState::Uncompleted);
    // a second revert does nothing
    assert!(!a.begin_revert());
    assert_eq!(a.action, 7);
}

#[test]
fn stateful_action_failure_stays_in_progress() {
    let mut a = StatefulAction::new(());
    assert!(a.begin_execute());
    a.finish_execute(false);
    assert_eq!(a.state, ActionState::Progress);
    // and can be tried again
    assert!(a.begin_execute());
}

#[test]
fn skipped_action_never_runs() {
    let mut a = StatefulAction { action: (), state: ActionState::Skipped };
    assert!(!a.begin_execute());
    assert!(!a.begin_revert());
    assert_eq!(a.state, ActionState::Skipped);
}

#[test]
fn upstream_plan_launchd() {
    assert_eq!(
        ConfigureUpstreamInitService::stale_unit_to_remove(InitSystem::Launchd).as_deref(),
        Some(DARWIN_NIXD_DAEMON_DEST)
    );
    let a = ConfigureUpstreamInitService::plan(InitSystem::Launchd, true);
    assert_eq!(a.state, ActionState::Uncompleted);
    let inner = &a.action.configure_init_service;
    assert_eq!(inner.state, ActionState::Uncompleted);
    assert_eq!(inner.action.init, InitSystem::Launchd);
    assert!(inner.action.start_daemon);
    match &inner.action.service_src {
        Some(UnitSrc::Path(p)) => assert_eq!(
            p,
            "/nix/var/nix/profiles/default/Library/LaunchDaemons/org.nixos.nix-daemon.plist"
        ),
        _ => panic!("expected a path"),
    }
    assert_eq!(inner.action.service_dest.as_deref(), Some(DARWIN_NIX_DAEMON_DEST));
    assert_eq!(inner.action.service_name.as_deref(), Some("org.nixos.nix-daemon"));
    assert_eq!(inner.action.socket_files.len(), 1);
    assert_eq!(inner.action.socket_files[0].name, "nix-daemon.socket");
    assert_eq!(inner.action.socket_files[0].dest, "/etc/systemd/system/nix-daemon.socket");
}

#[test]
fn upstream_plan_systemd_and_none() {
    assert!(ConfigureUpstreamInitService::stale_unit_to_remove(InitSystem::Systemd).is_none());
    let a = ConfigureUpstreamInitService::plan(InitSystem::Systemd, false);
    let inner = &a.action.configure_init_service.action;
    assert_eq!(inner.service_dest.as_deref(), Some(SERVICE_DEST));
    assert!(inner.service_name.is_none());
    assert!(!inner.start_daemon);

    let a = ConfigureUpstreamInitService::plan(InitSystem::NoInit, true);
    let inner = &a.action.configure_init_service.action;
    assert!(inner.service_src.is_none());
    assert!(inner.service_dest.is_none());
    assert!(inner.service_name.is_none());
    assert_eq!(inner.socket_files.len(), 1);
}

#[test]
fn upstream_descriptions() {
    let a = ConfigureUpstreamInitService::plan(InitSystem::Systemd, true).action;
    assert_eq!(ConfigureUpstreamInitService::action_tag().0, "create_upstream_init_service");
    assert_eq!(
        texts(&a.execute_description()),
        vec![(
            "Configure upstream Nix daemon service".to_string(),
            vec!["Configure Nix daemon related settings with systemd".to_string()]
        )]
    );
    assert_eq!(
        texts(&a.revert_description()),
        vec![(
            "Remove upstream Nix daemon service".to_string(),
            vec!["Configure Nix daemon related settings with systemd".to_string()]
        )]
    );
}

#[test]
fn upstream_execute_and_revert_track_inner_state() {
    let mut a = ConfigureUpstreamInitService::plan(InitSystem::Launchd, true).action;
    assert!(a.begin_execute());
    a.finish_execute(true);
    assert_eq!(a.configure_init_service.state, ActionState::Completed);
    assert!(!a.begin_execute());
    assert!(a.begin_revert());
    a.finish_revert(true);
    assert_eq!(a.configure_init_service.state, ActionState::Uncompleted);
}

#[test]
fn apfs_plan_refuses_existing_volume() {
    let l = listing(&[&["Macintosh HD", "Data"], &["Nix Store", "Other"]]);
    match CreateApfsVolume::plan("disk3".to_string(), "Nix Store".to_string(), false, &l) {
        Err(e) => {
            let CreateApfsVolumeError::ExistingVolume(n) = &e;
            assert_eq!(n, "Nix Store");
            assert_eq!(
                e.message(),
                "Existing volume called `Nix Store` found in `diskutil apfs list`, delete it with `diskutil apfs deleteVolume \"Nix Store\"`"
            );
        },
        Ok(_) => panic!("expected ExistingVolume"),
    }
}

#[test]
fn apfs_plan_accepts_new_volume() {
    let l = listing(&[&["Macintosh HD", "Data"], &[]]);
    let a = CreateApfsVolume::plan("disk3".to_string(), "Nix Store".to_string(), true, &l)
        .ok()
        .expect("planned");
    assert_eq!(a.state, ActionState::Uncompleted);
    assert_eq!(a.action.disk, "disk3");
    assert_eq!(a.action.name, "Nix Store");
    assert!(a.action.case_sensitive);
    // an empty listing refuses nothing
    assert!(CreateApfsVolume::plan("d".to_string(), "x".to_string(), false, &listing(&[])).is_ok());
}

#[test]
fn apfs_arguments_and_descriptions() {
    let v = CreateApfsVolume { disk: "disk3".to_string(), name: "Nix Store".to_string(), case_sensitive: false };
    assert_eq!(CreateApfsVolume::list_arguments(), vec!["apfs", "list", "-plist"]);
    assert_eq!(
        v.execute_arguments(),
        vec!["apfs", "addVolume", "disk3", "APFS", "Nix Store", "-nomount"]
    );
    assert_eq!(v.revert_arguments(), vec!["apfs", "deleteVolume", "Nix Store"]);
    assert_eq!(v.tracing_synopsis(), "Create an APFS volume on `disk3` named `Nix Store`");
    assert_eq!(
        texts(&v.execute_description()),
        vec![("Create an APFS volume on `disk3` named `Nix Store`".to_string(), vec![])]
    );
    assert_eq!(
        texts(&v.revert_description()),
        vec![("Remove the volume on `disk3` named `Nix Store`".to_string(), vec![])]
    );
    let cs = CreateApfsVolume { case_sensitive: true, ..v };
    assert_eq!(cs.execute_arguments()[3], "Case-sensitive APFS");
    // the volume reverted is the volume created
    assert_eq!(cs.execute_arguments()[4], cs.revert_arguments()[2]);
}

const NIX_LINES: &str = "\n# Nix\nif [ -e '/nix/var/nix/profiles/default/etc/profile.d/nix-daemon.sh' ]; then\n. '/nix/var/nix/profiles/default/etc/profile.d/nix-daemon.sh'\nfi\n# End Nix\n\n            \n";

#[test]
fn shell_profile_plan_edits_every_target() {
    let p = ConfigureShellProfile::plan().ok().expect("planned");
    assert_eq!(p.create_or_append_files.len(), PROFILE_TARGETS.len());
    let paths: Vec<&str> = p.create_or_append_files.iter().map(|f| f.path.as_str()).collect();
    assert_eq!(
        paths,
        vec!["/etc/bashrc", "/etc/profile.d/nix.sh", "/etc/zshrc", "/etc/bash.bashrc", "/etc/zsh/zshrc"]
    );
    for f in &p.create_or_append_files {
        assert_eq!(f.user, "root");
        assert_eq!(f.group, "root");
        assert_eq!(f.mode, 0o644);
        assert_eq!(f.buf, NIX_LINES);
    }
    assert_eq!(
        texts(&p.description()),
        vec![(
            "Configure the shell profiles".to_string(),
            vec!["Update shell profiles to import Nix".to_string()]
        )]
    );
}

fn receipt(path: &str) -> CreateOrAppendFileReceipt {
    CreateOrAppendFileReceipt {
        path: path.to_string(),
        user: "root".to_string(),
        group: "root".to_string(),
        mode: 0o644,
        buf: NIX_LINES.to_string(),
    }
}

#[test]
fn shell_profile_all_succeed() {
    let r = ConfigureShellProfile::collect_execute_results(vec![Ok(receipt("/a")), Ok(receipt("/b"))]);
    let receipt = r.ok().expect("succeeded");
    let paths: Vec<&str> = receipt.create_or_append_files.iter().map(|f| f.path.as_str()).collect();
    assert_eq!(paths, vec!["/a", "/b"]);
    assert!(ConfigureShellProfile::collect_execute_results(vec![]).is_ok());
}

#[test]
fn shell_profile_one_failure() {
    let r = ConfigureShellProfile::collect_execute_results(vec![
        Ok(receipt("/a")),
        Err(HarmonicError::Failed("disk full".to_string())),
        Ok(receipt("/b")),
    ]);
    match r {
        Err(HarmonicError::Failed(m)) => assert_eq!(m, "disk full"),
        _ => panic!("expected the one error"),
    }
}

#[test]
fn shell_profile_many_failures() {
    let r = ConfigureShellProfile::collect_execute_results(vec![
        Err(HarmonicError::Failed("one".to_string())),
        Ok(receipt("/a")),
        Err(HarmonicError::Join("two".to_string())),
    ]);
    match r {
        Err(HarmonicError::Multiple(es)) => {
            assert_eq!(es.len(), 2);
            assert!(matches!(&es[0], HarmonicError::Failed(m) if m == "one"));
            assert!(matches!(&es[1], HarmonicError::Join(m) if m == "two"));
        },
        _ => panic!("expected several errors"),
    }
}

#[test]
fn kickstart_execute_once() {
    let mut k = KickstartLaunchctlService::plan("system/org.nixos.nix-daemon".to_string())
        .ok()
        .expect("planned");
    assert_eq!(k.action_state, ActionState::Uncompleted);
    assert_eq!(
        texts(&k.describe_execute()),
        vec![(
            "Kickstart the launchctl unit `system/org.nixos.nix-daemon`".to_string(),
            vec!["The `nix` command line tool communicates with a running Nix daemon managed by your init system".to_string()]
        )]
    );
    assert!(k.describe_revert().is_empty());
    assert!(k.revert_arguments().is_none());
    assert_eq!(
        k.execute_arguments(),
        Some(vec!["kickstart".to_string(), "-k".to_string(), "system/org.nixos.nix-daemon".to_string()])
    );
    assert!(k.finish_execute(Ok(())).is_ok());
    assert_eq!(k.action_state, ActionState::Completed);
    // executing again does nothing
    assert!(k.execute_arguments().is_none());
    assert!(k.describe_execute().is_empty());
    assert_eq!(texts(&k.describe_revert())[0].0, "Kick");
    assert_eq!(
        k.revert_arguments(),
        Some(vec!["stop".to_string(), "system/org.nixos.nix-daemon".to_string()])
    );
    assert!(k.finish_revert(Ok(())).is_ok());
    // as the installer did, a stopped unit is marked completed
    assert_eq!(k.action_state, ActionState::Completed);
}

#[test]
fn kickstart_failure_keeps_state() {
    let mut k = KickstartLaunchctlService::plan("u".to_string()).ok().expect("planned");
    let err = KickstartLaunchctlServiceError::Command(std::io::Error::new(std::io::ErrorKind::Other, "boom"));
    assert_eq!(err.message(), "Failed to execute command");
    let r = k.finish_execute(Err(err));
    assert!(matches!(r, Err(KickstartLaunchctlServiceError::Command(_))));
    assert_eq!(k.action_state, ActionState::Uncompleted);
}

#[test]
fn kickstart_into_action() {
    let k = KickstartLaunchctlService::plan("u".to_string()).ok().expect("planned");
    let a: Action = k.into();
    let Action::DarwinKickStartLaunchctlService(k) = a;
    assert_eq!(k.unit, "u");
}
