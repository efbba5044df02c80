use vstd::prelude::*;

use crate::action::{
    description_texts, runs_execute, runs_revert, state_after_execute, state_after_revert, ActionDescription, ActionState, ActionTag, StatefulAction,
};
use crate::configure_init_service::{
    ConfigureInitService, ConfigureInitServiceView, InitSystem, SocketFile, SocketFileView,
    UnitSrc, UnitSrcView,
};

verus! {

// Linux
pub const SERVICE_SRC: &'static str = "/nix/var/nix/profiles/default/lib/systemd/system/nix-daemon.service";
pub const SERVICE_DEST: &'static str = "/etc/systemd/system/nix-daemon.service";
pub const SOCKET_NAME: &'static str = "nix-daemon.socket";
pub const SOCKET_SRC: &'static str = "/nix/var/nix/profiles/default/lib/systemd/system/nix-daemon.socket";
pub const SOCKET_DEST: &'static str = "/etc/systemd/system/nix-daemon.socket";

// Darwin
pub const DARWIN_NIX_DAEMON_SOURCE: &'static str =
    "/nix/var/nix/profiles/default/Library/LaunchDaemons/org.nixos.nix-daemon.plist";
pub const DARWIN_NIX_DAEMON_DEST: &'static str = "/Library/LaunchDaemons/org.nixos.nix-daemon.plist";
pub const DARWIN_LAUNCHD_SERVICE_NAME: &'static str = "org.nixos.nix-daemon";
/// Where the Determinate Nixd daemon's launchd unit is installed.
pub const DARWIN_NIXD_DAEMON_DEST: &'static str = "/Library/LaunchDaemons/systems.determinate.nix-daemon.plist";

pub const ACTION_TAG: &'static str = "create_upstream_init_service";

/// Configure the init to run the Nix daemon.
pub struct ConfigureUpstreamInitService {
    pub configure_init_service: StatefulAction<ConfigureInitService>,
}

/// The unit file that the upstream daemon's service is copied from.
pub open spec fn upstream_service_src(init: InitSystem) -> Option<UnitSrcView> {
    match init {
        InitSystem::Launchd => Some(UnitSrcView::Path(DARWIN_NIX_DAEMON_SOURCE@)),
        InitSystem::Systemd => Some(UnitSrcView::Path(SERVICE_SRC@)),
        InitSystem::NoInit => None,
    }
}

/// Where the upstream daemon's service unit is installed.
pub open spec fn upstream_service_dest(init: InitSystem) -> Option<Seq<char>> {
    match init {
        InitSystem::Launchd => Some(DARWIN_NIX_DAEMON_DEST@),
        InitSystem::Systemd => Some(SERVICE_DEST@),
        InitSystem::NoInit => None,
    }
}

/// The name the init system knows the upstream daemon by.
pub open spec fn upstream_service_name(init: InitSystem) -> Option<Seq<char>> {
    match init {
        InitSystem::Launchd => Some(DARWIN_LAUNCHD_SERVICE_NAME@),
        _ => None,
    }
}

/// The socket unit planned with the upstream daemon.
pub open spec fn upstream_socket() -> SocketFileView {
    SocketFileView {
        name: SOCKET_NAME@,
        src: UnitSrcView::Path(SOCKET_SRC@),
        dest: SOCKET_DEST@,
    }
}

/// The init service configuration planned for the upstream Nix daemon.
pub open spec fn upstream_init_service(init: InitSystem, start_daemon: bool) -> ConfigureInitServiceView {
    ConfigureInitServiceView {
        init,
        start_daemon,
        service_src: upstream_service_src(init),
        service_dest: upstream_service_dest(init),
        service_name: upstream_service_name(init),
        socket_files: seq![upstream_socket()],
    }
}

/// The explanation shared by both descriptions: what the inner action does.
pub open spec fn inner_explanation(s: ConfigureUpstreamInitService) -> Seq<Seq<char>> {
    seq![ConfigureInitService::synopsis(s.configure_init_service.action.init)]
}

impl ConfigureUpstreamInitService {
    /// The unit file that must be removed before planning: with launchd, the
    /// Determinate Nixd daemon's unit, which an earlier uninstall may have
    /// left behind. Removing it is the caller's part; a missing file is no
    /// error.
    pub fn stale_unit_to_remove(init: InitSystem) -> (r: Option<String>)
        ensures
            match r {
                Some(p) => init == InitSystem::Launchd && p@ == DARWIN_NIXD_DAEMON_DEST@,
                None => init != InitSystem::Launchd,
            },
    {
        match init {
            InitSystem::Launchd => Some(String::from_str(DARWIN_NIXD_DAEMON_DEST)),
            _ => None,
        }
    }

    /// Plans the upstream daemon's init service for `init`; neither this
    /// action nor the inner one has run.
    pub fn plan(init: InitSystem, start_daemon: bool) -> (r: StatefulAction<Self>)
        ensures
            r.state == ActionState::Uncompleted,
            r.action.configure_init_service.state == ActionState::Uncompleted,
            r.action.configure_init_service.action@ == upstream_init_service(init, start_daemon),
    {
        let service_src: Option<UnitSrc> = match init {
            InitSystem::Launchd => Some(UnitSrc::Path(String::from_str(DARWIN_NIX_DAEMON_SOURCE))),
            InitSystem::Systemd => Some(UnitSrc::Path(String::from_str(SERVICE_SRC))),
            InitSystem::NoInit => None,
        };
        let service_dest: Option<String> = match init {
            InitSystem::Launchd => Some(String::from_str(DARWIN_NIX_DAEMON_DEST)),
            InitSystem::Systemd => Some(String::from_str(SERVICE_DEST)),
            InitSystem::NoInit => None,
        };
        let service_name: Option<String> = match init {
            InitSystem::Launchd => Some(String::from_str(DARWIN_LAUNCHD_SERVICE_NAME)),
            _ => None,
        };
        let socket = SocketFile {
            name: String::from_str(SOCKET_NAME),
            src: UnitSrc::Path(String::from_str(SOCKET_SRC)),
            dest: String::from_str(SOCKET_DEST),
        };
        let sockets = vec![socket];
        let inner = ConfigureInitService::new(
            init,
            start_daemon,
            service_src,
            service_dest,
            service_name,
            sockets,
        );
        let r = StatefulAction::new(
            ConfigureUpstreamInitService { configure_init_service: StatefulAction::new(inner) },
        );
        assert(r.action.configure_init_service.action.socket_files@.map_values(|f: SocketFile| f@)
            =~= seq![upstream_socket()]);
        r
    }

    pub fn action_tag() -> (r: ActionTag)
        ensures
            r.0@ == ACTION_TAG@,
    {
        ActionTag(ACTION_TAG)
    }

    pub fn tracing_synopsis(&self) -> (r: String)
        ensures
            r@ == "Configure upstream Nix daemon service"@,
    {
        String::from_str("Configure upstream Nix daemon service")
    }

    pub fn execute_description(&self) -> (r: Vec<ActionDescription>)
        ensures
            description_texts(r@) == seq![("Configure upstream Nix daemon service"@, inner_explanation(*self))],
    {
        let explanation = vec![self.configure_init_service.action.tracing_synopsis()];
        let r = vec![ActionDescription::new(self.tracing_synopsis(), explanation)];
        assert(description_texts(r@) =~= seq![("Configure upstream Nix daemon service"@, inner_explanation(*self))]) by {
            assert(r@[0].text().1 =~= inner_explanation(*self));
        }
        r
    }

    pub fn revert_description(&self) -> (r: Vec<ActionDescription>)
        ensures
            description_texts(r@) == seq![("Remove upstream Nix daemon service"@, inner_explanation(*self))],
    {
        let explanation = vec![self.configure_init_service.action.tracing_synopsis()];
        let r = vec![ActionDescription::new(String::from_str("Remove upstream Nix daemon service"), explanation)];
        assert(description_texts(r@) =~= seq![("Remove upstream Nix daemon service"@, inner_explanation(*self))]) by {
            assert(r@[0].text().1 =~= inner_explanation(*self));
        }
        r
    }

    /// Starts executing: the inner action's work is to run unless it has
    /// already completed or was skipped.
    pub fn begin_execute(&mut self) -> (run: bool)
        ensures
            run == runs_execute(old(self).configure_init_service.state),
            final(self).configure_init_service.action == old(self).configure_init_service.action,
            final(self).configure_init_service.state == (if run {
                ActionState::Progress
            } else {
                old(self).configure_init_service.state
            }),
    {
        self.configure_init_service.begin_execute()
    }

    /// Records how the inner action's execution went.
    pub fn finish_execute(&mut self, succeeded: bool)
        requires
            old(self).configure_init_service.state == ActionState::Progress,
        ensures
            final(self).configure_init_service.action == old(self).configure_init_service.action,
            final(self).configure_init_service.state == state_after_execute(ActionState::Progress, succeeded),
    {
        self.configure_init_service.finish_execute(succeeded)
    }

    /// Starts reverting: the inner action's work is undone unless it is not
    /// done or was skipped.
    pub fn begin_revert(&mut self) -> (run: bool)
        ensures
            run == runs_revert(old(self).configure_init_service.state),
            final(self).configure_init_service.action == old(self).configure_init_service.action,
            final(self).configure_init_service.state == (if run {
                ActionState::Progress
            } else {
                old(self).configure_init_service.state
            }),
    {
        self.configure_init_service.begin_revert()
    }

    /// Records how undoing the inner action went.
    pub fn finish_revert(&mut self, succeeded: bool)
        requires
            old(self).configure_init_service.state == ActionState::Progress,
        ensures
            final(self).configure_init_service.action == old(self).configure_init_service.action,
            final(self).configure_init_service.state == state_after_revert(ActionState::Progress, succeeded),
    {
        self.configure_init_service.finish_revert(succeeded)
    }
}

/// Whether `s` ends with `t`.
pub open spec fn ends_with(s: Seq<char>, t: Seq<char>) -> bool {
    t.len() <= s.len() && s.subrange(s.len() - t.len(), s.len() as int) == t
}

/// Whether a unit is copied from a file ending with `file` to a
/// destination ending with `file`.
pub open spec fn copies_file_named(src: Option<UnitSrcView>, dest: Option<Seq<char>>, file: Seq<char>) -> bool {
    match (src, dest) {
        (Some(UnitSrcView::Path(s)), Some(d)) => ends_with(s, file) && ends_with(d, file),
        _ => false,
    }
}

/// The daemon's service unit is copied from the service unit of the Nix
/// profile and installed under the same file name: `nix-daemon.service`
/// under systemd, `org.nixos.nix-daemon.plist` under launchd; it is never
/// the socket unit. The socket unit keeps its own name from source to
/// destination.
pub proof fn lemma_service_unit_is_the_daemon_service(init: InitSystem, start_daemon: bool)
    ensures
        ({
            let plan = upstream_init_service(init, start_daemon);
            &&& init == InitSystem::Systemd ==> copies_file_named(
                plan.service_src,
                plan.service_dest,
                "/nix-daemon.service"@,
            )
            &&& init == InitSystem::Launchd ==> copies_file_named(
                plan.service_src,
                plan.service_dest,
                "/org.nixos.nix-daemon.plist"@,
            )
            &&& init == InitSystem::NoInit ==> plan.service_src is None && plan.service_dest is None
            &&& plan.service_src matches Some(UnitSrcView::Path(src)) ==> src != SOCKET_SRC@
            &&& plan.service_dest matches Some(dest) ==> dest != SOCKET_DEST@
            &&& plan.init == init && plan.start_daemon == start_daemon
            &&& plan.service_name is Some <==> init == InitSystem::Launchd
            &&& plan.socket_files.len() == 1
            &&& plan.socket_files[0].src matches UnitSrcView::Path(ssrc)
                && ends_with(ssrc, "/"@ + plan.socket_files[0].name)
            &&& ends_with(plan.socket_files[0].dest, "/"@ + plan.socket_files[0].name)
        }),
{
    reveal_strlit("/nix/var/nix/profiles/default/lib/systemd/system/nix-daemon.service");
    reveal_strlit("/etc/systemd/system/nix-daemon.service");
    reveal_strlit("/nix/var/nix/profiles/default/Library/LaunchDaemons/org.nixos.nix-daemon.plist");
    reveal_strlit("/Library/LaunchDaemons/org.nixos.nix-daemon.plist");
    reveal_strlit("nix-daemon.socket");
    reveal_strlit("/nix/var/nix/profiles/default/lib/systemd/system/nix-daemon.socket");
    reveal_strlit("/etc/systemd/system/nix-daemon.socket");
    reveal_strlit("/nix-daemon.service");
    reveal_strlit("/org.nixos.nix-daemon.plist");
    reveal_strlit("/");
    let plan = upstream_init_service(init, start_daemon);
    let sock = upstream_socket();
    assert(SOCKET_SRC@.subrange(SOCKET_SRC@.len() - 18, SOCKET_SRC@.len() as int) =~= "/"@ + sock.name);
    assert(SOCKET_DEST@.subrange(SOCKET_DEST@.len() - 18, SOCKET_DEST@.len() as int) =~= "/"@ + sock.name);
    if init == InitSystem::Systemd {
        assert(SERVICE_SRC@.subrange(SERVICE_SRC@.len() - 19, SERVICE_SRC@.len() as int) =~= "/nix-daemon.service"@);
        assert(SERVICE_DEST@.subrange(SERVICE_DEST@.len() - 19, SERVICE_DEST@.len() as int) =~= "/nix-daemon.service"@);
        assert(SERVICE_SRC@.len() != SOCKET_SRC@.len());
        assert(SERVICE_DEST@.len() != SOCKET_DEST@.len());
    }
    if init == InitSystem::Launchd {
        assert(DARWIN_NIX_DAEMON_SOURCE@.subrange(DARWIN_NIX_DAEMON_SOURCE@.len() - 27, DARWIN_NIX_DAEMON_SOURCE@.len() as int)
            =~= "/org.nixos.nix-daemon.plist"@);
        assert(DARWIN_NIX_DAEMON_DEST@.subrange(DARWIN_NIX_DAEMON_DEST@.len() - 27, DARWIN_NIX_DAEMON_DEST@.len() as int)
            =~= "/org.nixos.nix-daemon.plist"@);
        assert(DARWIN_NIX_DAEMON_SOURCE@.len() != SOCKET_SRC@.len());
        assert(DARWIN_NIX_DAEMON_DEST@.len() != SOCKET_DEST@.len());
    }
}

} // verus!
