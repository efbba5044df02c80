use vstd::prelude::*;

verus! {

/// The init system that runs the Nix daemon.
#[derive(Copy, Clone, Debug, PartialEq, Eq, Structural)]
pub enum InitSystem {
    /// No init system: the daemon is left for the user to start.
    NoInit,
    Systemd,
    Launchd,
}

/// Where the text of a unit file comes from: a file, or the text itself.
pub enum UnitSrc {
    Path(String),
    Literal(String),
}

pub enum UnitSrcView {
    Path(Seq<char>),
    Literal(Seq<char>),
}

impl View for UnitSrc {
    type V = UnitSrcView;

    open spec fn view(&self) -> UnitSrcView {
        match self {
            UnitSrc::Path(p) => UnitSrcView::Path(p@),
            UnitSrc::Literal(t) => UnitSrcView::Literal(t@),
        }
    }
}

/// A socket unit to install beside the service.
pub struct SocketFile {
    pub name: String,
    pub src: UnitSrc,
    pub dest: String,
}

pub struct SocketFileView {
    pub name: Seq<char>,
    pub src: UnitSrcView,
    pub dest: Seq<char>,
}

impl View for SocketFile {
    type V = SocketFileView;

    open spec fn view(&self) -> SocketFileView {
        SocketFileView { name: self.name@, src: self.src@, dest: self.dest@ }
    }
}

/// The configuration that the init system is given for the Nix daemon.
pub struct ConfigureInitService {
    pub init: InitSystem,
    pub start_daemon: bool,
    pub service_src: Option<UnitSrc>,
    pub service_dest: Option<String>,
    pub service_name: Option<String>,
    pub socket_files: Vec<SocketFile>,
}

pub struct ConfigureInitServiceView {
    pub init: InitSystem,
    pub start_daemon: bool,
    pub service_src: Option<UnitSrcView>,
    pub service_dest: Option<Seq<char>>,
    pub service_name: Option<Seq<char>>,
    pub socket_files: Seq<SocketFileView>,
}

pub open spec fn opt_string_view(o: Option<String>) -> Option<Seq<char>> {
    match o {
        Some(s) => Some(s@),
        None => None,
    }
}

pub open spec fn opt_unit_src_view(o: Option<UnitSrc>) -> Option<UnitSrcView> {
    match o {
        Some(u) => Some(u@),
        None => None,
    }
}

impl View for ConfigureInitService {
    type V = ConfigureInitServiceView;

    open spec fn view(&self) -> ConfigureInitServiceView {
        ConfigureInitServiceView {
            init: self.init,
            start_daemon: self.start_daemon,
            service_src: opt_unit_src_view(self.service_src),
            service_dest: opt_string_view(self.service_dest),
            service_name: opt_string_view(self.service_name),
            socket_files: self.socket_files@.map_values(|f: SocketFile| f@),
        }
    }
}

impl ConfigureInitService {
    /// The configuration made of the given parts.
    pub fn new(
        init: InitSystem,
        start_daemon: bool,
        service_src: Option<UnitSrc>,
        service_dest: Option<String>,
        service_name: Option<String>,
        socket_files: Vec<SocketFile>,
    ) -> (r: Self)
        ensures
            r.init == init,
            r.start_daemon == start_daemon,
            r.service_src == service_src,
            r.service_dest == service_dest,
            r.service_name == service_name,
            r.socket_files == socket_files,
    {
        ConfigureInitService { init, start_daemon, service_src, service_dest, service_name, socket_files }
    }

    /// The one-line summary of what configuring `init` does.
    pub open spec fn synopsis(init: InitSystem) -> Seq<char> {
        match init {
            InitSystem::Systemd => "Configure Nix daemon related settings with systemd"@,
            InitSystem::Launchd => "Configure Nix daemon related settings with launchctl"@,
            InitSystem::NoInit => "Leave the Nix daemon unconfigured"@,
        }
    }

    pub fn tracing_synopsis(&self) -> (r: String)
        ensures
            r@ == Self::synopsis(self.init),
    {
        match self.init {
            InitSystem::Systemd => String::from_str("Configure Nix daemon related settings with systemd"),
            InitSystem::Launchd => String::from_str("Configure Nix daemon related settings with launchctl"),
            InitSystem::NoInit => String::from_str("Leave the Nix daemon unconfigured"),
        }
    }
}

} // verus!
