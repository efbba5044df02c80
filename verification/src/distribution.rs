use vstd::prelude::*;

verus! {

/// The address of the Nix tarball that this build installs by default.
pub const NIX_TARBALL_URL: &'static str =
    "https://releases.nixos.org/nix/nix-2.24.10/nix-2.24.10-x86_64-linux.tar.xz";

/// The name of the Determinate Nix tarball embedded in this build, if any.
/// This build embeds none.
pub const DETERMINATE_NIX_TARBALL_PATH: Option<&'static str> = None;

/// The bytes of the Determinate Nix tarball embedded in this build, if any.
pub const DETERMINATE_NIX_TARBALL: Option<&'static [u8]> = None;

/// The bytes of the Determinate Nixd binary embedded in this build, if any.
pub const DETERMINATE_NIXD_BINARY: Option<&'static [u8]> = None;

/// Where a tarball or other resource can be fetched from.
pub enum UrlOrPath {
    Url(String),
    Path(String),
}

impl UrlOrPath {
    /// A copy of this location.
    pub fn duplicate(&self) -> (r: Self)
        ensures
            r == *self,
    {
        match self {
            UrlOrPath::Url(u) => UrlOrPath::Url(u.clone()),
            UrlOrPath::Path(p) => UrlOrPath::Path(p.clone()),
        }
    }
}

#[derive(Copy, Clone, Debug, PartialEq, Eq, Structural)]
pub enum Distribution {
    Nix,
    DeterminateNix,
}

pub enum TarballLocation {
    UrlOrPath(UrlOrPath),
    InMemory(&'static str, &'static [u8]),
}

/// Whether this build embeds the Determinate Nix tarball (its name and bytes).
pub open spec fn embeds_determinate_nix() -> bool {
    DETERMINATE_NIX_TARBALL_PATH is Some && DETERMINATE_NIX_TARBALL is Some
}

impl Distribution {
    /// Whether `loc` is the location this build has for the distribution
    /// itself: the default Nix URL, or the embedded Determinate Nix tarball.
    pub open spec fn is_builtin_location(self, loc: TarballLocation) -> bool {
        match self {
            Distribution::Nix => loc matches TarballLocation::UrlOrPath(UrlOrPath::Url(u))
                && u@ == NIX_TARBALL_URL@,
            Distribution::DeterminateNix => loc == TarballLocation::InMemory(
                DETERMINATE_NIX_TARBALL_PATH.unwrap(),
                DETERMINATE_NIX_TARBALL.unwrap(),
            ),
        }
    }

    /// The location the user asked for, or else the distribution's own.
    pub fn tarball_location_or(&self, user_preference: &Option<UrlOrPath>) -> (r: TarballLocation)
        requires
            user_preference is None && *self == Distribution::DeterminateNix
                ==> embeds_determinate_nix(),
        ensures
            match user_preference {
                Some(pref) => r == TarballLocation::UrlOrPath(*pref),
                None => self.is_builtin_location(r),
            },
    {
        if let Some(pref) = user_preference {
            return TarballLocation::UrlOrPath(pref.duplicate());
        }
        self.tarball_location()
    }

    /// The location this build has for the distribution: the default Nix
    /// URL for Nix, the embedded tarball for Determinate Nix. A build that
    /// embeds no Determinate Nix tarball cannot give one for it.
    pub fn tarball_location(&self) -> (r: TarballLocation)
        requires
            *self == Distribution::DeterminateNix ==> embeds_determinate_nix(),
        ensures
            self.is_builtin_location(r),
    {
        match self {
            Distribution::Nix => TarballLocation::UrlOrPath(
                UrlOrPath::Url(String::from_str(NIX_TARBALL_URL)),
            ),
            Distribution::DeterminateNix => TarballLocation::InMemory(
                DETERMINATE_NIX_TARBALL_PATH.unwrap(),
                DETERMINATE_NIX_TARBALL.unwrap(),
            ),
        }
    }
}

} // verus!
