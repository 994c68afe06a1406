//! The resolved data model: global options derived from the command line, the
//! fully resolved configuration, a container snapshot, and the host identity.

use vstd::prelude::*;

verus! {

/// Flags and environment assignments taken once from the command line and
/// immutable for the rest of the invocation.
#[derive(Debug, Clone)]
pub struct GlobalOptions {
    pub interactive: bool,
    pub persist_image: bool,
    pub keep_container: bool,
    pub run_as_root: bool,
    pub dry_run: bool,
    pub skip_ports: bool,
    pub skip_name: bool,
    pub cli_env_variables: Vec<String>,
}

/// Spec-level shape of [`GlobalOptions`].
pub struct OptionsModel {
    pub interactive: bool,
    pub persist_image: bool,
    pub keep_container: bool,
    pub run_as_root: bool,
    pub dry_run: bool,
    pub skip_ports: bool,
    pub skip_name: bool,
    pub cli_env_variables: Seq<Seq<char>>,
}

impl View for GlobalOptions {
    type V = OptionsModel;

    open spec fn view(&self) -> OptionsModel {
        OptionsModel {
            interactive: self.interactive,
            persist_image: self.persist_image,
            keep_container: self.keep_container,
            run_as_root: self.run_as_root,
            dry_run: self.dry_run,
            skip_ports: self.skip_ports,
            skip_name: self.skip_name,
            cli_env_variables: self.cli_env_variables.deep_view(),
        }
    }
}

impl GlobalOptions {
    /// The model of options with every toggle off.
    pub open spec fn all_off_model() -> OptionsModel {
        OptionsModel {
            interactive: false,
            persist_image: false,
            keep_container: false,
            run_as_root: false,
            dry_run: false,
            skip_ports: false,
            skip_name: false,
            cli_env_variables: Seq::<Seq<char>>::empty(),
        }
    }

    /// Options with every toggle off and no environment assignments.
    pub fn all_off() -> (r: GlobalOptions)
        ensures
            r@ == GlobalOptions::all_off_model(),
    {
        let r = GlobalOptions {
            interactive: false,
            persist_image: false,
            keep_container: false,
            run_as_root: false,
            dry_run: false,
            skip_ports: false,
            skip_name: false,
            cli_env_variables: Vec::new(),
        };
        proof {
            assert(r@.cli_env_variables =~= Seq::<Seq<char>>::empty());
        }
        r
    }
}

/// The configuration resolved for one invocation. `image` and `dockerfile`
/// are always present; every string field is environment-expanded.
#[derive(Debug, Clone)]
pub struct Configuration {
    pub image: String,
    pub name: Option<String>,
    pub dockerfile: String,
    pub root_path: String,
    pub workdir_path: String,
    pub flags: Vec<String>,
    pub env_variables: Vec<String>,
    pub build_args: Vec<String>,
    pub extra_mounts: Vec<String>,
    pub ports: Vec<String>,
    pub default_shell: Option<String>,
}

/// Spec-level shape of a [`Configuration`].
pub struct ConfigModel {
    pub image: Seq<char>,
    pub name: Option<Seq<char>>,
    pub dockerfile: Seq<char>,
    pub root_path: Seq<char>,
    pub workdir_path: Seq<char>,
    pub flags: Seq<Seq<char>>,
    pub env_variables: Seq<Seq<char>>,
    pub build_args: Seq<Seq<char>>,
    pub extra_mounts: Seq<Seq<char>>,
    pub ports: Seq<Seq<char>>,
    pub default_shell: Option<Seq<char>>,
}

impl View for Configuration {
    type V = ConfigModel;

    open spec fn view(&self) -> ConfigModel {
        ConfigModel {
            image: self.image@,
            name: match self.name {
                Option::Some(n) => Option::Some(n@),
                Option::None => Option::None,
            },
            dockerfile: self.dockerfile@,
            root_path: self.root_path@,
            workdir_path: self.workdir_path@,
            flags: self.flags.deep_view(),
            env_variables: self.env_variables.deep_view(),
            build_args: self.build_args.deep_view(),
            extra_mounts: self.extra_mounts.deep_view(),
            ports: self.ports.deep_view(),
            default_shell: match self.default_shell {
                Option::Some(s) => Option::Some(s@),
                Option::None => Option::None,
            },
        }
    }
}

/// A transient snapshot of one container, re-queried on demand and never
/// cached, because container state can change externally between checks.
#[derive(Debug, Clone)]
pub struct ContainerInfo {
    pub name: String,
    pub status: String,
    pub running: bool,
    pub image: String,
    pub created: String,
    pub ports: String,
}

/// Spec-level shape of a [`ContainerInfo`].
pub struct InfoModel {
    pub name: Seq<char>,
    pub status: Seq<char>,
    pub running: bool,
    pub image: Seq<char>,
    pub created: Seq<char>,
    pub ports: Seq<char>,
}

impl View for ContainerInfo {
    type V = InfoModel;

    open spec fn view(&self) -> InfoModel {
        InfoModel {
            name: self.name@,
            status: self.status@,
            running: self.running,
            image: self.image@,
            created: self.created@,
            ports: self.ports@,
        }
    }
}

/// The host identity injected as build arguments so that an image can create
/// a matching in-container user.
#[derive(Debug, Clone)]
pub struct Identity {
    pub uid: u32,
    pub gid: u32,
    pub username: String,
}

/// Spec-level shape of an [`Identity`].
pub struct IdentityModel {
    pub uid: u32,
    pub gid: u32,
    pub username: Seq<char>,
}

impl View for Identity {
    type V = IdentityModel;

    open spec fn view(&self) -> IdentityModel {
        IdentityModel { uid: self.uid, gid: self.gid, username: self.username@ }
    }
}

} // verus!
