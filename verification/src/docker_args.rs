use vstd::prelude::*;
use crate::shell::{shell_split, shell_split_words};

verus! {

/// Everything a `docker run` invocation is built from.
pub struct DockerRunConfig {
    pub name: String,
    pub project_dir: String,
    pub image: String,
    pub mount_path: String,
    pub cmd: Vec<String>,
    pub env: Vec<String>,
    pub home: String,
    pub docker_args: Option<String>,
    pub ssh: bool,
    pub detach: bool,
}

/// The socket paths used to forward the SSH agent into the container.
pub struct SshAgentPaths {
    /// The socket on the host side.
    pub host: String,
    /// Where the socket is mounted inside the container.
    pub container: String,
}

/// A failure while building the argument list.
#[derive(Clone, Copy, PartialEq, Eq, Structural, Debug)]
pub enum ArgsError {
    /// SSH forwarding was requested but no agent socket is available.
    SshAgentUnavailable,
    /// The extra docker arguments could not be parsed as shell words.
    DockerArgsParse,
}

impl ArgsError {
    /// A human-readable description of the failure.
    pub fn message(&self) -> (r: String)
        ensures
            self is SshAgentUnavailable ==> r@
                == "SSH_AUTH_SOCK is not set. Cannot forward SSH agent on Linux."@,
            self is DockerArgsParse ==> r@ == "Failed to parse docker args: missing closing quote"@,
    {
        match self {
            ArgsError::SshAgentUnavailable => String::from_str(
                "SSH_AUTH_SOCK is not set. Cannot forward SSH agent on Linux.",
            ),
            ArgsError::DockerArgsParse => String::from_str(
                "Failed to parse docker args: missing closing quote",
            ),
        }
    }
}

/// The host directory mounted as the session's workspace.
pub open spec fn workspace_dir(home: Seq<char>, name: Seq<char>) -> Seq<char> {
    home + "/.box/workspaces/"@ + name
}

/// `-e <entry>` flag pairs for each environment entry, in order.
pub open spec fn env_flags(env: Seq<Seq<char>>) -> Seq<Seq<char>>
    decreases env.len(),
{
    if env.len() == 0 {
        Seq::empty()
    } else {
        env_flags(env.drop_last()) + seq!["-e"@, env.last()]
    }
}

/// The words parsed from the extra docker arguments: empty when absent or
/// blank.
pub open spec fn docker_words(args: Option<String>) -> Seq<Seq<char>> {
    match args {
        Some(d) => if d@.len() > 0 {
            shell_split_words(d@)->Some_0
        } else {
            Seq::empty()
        },
        None => Seq::empty(),
    }
}

/// The full `docker run` argument list: the run mode, container name and
/// hostname derived from the session name, the workspace volume and working
/// directory, an optional read-only gitconfig mount, optional SSH agent
/// forwarding, the extra docker arguments, the environment flags, the image,
/// and finally the command.
pub open spec fn run_args_spec(
    cfg: DockerRunConfig,
    gitconfig_exists: bool,
    ssh: Option<SshAgentPaths>,
) -> Seq<Seq<char>> {
    let container = "box-"@ + cfg.name@;
    let base = seq![
        "run"@,
        if cfg.detach {
            "-d"@
        } else {
            "-it"@
        },
        "--name"@,
        container,
        "--hostname"@,
        container,
        "-v"@,
        workspace_dir(cfg.home@, cfg.name@) + ":"@ + cfg.mount_path@,
        "-w"@,
        cfg.mount_path@,
    ];
    let with_git = if gitconfig_exists {
        base + seq!["-v"@, cfg.home@ + "/.gitconfig:/etc/gitconfig:ro"@]
    } else {
        base
    };
    let with_ssh = if cfg.ssh {
        with_git + seq![
            "-v"@,
            ssh->Some_0.host@ + ":"@ + ssh->Some_0.container@,
            "-e"@,
            "SSH_AUTH_SOCK="@ + ssh->Some_0.container@,
        ]
    } else {
        with_git
    };
    with_ssh + docker_words(cfg.docker_args) + env_flags(cfg.env.deep_view()) + seq![cfg.image@]
        + cfg.cmd.deep_view()
}

fn push_str_words(args: &mut Vec<String>, a: &str, b: String)
    ensures
        final(args)@.len() == old(args)@.len() + 2,
        final(args).deep_view() =~= old(args).deep_view() + seq![a@, b@],
{
    let ghost before = args.deep_view();
    args.push(a.to_owned());
    args.push(b);
    proof {
        assert(args.deep_view() =~= before + seq![a@, b@]);
    }
}

/// Build the `docker run` argument list without executing it.
///
/// The caller supplies what only the environment knows: whether the home
/// gitconfig file exists, and the SSH agent socket paths when any were
/// found. SSH forwarding without an agent socket, and extra docker
/// arguments with an unmatched quote, are the two failures.
#[verifier::rlimit(80)]
pub fn build_run_args(
    cfg: &DockerRunConfig,
    gitconfig_exists: bool,
    ssh_paths: Option<&SshAgentPaths>,
) -> (r: Result<Vec<String>, ArgsError>)
    ensures
        cfg.ssh && ssh_paths is None ==> (r matches Err(e) && e is SshAgentUnavailable),
        !(cfg.ssh && ssh_paths is None) && (cfg.docker_args matches Some(d) && d@.len() > 0
            && shell_split_words(d@) is None) ==> (r matches Err(e) && e is DockerArgsParse),
        (r is Ok) == (!(cfg.ssh && ssh_paths is None) && !(cfg.docker_args matches Some(d)
            && d@.len() > 0 && shell_split_words(d@) is None)),
        r matches Ok(v) ==> v.deep_view() == run_args_spec(
            *cfg,
            gitconfig_exists,
            match ssh_paths {
                Some(p) => Some(*p),
                None => None,
            },
        ),
{
    if cfg.ssh && ssh_paths.is_none() {
        return Err(ArgsError::SshAgentUnavailable);
    }
    let mut args: Vec<String> = Vec::new();
    args.push(String::from_str("run"));
    if cfg.detach {
        args.push(String::from_str("-d"));
    } else {
        args.push(String::from_str("-it"));
    }
    let mut container = String::from_str("box-");
    container.append(cfg.name.as_str());
    push_str_words(&mut args, "--name", container.clone());
    push_str_words(&mut args, "--hostname", container);
    let mut ws_mount = cfg.home.clone();
    ws_mount.append("/.box/workspaces/");
    ws_mount.append(cfg.name.as_str());
    ws_mount.append(":");
    ws_mount.append(cfg.mount_path.as_str());
    push_str_words(&mut args, "-v", ws_mount);
    push_str_words(&mut args, "-w", cfg.mount_path.clone());
    proof {
        assert(args.deep_view() =~~= {
            let container = "box-"@ + cfg.name@;
            seq![
                "run"@,
                if cfg.detach {
                    "-d"@
                } else {
                    "-it"@
                },
                "--name"@,
                container,
                "--hostname"@,
                container,
                "-v"@,
                workspace_dir(cfg.home@, cfg.name@) + ":"@ + cfg.mount_path@,
                "-w"@,
                cfg.mount_path@,
            ]
        });
    }
    if gitconfig_exists {
        let mut gc = cfg.home.clone();
        gc.append("/.gitconfig:/etc/gitconfig:ro");
        push_str_words(&mut args, "-v", gc);
    }
    let ghost with_git = args.deep_view();
    if cfg.ssh {
        let paths = ssh_paths.unwrap();
        let mut vol = paths.host.clone();
        vol.append(":");
        vol.append(paths.container.as_str());
        push_str_words(&mut args, "-v", vol);
        let mut sock = String::from_str("SSH_AUTH_SOCK=");
        sock.append(paths.container.as_str());
        push_str_words(&mut args, "-e", sock);
    }
    let ghost with_ssh = args.deep_view();
    match &cfg.docker_args {
        Some(extra) => {
            if extra.as_str().unicode_len() > 0 {
                match shell_split(extra.as_str()) {
                    Some(mut extra_args) => {
                        let ghost words = extra_args.deep_view();
                        args.append(&mut extra_args);
                        proof {
                            assert(args.deep_view() =~= with_ssh + words);
                        }
                    },
                    None => {
                        return Err(ArgsError::DockerArgsParse);
                    },
                }
            }
        },
        None => {},
    }
    let ghost with_extra = args.deep_view();
    proof {
        assert(with_extra =~= with_ssh + docker_words(cfg.docker_args));
    }
    let n_env = cfg.env.len();
    let mut i: usize = 0;
    while i < n_env
        invariant
            n_env == cfg.env@.len(),
            i <= n_env,
            args.deep_view() =~= with_extra + env_flags(cfg.env.deep_view().take(i as int)),
        decreases n_env - i,
    {
        push_str_words(&mut args, "-e", cfg.env[i].clone());
        proof {
            let dv = cfg.env.deep_view();
            assert(dv.take(i as int + 1).drop_last() =~= dv.take(i as int));
            assert(dv.take(i as int + 1).last() == dv[i as int]);
            assert(dv[i as int] == cfg.env@[i as int]@);
            assert(with_extra + env_flags(dv.take(i as int)) + seq!["-e"@, dv[i as int]] =~= with_extra
                + env_flags(dv.take(i as int + 1)));
        }
        i = i + 1;
    }
    proof {
        assert(cfg.env.deep_view().take(n_env as int) =~= cfg.env.deep_view());
    }
    args.push(cfg.image.clone());
    let ghost with_image = args.deep_view();
    proof {
        assert(with_image =~= with_extra + env_flags(cfg.env.deep_view()) + seq![cfg.image@]);
    }
    let n_cmd = cfg.cmd.len();
    let mut j: usize = 0;
    while j < n_cmd
        invariant
            n_cmd == cfg.cmd@.len(),
            j <= n_cmd,
            args.deep_view() =~= with_image + cfg.cmd.deep_view().take(j as int),
        decreases n_cmd - j,
    {
        let ghost before = args.deep_view();
        args.push(cfg.cmd[j].clone());
        proof {
            let dv = cfg.cmd.deep_view();
            assert(args.deep_view() =~= before.push(cfg.cmd@[j as int]@));
            assert(dv.take(j as int + 1) =~= dv.take(j as int).push(dv[j as int]));
            assert(dv[j as int] == cfg.cmd@[j as int]@);
        }
        j = j + 1;
    }
    proof {
        assert(cfg.cmd.deep_view().take(n_cmd as int) =~= cfg.cmd.deep_view());
        assert(args.deep_view() =~~= run_args_spec(
            *cfg,
            gitconfig_exists,
            match ssh_paths {
                Some(p) => Some(*p),
                None => None,
            },
        ));
    }
    Ok(args)
}

} // verus!
