use vstd::prelude::*;
use crate::paths::spec_mount_path;
use crate::paths::derive_mount_path;
use crate::shell::{shell_split, shell_split_words};

verus! {

/// The image used when neither the caller nor the environment names one.
pub fn default_image() -> (r: &'static str)
    ensures
        r@ == "alpine:latest"@,
{
    "alpine:latest"
}

/// A fully resolved session configuration.
#[derive(Debug, Clone, PartialEq)]
pub struct BoxConfig {
    pub name: String,
    pub project_dir: String,
    pub image: String,
    pub mount_path: String,
    pub command: Vec<String>,
    pub env: Vec<String>,
    pub ssh: bool,
}

/// The caller-supplied inputs a configuration is resolved from; `None`
/// fields fall back to derived or environment-supplied defaults.
pub struct BoxConfigInput {
    pub name: String,
    pub image: Option<String>,
    pub mount_path: Option<String>,
    pub project_dir: String,
    pub command: Option<Vec<String>>,
    pub env: Vec<String>,
    pub ssh: bool,
}

/// A configuration failure.
#[derive(Clone, Copy, PartialEq, Eq, Structural, Debug)]
pub enum ConfigError {
    /// The default command from the environment could not be parsed as
    /// shell words.
    DefaultCmdParse,
}

impl ConfigError {
    /// A human-readable description of the failure.
    pub fn message(&self) -> (r: String)
        ensures
            r@ == "Failed to parse BOX_DEFAULT_CMD: missing closing quote"@,
    {
        String::from_str("Failed to parse BOX_DEFAULT_CMD: missing closing quote")
    }
}

/// Resolve a configuration from caller inputs and the two environment
/// defaults (the values of `BOX_DEFAULT_IMAGE` and `BOX_DEFAULT_CMD`, where
/// set). The mount path defaults to one derived from the project directory;
/// the image falls back to the environment and then to `alpine:latest`; an
/// absent command falls back to the environment default split into shell
/// words, which is the one step that can fail.
pub fn resolve(
    input: BoxConfigInput,
    default_image_env: Option<String>,
    default_cmd_env: Option<String>,
) -> (r: Result<BoxConfig, ConfigError>)
    ensures
        (r is Err) == (input.command is None && (default_cmd_env matches Some(s) && s@.len() > 0
            && shell_split_words(s@) is None)),
        r matches Err(e) ==> e is DefaultCmdParse,
        r matches Ok(cfg) ==> {
            &&& cfg.name == input.name
            &&& cfg.project_dir == input.project_dir
            &&& cfg.image@ == (match input.image {
                Some(img) => img@,
                None => match default_image_env {
                    Some(env_img) => env_img@,
                    None => "alpine:latest"@,
                },
            })
            &&& cfg.mount_path@ == (match input.mount_path {
                Some(m) => m@,
                None => spec_mount_path(input.project_dir@),
            })
            &&& cfg.command.deep_view() == (match input.command {
                Some(cmd) => cmd.deep_view(),
                None => match default_cmd_env {
                    Some(s) => if s@.len() > 0 {
                        shell_split_words(s@)->Some_0
                    } else {
                        Seq::<Seq<char>>::empty()
                    },
                    None => Seq::<Seq<char>>::empty(),
                },
            })
            &&& cfg.env == input.env
            &&& cfg.ssh == input.ssh
        },
{
    let mount_path = match input.mount_path {
        Some(m) => m,
        None => derive_mount_path(input.project_dir.as_str()),
    };
    let image = match input.image {
        Some(img) => img,
        None => match default_image_env {
            Some(env_img) => env_img,
            None => String::from_str(default_image()),
        },
    };
    let command: Vec<String> = match input.command {
        Some(cmd) => cmd,
        None => match default_cmd_env {
            Some(s) => {
                if s.as_str().unicode_len() > 0 {
                    match shell_split(s.as_str()) {
                        Some(words) => words,
                        None => {
                            return Err(ConfigError::DefaultCmdParse);
                        },
                    }
                } else {
                    Vec::new()
                }
            },
            None => Vec::new(),
        },
    };
    proof {
        if command@.len() == 0 {
            assert(command.deep_view() =~= Seq::<Seq<char>>::empty());
        }
    }
    Ok(
        BoxConfig {
            name: input.name,
            project_dir: input.project_dir,
            image,
            mount_path,
            command,
            env: input.env,
            ssh: input.ssh,
        },
    )
}

} // verus!
