use vstd::prelude::*;
use vstd::string::StringExecFns;

use crate::error::VsmRuntimeFault;

verus! {

/// Values read from the environment.
#[derive(Debug, Clone)]
pub struct Variables {
    /// The user's home directory (`$HOME`).
    pub home: String,
    /// The session directory (`$VIM_SESSIONS`).
    pub vim_sessions: String,
}

/// `home` followed by `suffix`, or `fallback` when there is no home.
pub open spec fn under_home(home: Option<Seq<char>>, suffix: Seq<char>, fallback: Seq<char>) -> Seq<
    char,
> {
    match home {
        Some(h) => h + suffix,
        None => fallback,
    }
}

/// The characters of an optional string.
pub open spec fn opt_chars(o: Option<String>) -> Option<Seq<char>> {
    match o {
        Some(s) => Some(s@),
        None => None,
    }
}

/// Appends `suffix` to a copy of `base`.
fn joined(base: &String, suffix: &str) -> (r: String)
    ensures
        r@ == base@ + suffix@,
{
    let mut s = base.clone();
    s.append(suffix);
    s
}

impl Variables {
    /// Builds the variables from their values.
    pub fn new(home: String, vim_sessions: String) -> (r: Self)
        ensures
            r.home@ == home@,
            r.vim_sessions@ == vim_sessions@,
    {
        Variables { home, vim_sessions }
    }

    /// The defaults derived from the home directory: the session directory is
    /// `.config/vim_sessions` beneath it. Without a home directory `~/` stands
    /// in for it.
    pub fn from_home(home: Option<String>) -> (r: Self)
        ensures
            r.home@ == under_home(opt_chars(home), Seq::empty(), "~/"@),
            r.vim_sessions@ == under_home(
                opt_chars(home),
                "/.config/vim_sessions"@,
                "~/.config/vim_sessions"@,
            ),
    {
        match home {
            Some(h) => {
                let vim_sessions = joined(&h, "/.config/vim_sessions");
                assert(h@ + Seq::<char>::empty() =~= h@);
                Variables { home: h, vim_sessions }
            },
            None => Variables {
                home: "~/".to_owned(),
                vim_sessions: "~/.config/vim_sessions".to_owned(),
            },
        }
    }

    /// The user's home directory.
    pub fn home(&self) -> (r: &String)
        ensures
            r@ == self.home@,
    {
        &self.home
    }

    /// The session directory.
    pub fn vim_sessions(&self) -> (r: &String)
        ensures
            r@ == self.vim_sessions@,
    {
        &self.vim_sessions
    }
}

/// Locations of the settings directory and file.
#[derive(Debug, Clone)]
pub struct Paths {
    /// Directory that holds the settings file.
    pub vsm_config_dir: String,
    /// The settings file, including its name.
    pub vsm_config_file: String,
}

impl Paths {
    /// The settings directory is `.config/vsm` beneath the home directory
    /// (or `~/` without one); the file is `config.toml` inside it.
    pub fn from_home(home: Option<String>) -> (r: Self)
        ensures
            r.vsm_config_dir@ == under_home(opt_chars(home), Seq::empty(), "~/"@)
                + "/.config/vsm"@,
            r.vsm_config_file@ == r.vsm_config_dir@ + "/config.toml"@,
    {
        let vars = Variables::from_home(home);
        let vsm_config_dir = joined(&vars.home, "/.config/vsm");
        let vsm_config_file = joined(&vsm_config_dir, "/config.toml");
        Paths { vsm_config_dir, vsm_config_file }
    }

    /// The settings directory.
    pub fn vsm_config_dir(&self) -> (r: &String)
        ensures
            r@ == self.vsm_config_dir@,
    {
        &self.vsm_config_dir
    }

    /// The settings file.
    pub fn vsm_config_file(&self) -> (r: &String)
        ensures
            r@ == self.vsm_config_file@,
    {
        &self.vsm_config_file
    }
}

/// The resolved configuration: environment values and settings locations.
#[derive(Debug, Clone)]
pub struct Environment {
    /// Values read from the environment.
    pub var: Variables,
    /// Settings locations.
    pub path: Paths,
}

impl Environment {
    /// Builds the configuration from `$HOME` and `$VIM_SESSIONS`; both must be
    /// defined, else the fault names the missing session directory variable.
    pub fn new(home: Option<String>, vim_sessions: Option<String>) -> (r: Result<
        Self,
        VsmRuntimeFault,
    >)
        ensures
            r is Ok <==> (home is Some && vim_sessions is Some),
            r matches Ok(env) ==> opt_chars(home) == Some(env.var.home@) && opt_chars(vim_sessions)
                == Some(env.var.vim_sessions@) && env.path.vsm_config_dir@ == env.var.home@
                + "/.config/vsm"@ && env.path.vsm_config_file@ == env.path.vsm_config_dir@
                + "/config.toml"@,
            r matches Err(e) ==> e is EnvironmentVariable && e.spec_msg()
                == "VIM_SESSIONS is not defined"@,
    {
        match (home, vim_sessions) {
            (Some(h), Some(s)) => {
                let path = Paths::from_home(Some(h.clone()));
                proof {
                    assert(h@ + Seq::<char>::empty() =~= h@);
                }
                Ok(Environment { var: Variables::new(h, s), path })
            },
            _ => Err(
                VsmRuntimeFault::EnvironmentVariable {
                    msg: "VIM_SESSIONS is not defined".to_owned(),
                },
            ),
        }
    }

    /// The defaults derived from the home directory alone.
    pub fn from_home(home: Option<String>) -> (r: Self)
        ensures
            r.var.home@ == under_home(opt_chars(home), Seq::empty(), "~/"@),
            r.var.vim_sessions@ == under_home(
                opt_chars(home),
                "/.config/vim_sessions"@,
                "~/.config/vim_sessions"@,
            ),
            r.path.vsm_config_dir@ == r.var.home@ + "/.config/vsm"@,
            r.path.vsm_config_file@ == r.path.vsm_config_dir@ + "/config.toml"@,
    {
        Environment { var: Variables::from_home(home.clone()), path: Paths::from_home(home) }
    }

    /// Values read from the environment.
    pub fn var(&self) -> (r: &Variables)
        ensures
            r.home@ == self.var.home@,
            r.vim_sessions@ == self.var.vim_sessions@,
    {
        &self.var
    }

    /// Settings locations.
    pub fn path(&self) -> (r: &Paths)
        ensures
            r.vsm_config_dir@ == self.path.vsm_config_dir@,
            r.vsm_config_file@ == self.path.vsm_config_file@,
    {
        &self.path
    }
}

} // verus!
