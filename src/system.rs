use vstd::prelude::*;
use vstd::string::StringExecFns;

verus! {

/// The locations on disk that the session manager works with.
#[derive(Debug, Clone)]
pub struct FilesystemManager {
    /// Directory that holds the settings file.
    pub config_dir: String,
    /// The settings file.
    pub config_file: String,
    /// Directory that holds the session files.
    pub vim_session_dir: String,
}

impl FilesystemManager {
    /// Builds the manager from the three locations.
    pub fn new(config_dir: &str, config_file: &str, vim_session_dir: &str) -> (r: Self)
        ensures
            r.config_dir@ == config_dir@,
            r.config_file@ == config_file@,
            r.vim_session_dir@ == vim_session_dir@,
    {
        FilesystemManager {
            config_dir: config_dir.to_owned(),
            config_file: config_file.to_owned(),
            vim_session_dir: vim_session_dir.to_owned(),
        }
    }

    /// Directory that holds the settings file.
    pub fn config_dir(&self) -> (r: &String)
        ensures
            r@ == self.config_dir@,
    {
        &self.config_dir
    }

    /// The settings file.
    pub fn config_file(&self) -> (r: &String)
        ensures
            r@ == self.config_file@,
    {
        &self.config_file
    }

    /// Directory that holds the session files.
    pub fn vim_session_dir(&self) -> (r: &String)
        ensures
            r@ == self.vim_session_dir@,
    {
        &self.vim_session_dir
    }
}

/// The user's shell, through which installed programs are looked up.
#[derive(Debug, Clone)]
pub struct CommandExecutor {
    /// Path of the shell.
    pub user_shell: String,
}

impl CommandExecutor {
    /// Uses the shell named by `$SHELL`, or `/bin/sh` when it is not set.
    pub fn new(shell: Option<String>) -> (r: Self)
        ensures
            shell matches Some(s) ==> r.user_shell@ == s@,
            shell is None ==> r.user_shell@ == "/bin/sh"@,
    {
        match shell {
            Some(user_shell) => CommandExecutor { user_shell },
            None => CommandExecutor { user_shell: "/bin/sh".to_owned() },
        }
    }

    /// Path of the shell.
    pub fn user_shell(&self) -> (r: &String)
        ensures
            r@ == self.user_shell@,
    {
        &self.user_shell
    }

    /// The POSIX query, run by the shell, that succeeds exactly when `program`
    /// is on the command search path.
    pub fn probe_command(&self, program: &str) -> (r: String)
        ensures
            r@ == "command -v "@ + program@,
    {
        let mut cmd = "command -v ".to_owned();
        cmd.append(program);
        cmd
    }
}

} // verus!
