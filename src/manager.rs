use vstd::prelude::*;
use vstd::string::StringExecFns;

use crate::catalog::{supported_entries, TomlConfigFile, VariantCatalog, VimVariant};
use crate::cli::Cli;
use crate::error::VsmRuntimeFault;
use crate::sessions::{
    display_names, extract_filename, file_stem_of, paths_named, session_named, sessions_named,
    views,
};
use crate::system::{CommandExecutor, FilesystemManager};
use crate::text::text_eq;

verus! {

/// The names whose flag is set, in order.
pub open spec fn installed_names(names: Seq<Seq<char>>, installed: Seq<bool>) -> Seq<Seq<char>>
    decreases names.len(),
{
    if names.len() == 0 {
        Seq::empty()
    } else {
        let rest = installed_names(names.drop_last(), installed.drop_last());
        if installed[names.len() - 1] {
            rest.push(names.last())
        } else {
            rest
        }
    }
}

/// Each name whose flag is clear, followed by `", "`, in order.
pub open spec fn missing_list(names: Seq<Seq<char>>, installed: Seq<bool>) -> Seq<char>
    decreases names.len(),
{
    if names.len() == 0 {
        Seq::empty()
    } else {
        let rest = missing_list(names.drop_last(), installed.drop_last());
        if installed[names.len() - 1] {
            rest
        } else {
            rest + names.last() + ", "@
        }
    }
}

/// What the session manager does after start-up.
#[derive(Debug, Clone, Copy, PartialEq, Eq)]
pub enum Dispatch {
    /// Scan the session directory and list the display names.
    ListSessions,
    /// Scan the session directory and open one session.
    OpenSession,
    /// Scan the session directory and remove chosen sessions.
    RemoveSessions,
    /// Choose the preferred variant again.
    UpdateVariant,
    /// Nothing is left to do.
    Nothing,
}

/// A request to start the editor on a session file and wait for it.
#[derive(Debug, Clone)]
pub struct OpenRequest {
    /// The program to start.
    pub vim_variant: String,
    /// The flag(s) that make it load the session.
    pub shell_command: String,
    /// Path of the session file.
    pub session_file: String,
}

/// The session manager's state for one run: what was asked, the preference
/// in force, the locations it works with and whether this is the first run.
#[derive(Debug)]
pub struct VimSessionManager {
    /// What was asked on the command line.
    pub cli: Cli,
    /// The preference in force.
    pub config_file_struct: TomlConfigFile,
    /// Locations on disk.
    pub fs: FilesystemManager,
    /// The user's shell.
    pub shell: CommandExecutor,
    /// The supported variants.
    pub catalog: VariantCatalog,
    /// No settings file was found at start-up.
    pub first_run: bool,
}

impl VimSessionManager {
    /// The catalog holds each name once.
    pub open spec fn wf(&self) -> bool {
        self.catalog.wf()
    }

    /// The active variant's name.
    pub open spec fn active(&self) -> Seq<char> {
        self.config_file_struct.vim_variant.active_variant@
    }

    /// The active variant's flag.
    pub open spec fn flag(&self) -> Seq<char> {
        self.config_file_struct.vim_variant.shell_command@
    }

    /// Starts a run: nothing is loaded yet, so this counts as a first run and
    /// the default preference is in force.
    pub fn new(cli: Cli, fs: FilesystemManager, shell: CommandExecutor) -> (r: Self)
        ensures
            r.wf(),
            r.catalog.pairs() == supported_entries(),
            r.first_run,
            r.active() == "nvim"@,
            r.flag() == "-S"@,
            r.cli == cli,
            r.fs == fs,
            r.shell == shell,
    {
        VimSessionManager {
            cli,
            config_file_struct: TomlConfigFile::default(),
            fs,
            shell,
            catalog: VariantCatalog::supported(),
            first_run: true,
        }
    }

    /// Takes the settings read from disk: this is not a first run.
    pub fn settings_loaded(&mut self, config: TomlConfigFile)
        ensures
            !final(self).first_run,
            final(self).config_file_struct == config,
            final(self).catalog == old(self).catalog,
            final(self).cli == old(self).cli,
            final(self).fs == old(self).fs,
            final(self).shell == old(self).shell,
    {
        self.first_run = false;
        self.config_file_struct = config;
    }

    /// Whether no settings file was found at start-up.
    pub fn first_run(&self) -> (r: bool)
        ensures
            r == self.first_run,
    {
        self.first_run
    }

    /// The preference in force.
    pub fn config_file_struct(&self) -> (r: &TomlConfigFile)
        ensures
            r == &self.config_file_struct,
    {
        &self.config_file_struct
    }

    /// The names of the catalog's variants, in order, for probing.
    pub fn variant_names(&self) -> (r: Vec<String>)
        ensures
            views(r@) == self.catalog.names(),
    {
        let mut out: Vec<String> = Vec::new();
        let mut i: usize = 0;
        while i < self.catalog.entries.len()
            invariant
                i <= self.catalog.entries@.len(),
                views(out@) =~= self.catalog.names().subrange(0, i as int),
            decreases self.catalog.entries@.len() - i,
        {
            let ghost before = out@;
            out.push(self.catalog.entries[i].active_variant.clone());
            assert(views(out@) =~= views(before).push(self.catalog.names()[i as int]));
            i = i + 1;
        }
        out
    }

    /// The variants to offer, given for each catalog entry whether it is
    /// installed. Fails, listing every variant tried, when none is installed.
    pub fn variant_candidates(&self, installed: &Vec<bool>) -> (r: Result<Vec<String>, VsmRuntimeFault>)
        requires
            installed@.len() == self.catalog.entries@.len(),
        ensures
            r is Err <==> installed_names(self.catalog.names(), installed@).len() == 0,
            r matches Ok(v) ==> views(v@) == installed_names(self.catalog.names(), installed@),
            r matches Err(e) ==> e is NoSupportedVimVariantFound && e.spec_msg() == missing_list(
                self.catalog.names(),
                installed@,
            ),
    {
        let mut found: Vec<String> = Vec::new();
        let mut msg = String::new();
        let mut i: usize = 0;
        while i < self.catalog.entries.len()
            invariant
                i <= self.catalog.entries@.len(),
                installed@.len() == self.catalog.entries@.len(),
                views(found@) == installed_names(
                    self.catalog.names().subrange(0, i as int),
                    installed@.subrange(0, i as int),
                ),
                msg@ == missing_list(
                    self.catalog.names().subrange(0, i as int),
                    installed@.subrange(0, i as int),
                ),
            decreases self.catalog.entries@.len() - i,
        {
            let ghost names = self.catalog.names();
            assert(names.subrange(0, i + 1).drop_last() =~= names.subrange(0, i as int));
            assert(installed@.subrange(0, i + 1).drop_last() =~= installed@.subrange(0, i as int));
            let name = &self.catalog.entries[i].active_variant;
            if installed[i] {
                found.push(name.clone());
                assert(views(found@) =~= installed_names(
                    names.subrange(0, i + 1),
                    installed@.subrange(0, i + 1),
                ));
            } else {
                msg.append(name.as_str());
                msg.append(", ");
                assert(msg@ =~= missing_list(names.subrange(0, i + 1), installed@.subrange(0, i + 1)));
            }
            i = i + 1;
        }
        assert(self.catalog.names().subrange(0, i as int) =~= self.catalog.names());
        assert(installed@.subrange(0, i as int) =~= installed@);
        if found.len() == 0 {
            Err(VsmRuntimeFault::NoSupportedVimVariantFound { msg })
        } else {
            Ok(found)
        }
    }

    /// Applies the user's choice of variant. On a first run, or when the choice
    /// differs from the active variant, the preference becomes the catalog's
    /// entry for the choice and is returned for saving; otherwise nothing
    /// changes and there is nothing to save.
    pub fn choose_variant(&mut self, choice: &str) -> (r: Option<TomlConfigFile>)
        requires
            old(self).wf(),
            old(self).catalog.contains(choice@),
        ensures
            final(self).wf(),
            final(self).catalog == old(self).catalog,
            final(self).cli == old(self).cli,
            final(self).fs == old(self).fs,
            final(self).shell == old(self).shell,
            final(self).first_run == old(self).first_run,
            r is Some <==> (old(self).first_run || old(self).active() != choice@),
            r is Some ==> final(self).active() == choice@ && old(self).catalog.has_entry(
                choice@,
                final(self).flag(),
            ),
            r is None ==> final(self).config_file_struct == old(self).config_file_struct,
            r matches Some(c) ==> c.vim_variant.active_variant@ == final(self).active()
                && c.vim_variant.shell_command@ == final(self).flag(),
    {
        if self.first_run || !text_eq(self.config_file_struct.vim_variant.active_variant.as_str(), choice) {
            let flag = match self.catalog.lookup(choice) {
                Some(f) => f,
                None => {
                    proof {
                        assert(false);
                    }
                    String::new()
                },
            };
            let saved = TomlConfigFile::new(VimVariant::new(choice.to_owned(), flag.clone()));
            self.config_file_struct = TomlConfigFile::new(VimVariant::new(choice.to_owned(), flag));
            Some(saved)
        } else {
            None
        }
    }

    /// Decides what follows start-up: a session action for `list`, `open` and
    /// `remove`; for `variant`, a new choice unless start-up already made one.
    pub fn dispatch(&self) -> (r: Dispatch)
        ensures
            self.cli.active_command.command@ == "list"@ ==> r == Dispatch::ListSessions,
            self.cli.active_command.command@ == "open"@ ==> r == Dispatch::OpenSession,
            self.cli.active_command.command@ == "remove"@ ==> r == Dispatch::RemoveSessions,
            self.cli.active_command.command@ == "variant"@ ==> r == (if self.first_run {
                Dispatch::Nothing
            } else {
                Dispatch::UpdateVariant
            }),
    {
        proof {
            reveal_strlit("list");
            reveal_strlit("open");
            reveal_strlit("remove");
            reveal_strlit("variant");
            assert("list"@.len() != "variant"@.len());
            assert("open"@.len() != "variant"@.len());
            assert("remove"@.len() != "variant"@.len());
            assert("list"@[0] != "open"@[0]);
            assert("list"@.len() != "remove"@.len());
            assert("open"@.len() != "remove"@.len());
        }
        if self.cli.variant() {
            if self.first_run {
                Dispatch::Nothing
            } else {
                Dispatch::UpdateVariant
            }
        } else if self.cli.list() {
            Dispatch::ListSessions
        } else if self.cli.open() {
            Dispatch::OpenSession
        } else if self.cli.remove() {
            Dispatch::RemoveSessions
        } else {
            Dispatch::Nothing
        }
    }

    /// The display names of the scanned sessions, in scan order.
    pub fn list(&self, sessions: &Vec<String>) -> (r: Vec<String>)
        ensures
            views(r@) == display_names(views(sessions@)),
    {
        extract_filename(sessions)
    }

    /// The request that opens the first session whose display name is
    /// `choice` with the active variant; `None` when no session has that name.
    pub fn open(&self, sessions: &Vec<String>, choice: &str) -> (r: Option<OpenRequest>)
        ensures
            r is None <==> forall|k: int|
                0 <= k < sessions@.len() ==> file_stem_of(sessions@[k]@) != Some(choice@),
            r matches Some(q) ==> q.vim_variant@ == self.active() && q.shell_command@ == self.flag()
                && exists|k: int|
                0 <= k < sessions@.len() && sessions@[k]@ == q.session_file@ && file_stem_of(
                    sessions@[k]@,
                ) == Some(choice@) && forall|m: int|
                    0 <= m < k ==> file_stem_of(sessions@[m]@) != Some(choice@),
    {
        match session_named(sessions, choice) {
            Some(session_file) => Some(
                OpenRequest {
                    vim_variant: self.config_file_struct.vim_variant.active_variant.clone(),
                    shell_command: self.config_file_struct.vim_variant.shell_command.clone(),
                    session_file,
                },
            ),
            None => None,
        }
    }

    /// The session paths to delete for the chosen display names, in scan order.
    pub fn remove(&self, sessions: &Vec<String>, selected: &Vec<String>) -> (r: Vec<String>)
        ensures
            views(r@) == paths_named(views(sessions@), views(selected@)),
    {
        sessions_named(sessions, selected)
    }
}

} // verus!

verus! {

/// The variants offered are exactly those reported installed, and the offer
/// is empty exactly when none is installed.
pub proof fn lemma_offer_is_installed_set(names: Seq<Seq<char>>, installed: Seq<bool>)
    requires
        names.len() == installed.len(),
    ensures
        forall|n: Seq<char>|
            installed_names(names, installed).contains(n) <==> exists|i: int|
                0 <= i < names.len() && installed[i] && names[i] == n,
        installed_names(names, installed).len() == 0 <==> forall|i: int|
            0 <= i < names.len() ==> !installed[i],
    decreases names.len(),
{
    if names.len() > 0 {
        let pn = names.drop_last();
        let pi = installed.drop_last();
        let last = names.len() - 1;
        lemma_offer_is_installed_set(pn, pi);
        let rest = installed_names(pn, pi);
        assert forall|n: Seq<char>|
            installed_names(names, installed).contains(n) <==> exists|i: int|
                0 <= i < names.len() && installed[i] && names[i] == n by {
            if installed_names(names, installed).contains(n) {
                if rest.contains(n) {
                    let i = choose|i: int| 0 <= i < pn.len() && pi[i] && pn[i] == n;
                    assert(installed[i] && names[i] == n);
                } else {
                    assert(installed[last] && names[last] == n);
                }
            }
            if exists|i: int| 0 <= i < names.len() && installed[i] && names[i] == n {
                let i = choose|i: int| 0 <= i < names.len() && installed[i] && names[i] == n;
                if i < last {
                    assert(pi[i] && pn[i] == n);
                    assert(rest.contains(n));
                    if installed[last] {
                        assert(installed_names(names, installed) == rest.push(names.last()));
                        assert(rest.push(names.last())[rest.index_of(n)] == n);
                    }
                } else {
                    assert(installed_names(names, installed) == rest.push(names.last()));
                    assert(rest.push(names.last())[rest.len() as int] == n);
                }
            }
        }
        if !installed[last] {
            if rest.len() == 0 {
                assert forall|i: int| 0 <= i < names.len() implies !installed[i] by {
                    if i < last {
                        assert(!pi[i]);
                    }
                }
            } else {
                assert(!(forall|i: int| 0 <= i < pn.len() ==> !pi[i]));
                let i = choose|i: int| 0 <= i < pn.len() && pi[i];
                assert(installed[i]);
            }
        }
    }
}

/// A scanned session is selected for removal exactly when its display name is
/// one of those chosen; every other session is left alone.
pub proof fn lemma_removal_matches_chosen_names(paths: Seq<Seq<char>>, chosen: Seq<Seq<char>>)
    ensures
        forall|k: int|
            0 <= k < paths.len() && (file_stem_of(paths[k]) matches Some(n) && chosen.contains(n))
                ==> paths_named(paths, chosen).contains(paths[k]),
        forall|p: Seq<char>|
            paths_named(paths, chosen).contains(p) ==> paths.contains(p) && (file_stem_of(p) matches Some(
                n,
            ) && chosen.contains(n)),
    decreases paths.len(),
{
    if paths.len() > 0 {
        let pre = paths.drop_last();
        let last = paths.len() - 1;
        lemma_removal_matches_chosen_names(pre, chosen);
        let rest = paths_named(pre, chosen);
        let whole = paths_named(paths, chosen);
        assert(whole == rest || whole == rest.push(paths.last()));
        assert forall|k: int|
            0 <= k < paths.len() && (file_stem_of(paths[k]) matches Some(n) && chosen.contains(
                n,
            )) implies whole.contains(paths[k]) by {
            if k < last {
                assert(pre[k] == paths[k]);
                assert(rest.contains(paths[k]));
                let j = rest.index_of(paths[k]);
                if whole != rest {
                    assert(whole[j] == paths[k]);
                }
            } else {
                assert(whole == rest.push(paths.last()));
                assert(whole[rest.len() as int] == paths[k]);
            }
        }
        assert forall|p: Seq<char>| whole.contains(p) implies paths.contains(p) && (file_stem_of(
            p,
        ) matches Some(n) && chosen.contains(n)) by {
            let j = whole.index_of(p);
            if j < rest.len() {
                assert(rest[j] == p);
                assert(rest.contains(p));
                assert(pre.contains(p));
                let i = choose|i: int| 0 <= i < pre.len() && pre[i] == p;
                assert(paths[i] == p);
            } else {
                assert(whole != rest);
                assert(p == paths.last());
                assert(paths[last] == p);
                match file_stem_of(paths.last()) {
                    Some(n) => {
                        assert(chosen.contains(n));
                    },
                    None => {},
                }
            }
        }
    }
}

} // verus!
