use vstd::prelude::*;

use crate::text::text_eq;

verus! {

/// The user's preferred editor variant together with the flag(s) that variant
/// needs to load a session file.
#[derive(Debug, Clone)]
pub struct VimVariant {
    /// Name of the active variant (a catalog key).
    pub active_variant: String,
    /// Flag(s) that the variant needs to open a session file.
    pub shell_command: String,
}

impl VimVariant {
    /// Builds a preference from its two parts.
    pub fn new(active_variant: String, shell_command: String) -> (r: Self)
        ensures
            r.active_variant@ == active_variant@,
            r.shell_command@ == shell_command@,
    {
        VimVariant { active_variant, shell_command }
    }

    /// The name of the active variant.
    pub fn active_variant(&self) -> (r: &String)
        ensures
            r@ == self.active_variant@,
    {
        &self.active_variant
    }

    /// The flag(s) that open a session file with the active variant.
    pub fn shell_command(&self) -> (r: &String)
        ensures
            r@ == self.shell_command@,
    {
        &self.shell_command
    }
}

impl Default for VimVariant {
    /// The preference used before any choice was made: neovim.
    fn default() -> (r: Self)
        ensures
            r.active_variant@ == "nvim"@,
            r.shell_command@ == "-S"@,
    {
        VimVariant { active_variant: "nvim".to_owned(), shell_command: "-S".to_owned() }
    }
}

/// The contents of the settings file: one table holding the preference.
#[derive(Debug, Clone)]
pub struct TomlConfigFile {
    /// The preferred variant.
    pub vim_variant: VimVariant,
}

impl TomlConfigFile {
    /// Wraps a preference into the settings-file structure.
    pub fn new(vim_variant: VimVariant) -> (r: Self)
        ensures
            r.vim_variant.active_variant@ == vim_variant.active_variant@,
            r.vim_variant.shell_command@ == vim_variant.shell_command@,
    {
        TomlConfigFile { vim_variant }
    }

    /// The stored preference.
    pub fn vim_variant(&self) -> (r: &VimVariant)
        ensures
            r.active_variant@ == self.vim_variant.active_variant@,
            r.shell_command@ == self.vim_variant.shell_command@,
    {
        &self.vim_variant
    }
}

impl Default for TomlConfigFile {
    /// Settings holding the default preference.
    fn default() -> (r: Self)
        ensures
            r.vim_variant.active_variant@ == "nvim"@,
            r.vim_variant.shell_command@ == "-S"@,
    {
        TomlConfigFile { vim_variant: VimVariant::default() }
    }
}

/// The supported variants, in the order in which they are offered, each with
/// the flag that loads a session file.
pub open spec fn supported_entries() -> Seq<(Seq<char>, Seq<char>)> {
    seq![("vim"@, "-S"@), ("nvim"@, "-S"@), ("gvim"@, "-S"@), ("neovide"@, "-- -S"@)]
}

/// The fixed registry of recognised variants, built once and only read.
#[derive(Debug)]
pub struct VariantCatalog {
    /// Entries in offering order; each `active_variant` is a distinct name.
    pub entries: Vec<VimVariant>,
}

impl VariantCatalog {
    /// The entries as (name, flag) pairs.
    pub open spec fn pairs(&self) -> Seq<(Seq<char>, Seq<char>)> {
        self.entries@.map_values(|v: VimVariant| (v.active_variant@, v.shell_command@))
    }

    /// The names of the entries, in order.
    pub open spec fn names(&self) -> Seq<Seq<char>> {
        self.entries@.map_values(|v: VimVariant| v.active_variant@)
    }

    /// No name is registered twice.
    pub open spec fn wf(&self) -> bool {
        forall|i: int, j: int|
            0 <= i < self.entries@.len() && 0 <= j < self.entries@.len() && i != j
                ==> self.entries@[i].active_variant@ != self.entries@[j].active_variant@
    }

    /// `name` is registered with flag `flag`.
    pub open spec fn has_entry(&self, name: Seq<char>, flag: Seq<char>) -> bool {
        exists|i: int|
            0 <= i < self.entries@.len() && self.entries@[i].active_variant@ == name
                && self.entries@[i].shell_command@ == flag
    }

    /// `name` is registered.
    pub open spec fn contains(&self, name: Seq<char>) -> bool {
        self.names().contains(name)
    }

    /// The catalog of supported variants.
    pub fn supported() -> (r: Self)
        ensures
            r.wf(),
            r.pairs() == supported_entries(),
    {
        let mut entries: Vec<VimVariant> = Vec::new();
        entries.push(VimVariant::new("vim".to_owned(), "-S".to_owned()));
        entries.push(VimVariant::new("nvim".to_owned(), "-S".to_owned()));
        entries.push(VimVariant::new("gvim".to_owned(), "-S".to_owned()));
        entries.push(VimVariant::new("neovide".to_owned(), "-- -S".to_owned()));
        let r = VariantCatalog { entries };
        proof {
            reveal_strlit("vim");
            reveal_strlit("nvim");
            reveal_strlit("gvim");
            reveal_strlit("neovide");
            reveal_strlit("-S");
            reveal_strlit("-- -S");
            assert(r.pairs() =~= supported_entries());
            assert("vim"@.len() != "nvim"@.len());
            assert("vim"@.len() != "gvim"@.len());
            assert("vim"@.len() != "neovide"@.len());
            assert("nvim"@[0] != "gvim"@[0]);
            assert("nvim"@.len() != "neovide"@.len());
            assert("gvim"@.len() != "neovide"@.len());
        }
        r
    }

    /// Looks up the flag registered for `name`; `None` when the name is not
    /// in the catalog.
    pub fn lookup(&self, name: &str) -> (r: Option<String>)
        requires
            self.wf(),
        ensures
            r is Some <==> self.contains(name@),
            r matches Some(f) ==> self.has_entry(name@, f@),
    {
        let mut i: usize = 0;
        while i < self.entries.len()
            invariant
                i <= self.entries@.len(),
                forall|k: int| 0 <= k < i ==> self.entries@[k].active_variant@ != name@,
            decreases self.entries@.len() - i,
        {
            let e = &self.entries[i];
            if text_eq(e.active_variant.as_str(), name) {
                proof {
                    assert(self.names()[i as int] == name@);
                }
                return Some(e.shell_command.clone());
            }
            i = i + 1;
        }
        proof {
            if self.contains(name@) {
                let k = choose|k: int| 0 <= k < self.names().len() && self.names()[k] == name@;
                assert(self.entries@[k].active_variant@ == name@);
            }
        }
        None
    }
}

} // verus!
