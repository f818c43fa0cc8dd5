use vsm::catalog::{TomlConfigFile, VariantCatalog, VimVariant};
use vsm::cli::{ActiveCommand, Argument, Cli, SubCommandName};
use vsm::environment::{Environment, Paths, Variables};
use vsm::error::VsmRuntimeFault;
use vsm::manager::{Dispatch, VimSessionManager};
use vsm::sessions::{extract_filename, select_session_files, DirectoryEntry};
use vsm::system::{CommandExecutor, FilesystemManager};

fn manager_for(command: &str) -> VimSessionManager {
    VimSessionManager::new(
        Cli::build_active_command(command, false),
        FilesystemManager::new("/h/.config/vsm", "/h/.config/vsm/config.toml", "/s"),
        CommandExecutor::new(None),
    )
}

fn loaded_manager(command: &str, variant: &str, flag: &str) -> VimSessionManager {
    let mut m = manager_for(command);
    m.settings_loaded(TomlConfigFile::new(VimVariant::new(
        variant.to_string(),
        flag.to_string(),
    )));
    m
}

fn strings(items: &[&str]) -> Vec<String> {
    items.iter().map(|s| s.to_string()).collect()
}

#[test]
fn test_create_env_config() {
    let env_vars = Variables::new("~/".to_owned(), "~/.config/vim_sessions".to_owned());
    assert_eq!(env_vars.vim_sessions(), "~/.config/vim_sessions");
    assert_eq!(env_vars.home(), "~/");
}

#[test]
fn catalog_holds_four_variants_with_their_flags() {
    let c = VariantCatalog::supported();
    let names: Vec<&str> = c.entries.iter().map(|v| v.active_variant.as_str()).collect();
    assert_eq!(names, vec!["vim", "nvim", "gvim", "neovide"]);
    assert_eq!(c.lookup("nvim"), Some("-S".to_string()));
    assert_eq!(c.lookup("neovide"), Some("-- -S".to_string()));
    assert_eq!(c.lookup("gvim"), Some("-S".to_string()));
    assert_eq!(c.lookup("emacs"), None);
}

#[test]
fn default_preference_is_neovim() {
    let v = VimVariant::default();
    assert_eq!(v.active_variant(), "nvim");
    assert_eq!(v.shell_command(), "-S");
    let c = TomlConfigFile::default();
    assert_eq!(c.vim_variant().active_variant(), "nvim");
}

#[test]
fn offers_exactly_the_installed_variants() {
    let m = manager_for("list");
    let offered = m.variant_candidates(&vec![false, true, false, true]).unwrap();
    assert_eq!(offered, strings(&["nvim", "neovide"]));
}

#[test]
fn no_installed_variant_is_a_fault_listing_all_tried() {
    let m = manager_for("list");
    match m.variant_candidates(&vec![false, false, false, false]) {
        Err(VsmRuntimeFault::NoSupportedVimVariantFound { msg }) => {
            assert_eq!(msg, "vim, nvim, gvim, neovide, ");
        }
        other => panic!("unexpected {:?}", other),
    }
}

#[test]
fn choosing_the_active_variant_again_saves_nothing() {
    let mut m = loaded_manager("variant", "nvim", "-S");
    assert!(m.choose_variant("nvim").is_none());
    assert_eq!(m.config_file_struct().vim_variant().active_variant(), "nvim");
}

#[test]
fn choosing_another_variant_returns_settings_to_save() {
    let mut m = loaded_manager("variant", "nvim", "-S");
    let saved = m.choose_variant("neovide").unwrap();
    assert_eq!(saved.vim_variant().active_variant(), "neovide");
    assert_eq!(saved.vim_variant().shell_command(), "-- -S");
    assert_eq!(m.config_file_struct().vim_variant().shell_command(), "-- -S");
    assert!(!m.first_run());
}

#[test]
fn first_run_with_only_neovim_installed_saves_neovim() {
    let mut m = manager_for("list");
    assert!(m.first_run());
    let offered = m.variant_candidates(&vec![false, true, false, false]).unwrap();
    assert_eq!(offered, strings(&["nvim"]));
    let saved = m.choose_variant(&offered[0]).unwrap();
    assert_eq!(saved.vim_variant().active_variant(), "nvim");
    assert_eq!(saved.vim_variant().shell_command(), "-S");
}

#[test]
fn scan_keeps_regular_vim_files_only() {
    let entries = vec![
        DirectoryEntry::new("/s/b.txt".to_string(), true),
        DirectoryEntry::new("/s/c.vim".to_string(), false),
        DirectoryEntry::new("/s/a.vim".to_string(), true),
    ];
    assert_eq!(select_session_files(&entries), Some(strings(&["/s/a.vim"])));
}

#[test]
fn scan_sorts_by_full_path() {
    let entries = vec![
        DirectoryEntry::new("/s/work.vim".to_string(), true),
        DirectoryEntry::new("/s/Zed.vim".to_string(), true),
        DirectoryEntry::new("/s/alpha.vim".to_string(), true),
        DirectoryEntry::new("/s/alpha2.vim".to_string(), true),
    ];
    assert_eq!(
        select_session_files(&entries),
        Some(strings(&["/s/Zed.vim", "/s/alpha.vim", "/s/alpha2.vim", "/s/work.vim"]))
    );
}

#[test]
fn scan_of_an_empty_directory_is_empty() {
    assert_eq!(select_session_files(&vec![]), None);
}

#[test]
fn scan_without_session_files_is_empty() {
    let entries = vec![
        DirectoryEntry::new("/s/notes.txt".to_string(), true),
        DirectoryEntry::new("/s/old.vim".to_string(), false),
        DirectoryEntry::new("/s/vim".to_string(), true),
    ];
    assert_eq!(select_session_files(&entries), None);
}

#[test]
fn list_shows_display_names() {
    let m = loaded_manager("list", "nvim", "-S");
    assert_eq!(m.dispatch(), Dispatch::ListSessions);
    let sessions = strings(&["/s/work.vim"]);
    assert_eq!(m.list(&sessions), strings(&["work"]));
}

#[test]
fn open_spawns_the_active_variant_on_the_chosen_session() {
    let m = loaded_manager("open", "neovide", "-- -S");
    assert_eq!(m.dispatch(), Dispatch::OpenSession);
    let sessions = strings(&["/s/home.vim", "/s/work.vim"]);
    let req = m.open(&sessions, "work").unwrap();
    assert_eq!(req.vim_variant, "neovide");
    assert_eq!(req.shell_command, "-- -S");
    assert_eq!(req.session_file, "/s/work.vim");
    assert!(m.open(&sessions, "play").is_none());
}

#[test]
fn remove_selects_only_the_chosen_sessions() {
    let m = loaded_manager("remove", "vim", "-S");
    assert_eq!(m.dispatch(), Dispatch::RemoveSessions);
    let sessions = strings(&["/s/home.vim", "/s/work.vim", "/s/workshop.vim"]);
    assert_eq!(m.remove(&sessions, &strings(&["work"])), strings(&["/s/work.vim"]));
    assert_eq!(
        m.remove(&sessions, &strings(&["workshop", "home"])),
        strings(&["/s/home.vim", "/s/workshop.vim"])
    );
    assert!(m.remove(&sessions, &vec![]).is_empty());
}

#[test]
fn variant_request_is_skipped_on_first_run() {
    let first = manager_for("variant");
    assert_eq!(first.dispatch(), Dispatch::Nothing);
    let later = loaded_manager("variant", "vim", "-S");
    assert_eq!(later.dispatch(), Dispatch::UpdateVariant);
}

#[test]
fn cli_reports_the_active_sub_command() {
    let cli = Cli::build_active_command(SubCommandName::REMOVE, true);
    assert!(cli.remove());
    assert!(!cli.list());
    assert!(!cli.open());
    assert!(!cli.variant());
    assert!(cli.debug_mode());
    assert_eq!(cli.active_command().command(), "remove");
    let cmd = ActiveCommand::new("open", Argument::default());
    assert!(cmd.arg().name().is_none());
    assert!(cmd.arg().value().is_none());
}

#[test]
fn display_names_drop_the_extension() {
    let names = extract_filename(&strings(&["/s/a.vim", "/s/b.c.vim", "/"]));
    assert_eq!(names, strings(&["a", "b.c"]));
}

#[test]
fn environment_needs_both_variables() {
    let env = Environment::new(Some("/home/u".to_string()), Some("/sess".to_string())).unwrap();
    assert_eq!(env.var().home(), "/home/u");
    assert_eq!(env.var().vim_sessions(), "/sess");
    assert_eq!(env.path().vsm_config_dir(), "/home/u/.config/vsm");
    assert_eq!(env.path().vsm_config_file(), "/home/u/.config/vsm/config.toml");
    match Environment::new(Some("/home/u".to_string()), None) {
        Err(fault) => {
            assert!(matches!(fault, VsmRuntimeFault::EnvironmentVariable { .. }));
            assert_eq!(fault.msg(), "VIM_SESSIONS is not defined");
        }
        Ok(_) => panic!("expected a fault"),
    }
}

#[test]
fn environment_defaults_follow_home() {
    let env = Environment::from_home(Some("/home/u".to_string()));
    assert_eq!(env.var().vim_sessions(), "/home/u/.config/vim_sessions");
    let none = Variables::from_home(None);
    assert_eq!(none.home(), "~/");
    assert_eq!(none.vim_sessions(), "~/.config/vim_sessions");
    let paths = Paths::from_home(None);
    assert_eq!(paths.vsm_config_dir(), "~//.config/vsm");
}

#[test]
fn shell_defaults_and_probe_command() {
    let sh = CommandExecutor::new(None);
    assert_eq!(sh.user_shell(), "/bin/sh");
    let zsh = CommandExecutor::new(Some("/bin/zsh".to_string()));
    assert_eq!(zsh.user_shell(), "/bin/zsh");
    assert_eq!(sh.probe_command("nvim"), "command -v nvim");
    let fs = FilesystemManager::new("/c", "/c/config.toml", "/s");
    assert_eq!(fs.config_dir(), "/c");
    assert_eq!(fs.config_file(), "/c/config.toml");
    assert_eq!(fs.vim_session_dir(), "/s");
}
