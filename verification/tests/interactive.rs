use phos::interactive::{base_command, has_flag, has_word, is_interactive_command, needs_pty};

#[test]
fn test_is_interactive_command_editors() {
    assert!(is_interactive_command("vim"));
    assert!(is_interactive_command("vi"));
    assert!(is_interactive_command("nvim"));
    assert!(is_interactive_command("nano"));
    assert!(is_interactive_command("emacs"));
}

#[test]
fn test_is_interactive_command_pagers() {
    assert!(is_interactive_command("less"));
    assert!(is_interactive_command("more"));
    assert!(is_interactive_command("most"));
}

#[test]
fn test_is_interactive_command_tui_apps() {
    assert!(is_interactive_command("htop"));
    assert!(is_interactive_command("top"));
    assert!(is_interactive_command("btop"));
    assert!(is_interactive_command("k9s"));
    assert!(is_interactive_command("lazygit"));
}

#[test]
fn test_is_interactive_command_shells() {
    assert!(is_interactive_command("bash"));
    assert!(is_interactive_command("zsh"));
    assert!(is_interactive_command("fish"));
    assert!(is_interactive_command("sh"));
}

#[test]
fn test_is_interactive_command_with_path() {
    assert!(is_interactive_command("/usr/bin/vim"));
    assert!(is_interactive_command("/usr/local/bin/nvim"));
    assert!(is_interactive_command("./vim"));
}

#[test]
fn test_is_interactive_command_non_interactive() {
    assert!(!is_interactive_command("ls"));
    assert!(!is_interactive_command("cat"));
    assert!(!is_interactive_command("grep"));
    assert!(!is_interactive_command("git"));
    assert!(!is_interactive_command("cargo"));
    assert!(!is_interactive_command("docker"));
}

#[test]
fn test_is_interactive_command_empty() {
    assert!(!is_interactive_command(""));
}

#[test]
fn test_needs_pty_interactive_commands() {
    assert!(needs_pty(&["vim".to_string()]));
    assert!(needs_pty(&["less".to_string(), "file.txt".to_string()]));
    assert!(needs_pty(&["/usr/bin/htop".to_string()]));
}

#[test]
fn test_needs_pty_git_commit() {
    assert!(needs_pty(&["git".to_string(), "commit".to_string()]));
    assert!(needs_pty(&[
        "git".to_string(),
        "commit".to_string(),
        "-m".to_string(),
        "msg".to_string()
    ]));
    assert!(needs_pty(&[
        "git".to_string(),
        "commit".to_string(),
        "-a".to_string()
    ]));
}

#[test]
fn test_needs_pty_git_rebase() {
    assert!(needs_pty(&["git".to_string(), "rebase".to_string()]));
    assert!(needs_pty(&[
        "git".to_string(),
        "rebase".to_string(),
        "-i".to_string(),
        "HEAD~3".to_string()
    ]));
}

#[test]
fn test_needs_pty_git_merge() {
    assert!(needs_pty(&[
        "git".to_string(),
        "merge".to_string(),
        "feature".to_string()
    ]));
}

#[test]
fn test_needs_pty_git_interactive_flags() {
    assert!(needs_pty(&[
        "git".to_string(),
        "add".to_string(),
        "-p".to_string()
    ]));
    assert!(needs_pty(&[
        "git".to_string(),
        "add".to_string(),
        "--patch".to_string()
    ]));
    assert!(needs_pty(&[
        "git".to_string(),
        "add".to_string(),
        "-i".to_string()
    ]));
    assert!(needs_pty(&[
        "git".to_string(),
        "add".to_string(),
        "--interactive".to_string()
    ]));
}

#[test]
fn test_needs_pty_git_non_interactive() {
    assert!(!needs_pty(&["git".to_string(), "status".to_string()]));
    assert!(!needs_pty(&["git".to_string(), "log".to_string()]));
    assert!(!needs_pty(&["git".to_string(), "diff".to_string()]));
    assert!(!needs_pty(&["git".to_string(), "push".to_string()]));
    assert!(!needs_pty(&["git".to_string(), "pull".to_string()]));
    assert!(!needs_pty(&["git".to_string(), "fetch".to_string()]));
    assert!(!needs_pty(&[
        "git".to_string(),
        "clone".to_string(),
        "url".to_string()
    ]));
}

#[test]
fn test_needs_pty_non_git_commands() {
    assert!(!needs_pty(&["ls".to_string()]));
    assert!(!needs_pty(&["cargo".to_string(), "build".to_string()]));
    assert!(!needs_pty(&["docker".to_string(), "ps".to_string()]));
}

#[test]
fn test_needs_pty_empty() {
    assert!(!needs_pty(&[]));
}

#[test]
fn test_needs_pty_sudo_wrapping() {
    assert!(needs_pty(&[
        "sudo".to_string(),
        "vim".to_string(),
        "file".to_string()
    ]));
    assert!(needs_pty(&[
        "sudo".to_string(),
        "-u".to_string(),
        "root".to_string(),
        "htop".to_string()
    ]));
    assert!(needs_pty(&[
        "sudo".to_string(),
        "git".to_string(),
        "commit".to_string()
    ]));
    assert!(!needs_pty(&["sudo".to_string(), "ls".to_string()]));
}

#[test]
fn test_needs_pty_docker_interactive() {
    assert!(needs_pty(&[
        "docker".to_string(),
        "run".to_string(),
        "-it".to_string(),
        "ubuntu".to_string()
    ]));
    assert!(needs_pty(&[
        "docker".to_string(),
        "exec".to_string(),
        "-it".to_string(),
        "container".to_string(),
        "bash".to_string()
    ]));
    assert!(!needs_pty(&[
        "docker".to_string(),
        "run".to_string(),
        "ubuntu".to_string(),
        "ls".to_string()
    ]));
    assert!(!needs_pty(&["docker".to_string(), "ps".to_string()]));
}

#[test]
fn test_needs_pty_kubectl() {
    assert!(needs_pty(&[
        "kubectl".to_string(),
        "edit".to_string(),
        "pod".to_string(),
        "mypod".to_string()
    ]));
    assert!(needs_pty(&[
        "kubectl".to_string(),
        "exec".to_string(),
        "-it".to_string(),
        "pod".to_string()
    ]));
    assert!(!needs_pty(&[
        "kubectl".to_string(),
        "get".to_string(),
        "pods".to_string()
    ]));
}

#[test]
fn test_needs_pty_crontab() {
    assert!(needs_pty(&["crontab".to_string(), "-e".to_string()]));
    assert!(!needs_pty(&["crontab".to_string(), "-l".to_string()]));
}

#[test]
fn test_needs_pty_system_editors() {
    assert!(needs_pty(&["visudo".to_string()]));
    assert!(needs_pty(&["vipw".to_string()]));
    assert!(needs_pty(&["vigr".to_string()]));
}

#[test]
fn test_needs_pty_database_clis() {
    assert!(needs_pty(&["psql".to_string()]));
    assert!(needs_pty(&["mysql".to_string()]));
    assert!(needs_pty(&["sqlite3".to_string()]));
    assert!(needs_pty(&["redis-cli".to_string()]));
}

#[test]
fn test_needs_pty_repls() {
    assert!(needs_pty(&["python".to_string()]));
    assert!(needs_pty(&["python3".to_string()]));
    assert!(needs_pty(&["node".to_string()]));
    assert!(needs_pty(&["irb".to_string()]));
    assert!(!needs_pty(&["python".to_string(), "script.py".to_string()]));
    assert!(!needs_pty(&["node".to_string(), "app.js".to_string()]));
}

#[test]
fn base_command_strips_directories() {
    assert_eq!(base_command("/usr/bin/vim"), "vim");
    assert_eq!(base_command("vim"), "vim");
    assert_eq!(base_command(""), "");
}

#[test]
fn flags_and_words() {
    let args = vec!["git".to_string(), "add".to_string(), "--patch".to_string()];
    assert!(has_flag(&args, &["-p", "--patch"]));
    assert!(!has_flag(&args, &["-i"]));
    assert!(has_word(&args, &["add"]));
    assert!(!has_word(&args, &["commit"]));
}
