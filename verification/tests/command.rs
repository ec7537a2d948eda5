use leethack_backend::api;
use leethack_backend::command::{is_clear_command, is_interactive_lowered};
use leethack_backend::docker_vm::DockerVmManager;
use leethack_backend::text::{is_blank, trim};

#[test]
fn bare_cd_has_no_target() {
    assert_eq!(
        DockerVmManager::process_command("cd", "/home/hacker"),
        ("cd".to_string(), true, None)
    );
    assert_eq!(
        DockerVmManager::process_command("  cd \t", "/x"),
        ("  cd \t".to_string(), true, None)
    );
}

#[test]
fn cd_takes_its_second_token() {
    assert_eq!(
        DockerVmManager::process_command("cd /tmp", "/home/hacker"),
        ("cd /tmp".to_string(), true, Some("/tmp".to_string()))
    );
    assert_eq!(
        DockerVmManager::process_command("  cd   ..  ", "/home/hacker"),
        ("  cd   ..  ".to_string(), true, Some("..".to_string()))
    );
}

#[test]
fn cd_ignores_what_follows_its_target() {
    assert_eq!(
        DockerVmManager::process_command("cd a b c", "/"),
        ("cd a b c".to_string(), true, Some("a".to_string()))
    );
    assert_eq!(
        DockerVmManager::process_command("cd \t x\ty", "/"),
        ("cd \t x\ty".to_string(), true, Some("x".to_string()))
    );
    assert_eq!(
        DockerVmManager::process_command("cd a && ls", "/"),
        ("cd a && ls".to_string(), true, Some("a".to_string()))
    );
}

#[test]
fn other_commands_are_no_directory_change() {
    assert_eq!(
        DockerVmManager::process_command("ls -la", "/"),
        ("ls -la".to_string(), false, None)
    );
    assert_eq!(
        DockerVmManager::process_command("cdx", "/"),
        ("cdx".to_string(), false, None)
    );
    assert_eq!(
        DockerVmManager::process_command("cd\tfoo", "/"),
        ("cd\tfoo".to_string(), false, None)
    );
    assert_eq!(
        DockerVmManager::process_command("CD foo", "/"),
        ("CD foo".to_string(), false, None)
    );
    assert_eq!(DockerVmManager::process_command("", "/"), ("".to_string(), false, None));
    assert_eq!(
        DockerVmManager::process_command("echo cd /tmp", "/"),
        ("echo cd /tmp".to_string(), false, None)
    );
}

#[test]
fn the_current_directory_plays_no_part_in_classification() {
    assert_eq!(
        DockerVmManager::process_command("cd x", "/a"),
        DockerVmManager::process_command("cd x", "/b/c")
    );
}

#[test]
fn exact_program_name_is_interactive() {
    for name in [
        "vim", "vi", "nano", "emacs", "less", "more", "man", "htop", "top", "mysql", "psql",
        "mongo", "redis-cli", "python", "python3", "node", "irb", "ssh", "telnet", "ftp", "sftp",
    ] {
        assert!(DockerVmManager::is_interactive_command(name), "{}", name);
        assert!(is_interactive_lowered(name), "{}", name);
    }
}

#[test]
fn program_name_and_space_is_interactive() {
    assert!(DockerVmManager::is_interactive_command("vim notes.txt"));
    assert!(DockerVmManager::is_interactive_command("man ls"));
    assert!(DockerVmManager::is_interactive_command("ssh user@host -p 22"));
    assert!(DockerVmManager::is_interactive_command("python3 -i"));
    assert!(is_interactive_lowered("top "));
}

#[test]
fn longer_token_sharing_a_prefix_is_not_interactive() {
    assert!(!DockerVmManager::is_interactive_command("vimdiff a b"));
    assert!(!DockerVmManager::is_interactive_command("manual"));
    assert!(!DockerVmManager::is_interactive_command("topology"));
    assert!(!DockerVmManager::is_interactive_command("python3.11"));
    assert!(!DockerVmManager::is_interactive_command("nodejs"));
    assert!(!DockerVmManager::is_interactive_command("ssh-keygen -t ed25519"));
    assert!(!DockerVmManager::is_interactive_command("lesspipe"));
    assert!(!is_interactive_lowered("vix"));
}

#[test]
fn classification_folds_case_and_trims() {
    assert!(DockerVmManager::is_interactive_command("VIM file"));
    assert!(DockerVmManager::is_interactive_command("  Nano  "));
    assert!(DockerVmManager::is_interactive_command("\tHTOP\n"));
    assert!(!DockerVmManager::is_interactive_command("VIMDIFF"));
}

#[test]
fn only_a_space_separates_program_and_arguments() {
    assert!(!DockerVmManager::is_interactive_command("vim\tfile"));
    assert!(!DockerVmManager::is_interactive_command("vim;ls"));
    assert!(!is_interactive_lowered(" vim"));
    assert!(!is_interactive_lowered("VIM"));
}

#[test]
fn ordinary_commands_are_not_interactive() {
    assert!(!DockerVmManager::is_interactive_command("ls -la"));
    assert!(!DockerVmManager::is_interactive_command("echo vim"));
    assert!(!DockerVmManager::is_interactive_command(""));
    assert!(!DockerVmManager::is_interactive_command("v"));
    assert!(!DockerVmManager::is_interactive_command("cat file | less"));
}

#[test]
fn both_classifiers_agree() {
    for command in ["vim", "vim x", "vimdiff", "ls", "  MAN  bash", "sftp", "sftpd", ""] {
        assert_eq!(
            api::is_interactive_command(command),
            DockerVmManager::is_interactive_command(command),
            "{}",
            command
        );
    }
}

#[test]
fn clear_is_recognised_after_trimming() {
    assert!(is_clear_command("clear"));
    assert!(is_clear_command("  clear\n"));
    assert!(!is_clear_command("clear screen"));
    assert!(!is_clear_command("Clear"));
    assert!(!is_clear_command("clea"));
    assert!(!is_clear_command(""));
}

#[test]
fn blank_characters_are_those_of_the_standard_library() {
    let mut code: u32 = 0;
    while code <= 0x10FFFF {
        if let Some(c) = char::from_u32(code) {
            assert_eq!(is_blank(c), c.is_whitespace(), "U+{:04X}", code);
        }
        code += 1;
    }
}

#[test]
fn trimming_is_that_of_the_standard_library() {
    for text in [
        "",
        " ",
        "abc",
        "  abc",
        "abc  ",
        " \t\r\n abc def \u{000B}\u{000C}",
        "\u{00A0}x\u{2003}",
        "\u{1680}\u{2028}\u{2029}\u{202F}\u{205F}\u{3000}é\u{0085}",
        "\u{200B}zero width is no blank\u{200B}",
        "   \t  ",
        "a",
        " a b ",
    ] {
        assert_eq!(trim(text), text.trim(), "{:?}", text);
    }
}
