use tuilog::session::{
    get_sessions, set_environment, spawn_session, Account, Session, SessionType,
};
use tuilog::text::{ends_with, join, same_text, to_decimal};

fn alice() -> Account {
    Account {
        name: String::from("alice"),
        uid: 1000,
        gid: 100,
        home: String::from("/home/alice"),
        shell: String::from("/bin/bash"),
    }
}

fn pair(key: &str, value: &str) -> (String, String) {
    (String::from(key), String::from(value))
}

#[test]
fn environment_of_alice() {
    let variables = set_environment(&alice());
    assert!(variables.contains(&pair("HOME", "/home/alice")));
    assert!(variables.contains(&pair("USER", "alice")));
    assert!(variables.contains(&pair("SHELL", "/bin/bash")));
    assert!(variables.contains(&pair("XDG_RUNTIME_DIR", "/run/user/1000")));
}

#[test]
fn environment_is_complete_and_ordered() {
    let variables = set_environment(&alice());
    assert_eq!(
        variables,
        vec![
            pair("USER", "alice"),
            pair("LOGNAME", "alice"),
            pair("HOME", "/home/alice"),
            pair("SHELL", "/bin/bash"),
            pair("TERM", "linux"),
            pair("XDG_SESSION_TYPE", "tty"),
            pair("XDG_RUNTIME_DIR", "/run/user/1000"),
        ]
    );
}

#[test]
fn runtime_directory_of_root_and_of_the_largest_uid() {
    let mut account = alice();
    account.uid = 0;
    assert_eq!(set_environment(&account)[6], pair("XDG_RUNTIME_DIR", "/run/user/0"));
    account.uid = u32::MAX;
    assert_eq!(set_environment(&account)[6], pair("XDG_RUNTIME_DIR", "/run/user/4294967295"));
}

#[test]
fn decimal_numerals() {
    assert_eq!(to_decimal(0), "0");
    assert_eq!(to_decimal(9), "9");
    assert_eq!(to_decimal(10), "10");
    assert_eq!(to_decimal(1000), "1000");
    assert_eq!(to_decimal(65534), "65534");
    assert_eq!(to_decimal(4294967295), "4294967295");
}

#[test]
fn text_helpers() {
    assert_eq!(join("ab", "cd"), "abcd");
    assert_eq!(join("", ""), "");
    assert!(same_text("Red", "Red"));
    assert!(!same_text("Red", "red"));
    assert!(ends_with("plasma.desktop", ".desktop"));
    assert!(ends_with(".desktop", ".desktop"));
    assert!(!ends_with("desktop", ".desktop"));
    assert!(!ends_with("plasma.desktop.bak", ".desktop"));
    assert!(ends_with("gnöme.desktop", ".desktop"));
}

#[test]
fn default_shell_runs_the_login_shell() {
    let session = Session::default_shell();
    assert_eq!(session.name, "shell");
    assert_eq!(session.command, "");
    assert_eq!(session.session_type, SessionType::DefaultShell);
    let arguments = spawn_session(&alice(), &session);
    assert_eq!(
        arguments,
        vec![
            String::from("/bin/bash"),
            String::from("-l"),
            String::from("-c"),
            String::from("stty sane; tput sgr0; tput cnorm; clear; exec /bin/bash -l"),
        ]
    );
}

#[test]
fn graphical_session_runs_its_command() {
    let session = Session {
        name: String::from("Plasma (Xsession)"),
        command: String::from("startplasma-x11"),
        session_type: SessionType::GraphicalSession,
    };
    let arguments = spawn_session(&alice(), &session);
    assert_eq!(arguments.len(), 4);
    assert_eq!(arguments[0], "/bin/bash");
    assert_eq!(arguments[1], "-l");
    assert_eq!(arguments[2], "-c");
    assert_eq!(arguments[3], "stty sane; tput sgr0; tput cnorm; clear; exec startplasma-x11 -l");
}

#[test]
fn built_in_session_labels() {
    assert_eq!(get_sessions(), vec![(String::from("shell"), 0u8), (String::from("startx"), 1u8)]);
}

#[test]
fn copies_are_equal() {
    assert_eq!(alice().duplicate(), alice());
    let session = Session::default_shell();
    assert_eq!(session.duplicate(), session);
}
