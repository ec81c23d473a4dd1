use tuilog::error::TUILogError;
use tuilog::session::{
    advance_stage, auth_user, build_catalog, set_process_ids, spawn_shell_session, start_session,
    Account, AuthStep, DropStep, LaunchStep, Login, Operation, Progress, Reply, Session, Stage,
};

fn alice() -> Account {
    Account {
        name: String::from("alice"),
        uid: 1000,
        gid: 100,
        home: String::from("/home/alice"),
        shell: String::from("/bin/bash"),
    }
}

fn begin() -> Login {
    let catalog = build_catalog(&Vec::new());
    match start_session(&catalog, String::from("alice"), String::from("hunter2"), 0) {
        Ok(login) => login,
        Err(error) => panic!("refused: {}", error.message()),
    }
}

/// Runs an attempt over the replies and returns every operation that was
/// asked for, the one after the last reply included.
fn run(mut login: Login, replies: Vec<Reply>) -> (Login, Vec<Operation>) {
    let mut asked = vec![login.operation()];
    for reply in replies {
        assert!(login.is_well_formed());
        login = login.advance(reply);
        asked.push(login.operation());
    }
    (login, asked)
}

fn authenticated() -> Vec<Reply> {
    vec![Reply::Done, Reply::Done, Reply::Done, Reply::Account(alice()), Reply::Done, Reply::Done]
}

fn in_child() -> Vec<Reply> {
    let mut replies = authenticated();
    replies.push(Reply::Child);
    replies
}

fn is_launch_operation(operation: &Operation) -> bool {
    !matches!(
        operation,
        Operation::SaveDefaults { .. }
            | Operation::OpenTransaction { .. }
            | Operation::VerifyCredentials { .. }
            | Operation::ResolveAccount { .. }
            | Operation::OpenAccounting
            | Operation::ReleaseScreen
            | Operation::Report { .. }
    )
}

#[test]
fn out_of_range_choice_is_refused_before_anything_else() {
    let catalog = build_catalog(&Vec::new());
    assert_eq!(catalog.len(), 1);
    let refused = start_session(&catalog, String::from("alice"), String::from("hunter2"), 1);
    assert_eq!(refused, Err(TUILogError::InvalidSessionOption));
    let far = start_session(&catalog, String::from("alice"), String::from("hunter2"), usize::MAX);
    assert_eq!(far, Err(TUILogError::InvalidSessionOption));
    let empty: Vec<Session> = Vec::new();
    let none = start_session(&empty, String::from("alice"), String::from("hunter2"), 0);
    assert_eq!(none, Err(TUILogError::InvalidSessionOption));
}

#[test]
fn attempt_starts_by_saving_the_defaults() {
    let login = begin();
    assert_eq!(login.stage, Stage::SaveDefaults);
    assert_eq!(login.account, None);
    assert_eq!(login.terminal, None);
    assert_eq!(login.session, Session::default_shell());
    assert_eq!(
        login.operation(),
        Operation::SaveDefaults {
            username: String::from("alice"),
            session_name: String::from("shell"),
        }
    );
}

#[test]
fn launcher_runs_to_the_report() {
    let mut replies = authenticated();
    replies.push(Reply::Parent(4242));
    replies.push(Reply::Done);
    replies.push(Reply::Done);
    let (login, asked) = run(begin(), replies);
    assert_eq!(login.stage, Stage::Finished { failure: None });
    assert_eq!(
        asked,
        vec![
            Operation::SaveDefaults {
                username: String::from("alice"),
                session_name: String::from("shell"),
            },
            Operation::OpenTransaction { service: String::from("tuilog") },
            Operation::VerifyCredentials {
                username: String::from("alice"),
                secret: String::from("hunter2"),
            },
            Operation::ResolveAccount { username: String::from("alice") },
            Operation::OpenAccounting,
            Operation::ReleaseScreen,
            Operation::Fork,
            Operation::WaitChild { child: 4242 },
            Operation::CloseTransaction,
            Operation::Report { failure: None },
        ]
    );
}

#[test]
fn child_runs_to_the_session_program() {
    let mut replies = in_child();
    replies.extend(vec![
        Reply::Done,
        Reply::Terminal(String::from("/dev/tty2")),
        Reply::Done,
        Reply::Descriptor(5),
        Reply::Done,
        Reply::Done,
        Reply::Done,
        Reply::Done,
        Reply::Failed,
        Reply::Done,
        Reply::Done,
        Reply::Done,
        Reply::Done,
    ]);
    let (login, asked) = run(begin(), replies);
    assert_eq!(login.stage, Stage::Launch(LaunchStep::ReplaceImage));
    let child: Vec<Operation> = asked[7..].to_vec();
    assert_eq!(
        child,
        vec![
            Operation::BecomeSessionLeader,
            Operation::IdentifyTerminal,
            Operation::ChownTerminal { path: String::from("/dev/tty2"), uid: 1000, gid: 100 },
            Operation::OpenTerminal { path: String::from("/dev/tty2") },
            Operation::ClaimTerminal { descriptor: 5 },
            Operation::Redirect { descriptor: 5, stream: 0 },
            Operation::Redirect { descriptor: 5, stream: 1 },
            Operation::Redirect { descriptor: 5, stream: 2 },
            Operation::CloseDescriptor { descriptor: 5 },
            Operation::InitGroups { name: String::from("alice"), gid: 100 },
            Operation::SetGid { gid: 100 },
            Operation::SetUid { uid: 1000 },
            Operation::ApplyEnvironment {
                variables: vec![
                    (String::from("USER"), String::from("alice")),
                    (String::from("LOGNAME"), String::from("alice")),
                    (String::from("HOME"), String::from("/home/alice")),
                    (String::from("SHELL"), String::from("/bin/bash")),
                    (String::from("TERM"), String::from("linux")),
                    (String::from("XDG_SESSION_TYPE"), String::from("tty")),
                    (String::from("XDG_RUNTIME_DIR"), String::from("/run/user/1000")),
                ],
                directory: String::from("/home/alice"),
            },
            Operation::ReplaceImage {
                arguments: vec![
                    String::from("/bin/bash"),
                    String::from("-l"),
                    String::from("-c"),
                    String::from("stty sane; tput sgr0; tput cnorm; clear; exec /bin/bash -l"),
                ],
            },
        ]
    );
}

#[test]
fn image_that_was_not_replaced_ends_the_child() {
    let (login, _) = run(
        Login {
            stage: Stage::Launch(LaunchStep::ReplaceImage),
            account: Some(alice()),
            ..begin()
        },
        vec![Reply::Done],
    );
    assert_eq!(
        login.stage,
        Stage::Launch(LaunchStep::ExitChild { error: TUILogError::LaunchFailed })
    );
    assert_eq!(login.operation(), Operation::ExitChild { error: TUILogError::LaunchFailed });
    let stays = login.advance(Reply::Done);
    assert_eq!(
        stays.stage,
        Stage::Launch(LaunchStep::ExitChild { error: TUILogError::LaunchFailed })
    );
}

#[test]
fn rejected_credentials_are_unauthorized_and_nothing_is_launched() {
    for reply in vec![
        Reply::Failed,
        Reply::Child,
        Reply::Parent(1),
        Reply::Account(alice()),
        Reply::Descriptor(3),
        Reply::Terminal(String::from("/dev/tty1")),
    ] {
        let replies =
            vec![Reply::Done, Reply::Done, reply, Reply::Done, Reply::Child, Reply::Parent(7)];
        let (login, asked) = run(begin(), replies);
        assert_eq!(login.stage, Stage::Finished { failure: Some(TUILogError::Unauthorized) });
        assert!(asked.iter().all(|operation| !is_launch_operation(operation)));
        assert_eq!(
            asked.last(),
            Some(&Operation::Report { failure: Some(TUILogError::Unauthorized) })
        );
    }
}

#[test]
fn each_authentication_step_fails_with_its_kind() {
    let cases = vec![
        (1usize, TUILogError::AuthenticationFailed),
        (2usize, TUILogError::Unauthorized),
        (3usize, TUILogError::UserNotFound),
        (4usize, TUILogError::AuthenticationFailed),
    ];
    for (position, error) in cases {
        let mut replies = authenticated();
        replies[position] = Reply::Failed;
        let (login, asked) = run(begin(), replies);
        assert_eq!(login.stage, Stage::Finished { failure: Some(error) });
        assert!(asked.iter().all(|operation| !is_launch_operation(operation)));
    }
}

#[test]
fn saving_the_defaults_and_releasing_the_screen_cannot_fail_the_attempt() {
    let mut replies = authenticated();
    replies[0] = Reply::Failed;
    replies[5] = Reply::Failed;
    let (login, _) = run(begin(), replies);
    assert_eq!(login.stage, Stage::Launch(LaunchStep::Fork));
}

#[test]
fn secret_is_dropped_after_verification() {
    let (before, _) = run(begin(), vec![Reply::Done, Reply::Done]);
    assert_eq!(before.secret, "hunter2");
    let after = before.advance(Reply::Done);
    assert_eq!(after.secret, "");
    assert_eq!(after.username, "alice");
    let (rejected, _) = run(begin(), vec![Reply::Done, Reply::Done, Reply::Failed]);
    assert_eq!(rejected.secret, "");
}

#[test]
fn account_is_kept_from_the_directory_only() {
    let (early, _) = run(begin(), vec![Reply::Done, Reply::Account(alice())]);
    assert_eq!(early.account, None);
    let (resolved, _) = run(begin(), vec![Reply::Done, Reply::Done, Reply::Done, Reply::Account(alice())]);
    assert_eq!(resolved.account, Some(alice()));
    assert_eq!(resolved.stage, Stage::Authenticate(AuthStep::OpenAccounting));
}

#[test]
fn failed_fork_closes_the_transaction_and_reports() {
    let mut replies = authenticated();
    replies.push(Reply::Failed);
    replies.push(Reply::Done);
    let (login, asked) = run(begin(), replies);
    assert_eq!(login.stage, Stage::Finished { failure: Some(TUILogError::LaunchFailed) });
    assert_eq!(asked[7], Operation::CloseTransaction);
    assert!(asked.iter().all(|operation| !matches!(
        operation,
        Operation::WaitChild { .. }
            | Operation::BecomeSessionLeader
            | Operation::ChownTerminal { .. }
            | Operation::SetUid { .. }
    )));
}

#[test]
fn failed_wait_still_closes_the_transaction_once() {
    let mut replies = authenticated();
    replies.push(Reply::Parent(99));
    replies.push(Reply::Failed);
    replies.push(Reply::Failed);
    replies.push(Reply::Done);
    let (login, asked) = run(begin(), replies);
    assert_eq!(login.stage, Stage::Finished { failure: Some(TUILogError::LaunchFailed) });
    let closings =
        asked.iter().filter(|operation| matches!(operation, Operation::CloseTransaction)).count();
    assert_eq!(closings, 1);
}

#[test]
fn transaction_is_closed_once_after_the_wait_and_never_in_the_child() {
    let mut parent = authenticated();
    parent.extend(vec![Reply::Parent(4242), Reply::Done, Reply::Done, Reply::Done, Reply::Done]);
    let (_, asked) = run(begin(), parent);
    let closings: Vec<usize> = asked
        .iter()
        .enumerate()
        .filter(|(_, operation)| matches!(operation, Operation::CloseTransaction))
        .map(|(position, _)| position)
        .collect();
    assert_eq!(closings, vec![8]);
    assert_eq!(asked[7], Operation::WaitChild { child: 4242 });

    let mut child = in_child();
    for _ in 0..40 {
        child.push(Reply::Done);
    }
    let (_, asked) = run(begin(), child);
    assert!(asked.iter().all(|operation| !matches!(
        operation,
        Operation::CloseTransaction | Operation::Report { .. } | Operation::WaitChild { .. }
    )));
}

#[test]
fn nothing_privileged_follows_the_uid_drop() {
    let mut replies = in_child();
    replies.extend(vec![
        Reply::Done,
        Reply::Terminal(String::from("/dev/tty2")),
        Reply::Done,
        Reply::Descriptor(1),
        Reply::Done,
        Reply::Done,
        Reply::Done,
        Reply::Done,
        Reply::Done,
        Reply::Done,
        Reply::Done,
        Reply::Failed,
        Reply::Done,
        Reply::Done,
    ]);
    let (login, asked) = run(begin(), replies);
    let dropped = asked
        .iter()
        .position(|operation| matches!(operation, Operation::SetUid { .. }));
    assert_eq!(dropped, Some(17));
    let gid = asked.iter().position(|operation| matches!(operation, Operation::SetGid { .. }));
    let groups =
        asked.iter().position(|operation| matches!(operation, Operation::InitGroups { .. }));
    assert_eq!(groups, Some(15));
    assert_eq!(gid, Some(16));
    assert!(asked[18..].iter().all(|operation| !matches!(
        operation,
        Operation::SetUid { .. }
            | Operation::SetGid { .. }
            | Operation::InitGroups { .. }
            | Operation::ChownTerminal { .. }
    )));
    assert_eq!(
        login.stage,
        Stage::Launch(LaunchStep::ExitChild { error: TUILogError::EnvironmentSetupFailed })
    );
}

#[test]
fn descriptor_that_is_a_standard_stream_is_not_closed() {
    assert_eq!(
        set_process_ids(DropStep::RedirectError { descriptor: 2 }, &Reply::Done),
        Progress::Next(DropStep::InitGroups)
    );
    assert_eq!(
        set_process_ids(DropStep::RedirectError { descriptor: 0 }, &Reply::Done),
        Progress::Next(DropStep::InitGroups)
    );
    assert_eq!(
        set_process_ids(DropStep::RedirectError { descriptor: 3 }, &Reply::Done),
        Progress::Next(DropStep::CloseDescriptor { descriptor: 3 })
    );
    assert_eq!(
        set_process_ids(DropStep::CloseDescriptor { descriptor: 3 }, &Reply::Failed),
        Progress::Next(DropStep::InitGroups)
    );
}

#[test]
fn each_transition_step_fails_with_its_kind() {
    let terminal = vec![
        DropStep::BecomeSessionLeader,
        DropStep::IdentifyTerminal,
        DropStep::ChownTerminal,
        DropStep::OpenTerminal,
        DropStep::ClaimTerminal { descriptor: 4 },
        DropStep::RedirectInput { descriptor: 4 },
        DropStep::RedirectOutput { descriptor: 4 },
        DropStep::RedirectError { descriptor: 4 },
    ];
    for step in terminal {
        assert_eq!(
            set_process_ids(step, &Reply::Failed),
            Progress::Failed(TUILogError::TerminalSetupFailed)
        );
    }
    for step in vec![DropStep::InitGroups, DropStep::SetGid, DropStep::SetUid] {
        assert_eq!(
            set_process_ids(step, &Reply::Failed),
            Progress::Failed(TUILogError::PrivilegeDropFailed)
        );
    }
    assert_eq!(
        set_process_ids(DropStep::OpenTerminal, &Reply::Descriptor(-1)),
        Progress::Failed(TUILogError::TerminalSetupFailed)
    );
    assert_eq!(
        set_process_ids(DropStep::OpenTerminal, &Reply::Done),
        Progress::Failed(TUILogError::TerminalSetupFailed)
    );
    assert_eq!(
        set_process_ids(DropStep::IdentifyTerminal, &Reply::Done),
        Progress::Failed(TUILogError::TerminalSetupFailed)
    );
    assert_eq!(set_process_ids(DropStep::SetUid, &Reply::Done), Progress::Complete);
    assert_eq!(set_process_ids(DropStep::SetGid, &Reply::Done), Progress::Next(DropStep::SetUid));
}

#[test]
fn failed_transition_step_exits_the_child() {
    let mut replies = in_child();
    replies.push(Reply::Done);
    replies.push(Reply::Failed);
    replies.push(Reply::Done);
    let (login, asked) = run(begin(), replies);
    assert_eq!(
        login.stage,
        Stage::Launch(LaunchStep::ExitChild { error: TUILogError::TerminalSetupFailed })
    );
    assert_eq!(
        asked.last(),
        Some(&Operation::ExitChild { error: TUILogError::TerminalSetupFailed })
    );
    assert!(asked.iter().all(|operation| !matches!(
        operation,
        Operation::SetUid { .. } | Operation::ReplaceImage { .. }
    )));
}

#[test]
fn component_steps_on_their_own() {
    assert_eq!(
        auth_user(AuthStep::OpenTransaction, &Reply::Done),
        Progress::Next(AuthStep::VerifyCredentials)
    );
    assert_eq!(
        auth_user(AuthStep::VerifyCredentials, &Reply::Failed),
        Progress::Failed(TUILogError::Unauthorized)
    );
    assert_eq!(
        auth_user(AuthStep::ResolveAccount, &Reply::Done),
        Progress::Failed(TUILogError::UserNotFound)
    );
    assert_eq!(auth_user(AuthStep::OpenAccounting, &Reply::Done), Progress::Complete);
    assert_eq!(
        spawn_shell_session(LaunchStep::Fork, &Reply::Parent(12)),
        Progress::Next(LaunchStep::WaitChild { child: 12 })
    );
    assert_eq!(
        spawn_shell_session(LaunchStep::Fork, &Reply::Child),
        Progress::Next(LaunchStep::DropPrivileges(DropStep::BecomeSessionLeader))
    );
    assert_eq!(
        spawn_shell_session(LaunchStep::CloseTransaction { failure: None }, &Reply::Failed),
        Progress::Complete
    );
    assert_eq!(
        spawn_shell_session(LaunchStep::DropPrivileges(DropStep::SetUid), &Reply::Done),
        Progress::Next(LaunchStep::ApplyEnvironment)
    );
    assert_eq!(
        advance_stage(Stage::Finished { failure: None }, &Reply::Child),
        Stage::Finished { failure: None }
    );
    assert_eq!(advance_stage(Stage::ReleaseScreen, &Reply::Failed), Stage::Launch(LaunchStep::Fork));
}

#[test]
fn well_formedness_is_told() {
    let login = begin();
    assert!(login.is_well_formed());
    let broken = Login { stage: Stage::Launch(LaunchStep::Fork), ..begin() };
    assert!(!broken.is_well_formed());
    let no_terminal = Login {
        stage: Stage::Launch(LaunchStep::DropPrivileges(DropStep::OpenTerminal)),
        account: Some(alice()),
        ..begin()
    };
    assert!(!no_terminal.is_well_formed());
}
