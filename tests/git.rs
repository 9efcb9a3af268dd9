use g_profiles::git::{
    config_path, configure_user, get_username_and_email, lock_path, lock_wait, scope, ssh_command,
    GitError, LockStep, Scope, LOCK_TIMEOUT_MS,
};
use g_profiles::paths::{cache_path, path_private, path_public, profile_path, profiles_dir, ssh_dir};
use g_profiles::profile::Profile;

#[test]
fn scope_choice() {
    assert_eq!(scope(false, true), Scope::Local);
    assert_eq!(scope(true, true), Scope::Global);
    assert_eq!(scope(false, false), Scope::Global);
    assert_eq!(scope(true, false), Scope::Global);
}

#[test]
fn config_paths() {
    assert_eq!(config_path(Scope::Global, "/home/u", "/repo"), "/home/u/.gitconfig");
    assert_eq!(config_path(Scope::Local, "/home/u", "/repo"), "/repo/.git/config");
    assert_eq!(lock_path("/home/u/.gitconfig"), "/home/u/.gitconfig.lock");
}

#[test]
fn lock_wait_steps() {
    assert_eq!(lock_wait(false, 0), LockStep::Proceed);
    assert_eq!(lock_wait(false, 1000), LockStep::Proceed);
    assert_eq!(lock_wait(true, 0), LockStep::Wait);
    assert_eq!(lock_wait(true, LOCK_TIMEOUT_MS), LockStep::TimedOut);
}

#[test]
fn ssh_command_points_at_the_private_key() {
    assert_eq!(ssh_command("/home/u", "work"), "ssh -i /home/u/.ssh/id_work -F /dev/null");
}

#[test]
fn settings_written_on_switch() {
    let p = Profile::new("test", "Test Profile", "em@i.l").unwrap();
    let entries = configure_user("/home/u", &p);
    let expected = vec![
        ("user.name".to_string(), "Test Profile".to_string()),
        ("user.email".to_string(), "em@i.l".to_string()),
        ("core.sshCommand".to_string(), "ssh -i /home/u/.ssh/id_test -F /dev/null".to_string()),
    ];
    assert_eq!(entries, expected);
}

#[test]
fn username_and_email_from_configuration() {
    let ok = get_username_and_email(Some("n".to_string()), Some("e".to_string())).unwrap();
    assert_eq!(ok, ("n".to_string(), "e".to_string()));
    match get_username_and_email(None, None) {
        Err(GitError::EmptyProperty(k)) => assert_eq!(k, "user.name"),
        other => panic!("unexpected {other:?}"),
    }
    match get_username_and_email(Some("n".to_string()), None) {
        Err(GitError::EmptyProperty(k)) => assert_eq!(k, "user.email"),
        other => panic!("unexpected {other:?}"),
    }
}

#[test]
fn file_locations() {
    assert_eq!(profiles_dir("/home/u"), "/home/u/.config/g-profiles");
    assert_eq!(profile_path("/home/u", "w"), "/home/u/.config/g-profiles/w");
    assert_eq!(cache_path("/home/u"), "/home/u/.config/g-profiles/.cache");
    assert_eq!(ssh_dir("/home/u"), "/home/u/.ssh");
    assert_eq!(path_private("/home/u", "w"), "/home/u/.ssh/id_w");
    assert_eq!(path_public("/home/u", "w"), "/home/u/.ssh/id_w.pub");
}
