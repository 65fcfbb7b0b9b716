use xcommand::command::ExecImage;
use xcommand::text::is_nul_free;
use xcommand::{EnvVar, XCommand, XCommandBuilder, XError};

fn pair(k: &str, v: &str) -> (String, String) {
    (k.to_string(), v.to_string())
}

fn strings(image: &[String]) -> Vec<&str> {
    image.iter().map(|s| s.as_str()).collect()
}

#[test]
fn nul_free_accepts_plain_text() {
    assert!(is_nul_free(""));
    assert!(is_nul_free("hello"));
    assert!(is_nul_free("caf\u{e9} \u{1F600}"));
}

#[test]
fn nul_free_refuses_terminator_anywhere() {
    assert!(!is_nul_free("\0"));
    assert!(!is_nul_free("\0abc"));
    assert!(!is_nul_free("ab\0c"));
    assert!(!is_nul_free("abc\0"));
}

#[test]
fn env_var_from_valid_pair() {
    let var = EnvVar::from_str_pair("HOME", "/root").unwrap();
    assert_eq!(var.key(), "HOME");
    assert_eq!(var.value(), "/root");
    assert_eq!(var.formatted(), "HOME=/root");
}

#[test]
fn env_var_with_empty_parts() {
    let var = EnvVar::from_str_pair("", "").unwrap();
    assert_eq!(var.formatted(), "=");
}

#[test]
fn env_var_refuses_terminator_in_key() {
    assert_eq!(EnvVar::from_str_pair("K\0EY", "v").err(), Some(XError::InvalidString));
}

#[test]
fn env_var_refuses_terminator_in_value() {
    assert_eq!(EnvVar::from_str_pair("KEY", "v\0").err(), Some(XError::InvalidString));
}

#[test]
fn env_var_value_may_hold_the_separator() {
    let var = EnvVar::from_str_pair("A", "b=c").unwrap();
    assert_eq!(var.key(), "A");
    assert_eq!(var.value(), "b=c");
    assert_eq!(var.formatted(), "A=b=c");
}

#[test]
fn clean_environment_has_no_variables() {
    let command = XCommandBuilder::clean_environment("/bin/echo").build();
    assert_eq!(command.executable(), "/bin/echo");
    assert_eq!(command.arg_count(), 0);
    assert_eq!(command.env_count(), 0);
    let image: ExecImage = command.exec();
    assert_eq!(image.path, "/bin/echo");
    assert_eq!(strings(&image.argv), vec!["/bin/echo"]);
    assert!(image.envp.is_empty());
}

#[test]
fn inherit_environment_copies_every_variable_in_order() {
    let inherited = vec![pair("PATH", "/usr/bin"), pair("LANG", "C"), pair("PATH", "/bin")];
    let command = XCommandBuilder::inherit_environment("/bin/ls", &inherited).unwrap().build();
    assert_eq!(command.env_count(), 3);
    assert_eq!(command.env_at(0).key(), "PATH");
    assert_eq!(command.env_at(0).value(), "/usr/bin");
    assert_eq!(command.env_at(2).value(), "/bin");
    let image = command.exec();
    assert_eq!(strings(&image.envp), vec!["PATH=/usr/bin", "LANG=C", "PATH=/bin"]);
}

#[test]
fn new_inherits_like_inherit_environment() {
    let inherited = vec![pair("A", "1")];
    let command = XCommandBuilder::new("/bin/true", &inherited).unwrap().build();
    assert_eq!(strings(&command.exec().envp), vec!["A=1"]);
    let other = XCommand::builder("/bin/true", &inherited).unwrap().build();
    assert_eq!(strings(&other.exec().envp), vec!["A=1"]);
    assert_eq!(other.executable(), "/bin/true");
}

#[test]
fn inherit_environment_refuses_invalid_variable() {
    let inherited = vec![pair("A", "1"), pair("B", "x\0y")];
    assert_eq!(
        XCommandBuilder::inherit_environment("/bin/ls", &inherited).err(),
        Some(XError::InvalidString)
    );
    let inherited = vec![pair("\0", "1")];
    assert_eq!(XCommandBuilder::new("/bin/ls", &inherited).err(), Some(XError::InvalidString));
}

#[test]
fn arg_appends() {
    let command = XCommandBuilder::clean_environment("/bin/echo")
        .arg("-n")
        .unwrap()
        .arg("hello")
        .unwrap()
        .build();
    assert_eq!(command.arg_count(), 2);
    assert_eq!(command.arg_at(0), "-n");
    assert_eq!(command.arg_at(1), "hello");
    assert_eq!(strings(&command.exec().argv), vec!["/bin/echo", "-n", "hello"]);
}

#[test]
fn arg_refuses_terminator() {
    let r = XCommandBuilder::clean_environment("/bin/echo").arg("a\0b");
    assert_eq!(r.err(), Some(XError::InvalidString));
}

#[test]
fn args_replaces_the_whole_list() {
    let command = XCommandBuilder::clean_environment("/bin/echo")
        .arg("old")
        .unwrap()
        .args(&["x", "y", "z"])
        .unwrap()
        .build();
    assert_eq!(strings(&command.exec().argv), vec!["/bin/echo", "x", "y", "z"]);
    let emptied = XCommandBuilder::clean_environment("/bin/echo")
        .arg("old")
        .unwrap()
        .args(&[])
        .unwrap()
        .build();
    assert_eq!(emptied.arg_count(), 0);
}

#[test]
fn args_refuses_terminator() {
    let r = XCommandBuilder::clean_environment("/bin/echo").args(&["fine", "no\0pe"]);
    assert_eq!(r.err(), Some(XError::InvalidString));
}

#[test]
fn var_and_env_append_without_merging() {
    let inherited = vec![pair("A", "1")];
    let command = XCommandBuilder::inherit_environment("/bin/env", &inherited)
        .unwrap()
        .var("A", "2")
        .unwrap()
        .env(&vec![pair("B", "3"), pair("A", "4")])
        .unwrap()
        .arg("-0")
        .unwrap()
        .build();
    assert_eq!(strings(&command.exec().envp), vec!["A=1", "A=2", "B=3", "A=4"]);
    assert_eq!(strings(&command.exec().argv), vec!["/bin/env", "-0"]);
}

#[test]
fn var_refuses_terminator() {
    let r = XCommandBuilder::clean_environment("/bin/env").var("K", "\0");
    assert_eq!(r.err(), Some(XError::InvalidString));
    let r = XCommandBuilder::clean_environment("/bin/env").var("K\0", "v");
    assert_eq!(r.err(), Some(XError::InvalidString));
}

#[test]
fn env_refuses_all_when_one_is_invalid() {
    let r = XCommandBuilder::clean_environment("/bin/env").env(&vec![pair("A", "1"), pair("B\0", "2")]);
    assert_eq!(r.err(), Some(XError::InvalidString));
}

#[test]
fn command_new_keeps_its_parts() {
    let env = vec![EnvVar::from_str_pair("K", "V").unwrap()];
    let command = XCommand::new("/bin/sh".to_string(), vec!["-c".to_string(), "exit 7".to_string()], env);
    let image = command.exec();
    assert_eq!(image.path, "/bin/sh");
    assert_eq!(strings(&image.argv), vec!["/bin/sh", "-c", "exit 7"]);
    assert_eq!(strings(&image.envp), vec!["K=V"]);
}
