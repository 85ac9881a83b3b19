use bitsrun::user::dm_unspecified;
use bitsrun::user::BitUserPartial;

#[test]
fn partial_new_copies_fields() {
    let p = BitUserPartial::new(&Some("u".to_string()), &None, Some(true));
    assert_eq!(p.username.as_deref(), Some("u"));
    assert_eq!(p.password, None);
    assert_eq!(p.dm, Some(true));
}

#[test]
fn config_needed_when_fields_missing() {
    let both = BitUserPartial::new(&Some("u".to_string()), &Some("p".to_string()), Some(false));
    assert!(!both.needs_config(true));
    let no_pass = BitUserPartial::new(&Some("u".to_string()), &None, Some(false));
    assert!(no_pass.needs_config(true));
    assert!(!no_pass.needs_config(false));
    let no_user = BitUserPartial::new(&None, &Some("p".to_string()), Some(false));
    assert!(no_user.needs_config(false));
}

#[test]
fn command_line_wins_over_file() {
    let mut p = BitUserPartial::new(&Some("cli".to_string()), &None, Some(false));
    let file = BitUserPartial {
        username: Some("file".to_string()),
        password: Some("secret".to_string()),
        dm: Some(true),
    };
    p.fill_from(file);
    assert_eq!(p.username.as_deref(), Some("cli"));
    assert_eq!(p.password.as_deref(), Some("secret"));
    assert_eq!(p.dm, Some(false));
    let u = p.finalize();
    assert_eq!(u.username, "cli");
    assert_eq!(u.password, "secret");
    assert!(!u.dm);
}

#[test]
fn missing_password_is_empty_when_not_required() {
    let mut p = BitUserPartial::new(&Some("u".to_string()), &None, Some(true));
    p.fill_from(BitUserPartial::default());
    assert!(!p.password_prompt_needed(false));
    assert!(p.password_prompt_needed(true));
    let u = p.finalize();
    assert_eq!(u.password, "");
    assert!(u.dm);
}

#[test]
fn dm_warning_only_when_unset_everywhere() {
    assert!(dm_unspecified(&BitUserPartial::default(), false));
    assert!(!dm_unspecified(&BitUserPartial::default(), true));
    let file = BitUserPartial { username: None, password: None, dm: Some(false) };
    assert!(!dm_unspecified(&file, false));
}
