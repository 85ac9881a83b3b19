use bitsrun::config::config_paths;
use bitsrun::config::permissions_private;
use bitsrun::config::pick_config_path;

fn s(x: &str) -> String {
    x.to_string()
}

#[test]
fn linux_paths_prefer_xdg() {
    let p = config_paths("linux", None, Some(s("/x")), Some(s("/home/u")));
    assert_eq!(
        p,
        vec![
            s("/x/.config/bit-user.json"),
            s("/x/.config/bitsrun/bit-user.json"),
            s("bit-user.json"),
        ]
    );
}

#[test]
fn macos_and_windows_paths() {
    let p = config_paths("macos", None, None, Some(s("/Users/u")));
    assert_eq!(
        p,
        vec![
            s("/Users/u/.config/bit-user.json"),
            s("/Users/u/.config/bitsrun/bit-user.json"),
            s("/Users/u/Library/Preferences/bitsrun/bit-user.json"),
            s("bit-user.json"),
        ]
    );
    let p = config_paths("windows", Some(s("C:\\AppData")), None, None);
    assert_eq!(p, vec![s("C:\\AppData\\bitsrun\\bit-user.json"), s("bit-user.json")]);
}

#[test]
fn given_path_or_first_existing() {
    let c = vec![s("a"), s("b"), s("c")];
    assert_eq!(pick_config_path(&Some(s("x")), &c, &vec![true, true, true]), "x");
    assert_eq!(pick_config_path(&None, &c, &vec![false, true, true]), "b");
    assert_eq!(pick_config_path(&None, &c, &vec![false, false, false]), "");
}

#[test]
fn only_owner_read_write_is_private() {
    assert!(permissions_private(0o100600));
    assert!(!permissions_private(0o100644));
    assert!(!permissions_private(0o100700));
}
