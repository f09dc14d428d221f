use modman::launcher::parse_launcher_profiles;

#[test]
fn parses_profiles_and_resolves_mods_dirs() {
    let text = "{\"profiles\":{\"a1\":{\"name\":\"Fabric\",\"gameDir\":\"/data/fabric\"},\"b2\":{}}}";
    let ps = parse_launcher_profiles(text, "/data/.minecraft").unwrap();
    assert_eq!(ps.len(), 2);
    assert_eq!(ps[0].id, "a1");
    assert_eq!(ps[0].name, "Fabric");
    assert_eq!(ps[0].mods_dir, "/data/fabric/mods");
    assert_eq!(ps[1].id, "b2");
    assert_eq!(ps[1].name, "Unnamed Profile");
    assert_eq!(ps[1].mods_dir, "/data/.minecraft/mods");
}

#[test]
fn non_text_game_dir_falls_back_to_base() {
    let text = "{\"profiles\":{\"p\":{\"name\":\"N\",\"gameDir\":42}}}";
    let ps = parse_launcher_profiles(text, "/base").unwrap();
    assert_eq!(ps.len(), 1);
    assert_eq!(ps[0].mods_dir, "/base/mods");
}

#[test]
fn base_dir_with_trailing_separator_gets_no_second_one() {
    let text = "{\"profiles\":{\"p\":{}}}";
    let ps = parse_launcher_profiles(text, "/base/").unwrap();
    assert_eq!(ps[0].mods_dir, "/base/mods");
}

#[test]
fn invalid_json_is_an_error() {
    let r = parse_launcher_profiles("not json at all", "/base");
    assert_eq!(
        r.err().unwrap(),
        "Failed to parse launcher_profiles.json".to_string()
    );
}

#[test]
fn non_object_profile_entry_gets_all_defaults() {
    let text = "{\"profiles\":{\"p\":5}}";
    let ps = parse_launcher_profiles(text, "/base").unwrap();
    assert_eq!(ps.len(), 1);
    assert_eq!(ps[0].id, "p");
    assert_eq!(ps[0].name, "Unnamed Profile");
    assert_eq!(ps[0].mods_dir, "/base/mods");
}

#[test]
fn missing_profiles_mapping_yields_no_profiles() {
    let ps = parse_launcher_profiles("{}", "/base").unwrap();
    assert!(ps.is_empty());
    let ps = parse_launcher_profiles("{\"profiles\":[]}", "/base").unwrap();
    assert!(ps.is_empty());
}
