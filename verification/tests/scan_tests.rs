use modman::models::ModFile;
use modman::scanner::{parse_mod_metadata, scan_mods};

fn make_zip(entries: &[(&str, &str)]) -> Vec<u8> {
    let mut w = zip::ZipWriter::new(std::io::Cursor::new(Vec::new()));
    for (name, content) in entries {
        w.start_file(*name, zip::write::SimpleFileOptions::default())
            .unwrap();
        std::io::Write::write_all(&mut w, content.as_bytes()).unwrap();
    }
    w.finish().unwrap().into_inner()
}

fn entry(file_name: &str, data: Vec<u8>) -> ModFile {
    ModFile {
        file_name: file_name.to_string(),
        file_path: format!("/mods/{}", file_name),
        data,
    }
}

#[test]
fn fabric_descriptor_name_falls_back_to_id() {
    let data = make_zip(&[(
        "fabric.mod.json",
        r#"{"id":"sodium","version":"0.5.8","description":"Rendering engine","authors":["JellySquid"]}"#,
    )]);
    let records = scan_mods(&vec![entry("Sodium.jar", data)]);
    assert_eq!(records.len(), 1);
    let m = &records[0];
    assert_eq!(m.id, "sodium");
    assert_eq!(m.name, "sodium");
    assert_eq!(m.version, "0.5.8");
    assert_eq!(m.description, "Rendering engine");
    assert_eq!(m.authors, vec!["JellySquid".to_string()]);
    assert!(m.enabled);
    assert_eq!(m.file_name, "Sodium.jar");
    assert_eq!(m.file_path, "/mods/Sodium.jar");
}

#[test]
fn fabric_descriptor_defaults() {
    let data = make_zip(&[("fabric.mod.json", r#"{"id":"tiny"}"#)]);
    let m = parse_mod_metadata(&data, "Tiny.jar", "/mods/Tiny.jar", true).unwrap();
    assert_eq!(m.name, "tiny");
    assert_eq!(m.version, "0.0.0");
    assert_eq!(m.description, "");
    assert_eq!(m.authors, Vec::<String>::new());
}

#[test]
fn fabric_authors_single_string() {
    let data = make_zip(&[(
        "fabric.mod.json",
        r#"{"id":"solo","authors":"One Person"}"#,
    )]);
    let m = parse_mod_metadata(&data, "Solo.jar", "/mods/Solo.jar", true).unwrap();
    assert_eq!(m.authors, vec!["One Person".to_string()]);
}

#[test]
fn fabric_authors_mixed_array_skips_nonconforming() {
    let data = make_zip(&[(
        "fabric.mod.json",
        r#"{"id":"mix","authors":["Ada",{"name":"Grace","contact":"x"},{"role":"helper"},7]}"#,
    )]);
    let m = parse_mod_metadata(&data, "Mix.jar", "/mods/Mix.jar", true).unwrap();
    assert_eq!(m.authors, vec!["Ada".to_string(), "Grace".to_string()]);
}

#[test]
fn disabled_file_is_reported_disabled() {
    let data = make_zip(&[(
        "fabric.mod.json",
        r#"{"id":"optifine","name":"OptiFine","version":"1.0"}"#,
    )]);
    let records = scan_mods(&vec![entry("OptiFine.jar.disabled", data)]);
    assert_eq!(records.len(), 1);
    assert!(!records[0].enabled);
    assert_eq!(records[0].file_name, "OptiFine.jar.disabled");
    let renamed = modman::file_ops::toggle_file_name(&records[0].file_name, true);
    assert_eq!(renamed, "OptiFine.jar");
}

#[test]
fn archive_without_known_manifest_yields_no_record() {
    let data = make_zip(&[("META-INF/MANIFEST.MF", "Manifest-Version: 1.0\n")]);
    assert!(parse_mod_metadata(&data, "Plain.jar", "/mods/Plain.jar", true).is_none());
    let records = scan_mods(&vec![entry("Plain.jar", data)]);
    assert!(records.is_empty());
}

#[test]
fn corrupt_archive_does_not_abort_scan() {
    let good = make_zip(&[("fabric.mod.json", r#"{"id":"ok"}"#)]);
    let files = vec![
        entry("Broken.jar", vec![1, 2, 3, 4, 5]),
        entry("Good.jar", good),
    ];
    let records = scan_mods(&files);
    assert_eq!(records.len(), 1);
    assert_eq!(records[0].id, "ok");
}

#[test]
fn other_extensions_are_skipped() {
    let data = make_zip(&[("fabric.mod.json", r#"{"id":"hidden"}"#)]);
    let files = vec![
        entry("notes.txt", data.clone()),
        entry(".disabled", data.clone()),
        entry("real.jar", data),
    ];
    let records = scan_mods(&files);
    assert_eq!(records.len(), 1);
    assert_eq!(records[0].file_name, "real.jar");
}

#[test]
fn table_descriptor_uses_first_mods_entry_only() {
    let text = "[[mods]]\nmodId = \"alpha\"\ndisplayName = \"Alpha\"\nversion = \"1.2.3\"\nauthors = \"A. Author\"\ndescription = \"First entry\"\n\n[[mods]]\nmodId = \"beta\"\nversion = \"9.9.9\"\n";
    let data = make_zip(&[("META-INF/mods.toml", text)]);
    let m = parse_mod_metadata(&data, "Alpha.jar", "/mods/Alpha.jar", true).unwrap();
    assert_eq!(m.id, "alpha");
    assert_eq!(m.name, "Alpha");
    assert_eq!(m.version, "1.2.3");
    assert_eq!(m.description, "First entry");
    assert_eq!(m.authors, vec!["A. Author".to_string()]);
}

#[test]
fn table_descriptor_defaults() {
    let data = make_zip(&[("META-INF/mods.toml", "[[mods]]\n")]);
    let m = parse_mod_metadata(&data, "Bare.jar", "/mods/Bare.jar", true).unwrap();
    assert_eq!(m.id, "unknown");
    assert_eq!(m.name, "unknown");
    assert_eq!(m.version, "0.0.0");
    assert_eq!(m.description, "");
    assert_eq!(m.authors, vec!["".to_string()]);
}

#[test]
fn neoforge_manifest_entry_is_recognized() {
    let text = "[[mods]]\nmodId = \"neo\"\ndisplayName = \"Neo Mod\"\n";
    let data = make_zip(&[("META-INF/neoforge.mods.toml", text)]);
    let m = parse_mod_metadata(&data, "Neo.jar", "/mods/Neo.jar", true).unwrap();
    assert_eq!(m.id, "neo");
    assert_eq!(m.name, "Neo Mod");
}

#[test]
fn fabric_without_id_falls_through_to_table_dialect() {
    let data = make_zip(&[
        ("fabric.mod.json", r#"{"name":"No id here"}"#),
        ("META-INF/mods.toml", "[[mods]]\nmodId = \"fallback\"\n"),
    ]);
    let m = parse_mod_metadata(&data, "Fallback.jar", "/mods/Fallback.jar", true).unwrap();
    assert_eq!(m.id, "fallback");
}

#[test]
fn empty_mods_array_yields_no_record() {
    let data = make_zip(&[("META-INF/mods.toml", "mods = []\n")]);
    assert!(parse_mod_metadata(&data, "Empty.jar", "/mods/Empty.jar", true).is_none());
}

#[test]
fn present_mods_toml_shadows_neoforge_entry() {
    let data = make_zip(&[
        ("META-INF/mods.toml", "mods = []\n"),
        ("META-INF/neoforge.mods.toml", "[[mods]]\nmodId = \"neo\"\n"),
    ]);
    assert!(parse_mod_metadata(&data, "Shadow.jar", "/mods/Shadow.jar", true).is_none());
}

#[test]
fn invalid_mods_toml_is_not_stepped_over() {
    let data = make_zip(&[
        ("META-INF/mods.toml", "not = valid = toml\n"),
        ("META-INF/neoforge.mods.toml", "[[mods]]\nmodId = \"neo\"\n"),
    ]);
    assert!(parse_mod_metadata(&data, "Broken.jar", "/mods/Broken.jar", true).is_none());
}

#[test]
fn non_array_mods_value_yields_no_record() {
    let data = make_zip(&[("META-INF/mods.toml", "mods = \"oops\"\n")]);
    assert!(parse_mod_metadata(&data, "Odd.jar", "/mods/Odd.jar", true).is_none());
}

#[test]
fn fabric_authors_object_shape_gives_no_authors() {
    let data = make_zip(&[(
        "fabric.mod.json",
        r#"{"id":"objauth","authors":{"name":"Not a list"}}"#,
    )]);
    let m = parse_mod_metadata(&data, "Obj.jar", "/mods/Obj.jar", true).unwrap();
    assert_eq!(m.authors, Vec::<String>::new());
}

#[test]
fn invalid_manifest_json_yields_no_record() {
    let data = make_zip(&[("fabric.mod.json", "{ not json")]);
    assert!(parse_mod_metadata(&data, "Bad.jar", "/mods/Bad.jar", true).is_none());
}
