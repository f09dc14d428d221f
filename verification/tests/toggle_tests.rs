use modman::file_ops::{check_install_source, toggle_file_name};

#[test]
fn disable_appends_marker() {
    assert_eq!(toggle_file_name("Sodium.jar", false), "Sodium.jar.disabled");
}

#[test]
fn disable_then_enable_restores_name() {
    let disabled = toggle_file_name("Sodium.jar", false);
    assert_eq!(disabled, "Sodium.jar.disabled");
    let enabled = toggle_file_name(&disabled, true);
    assert_eq!(enabled, "Sodium.jar");
}

#[test]
fn disable_already_disabled_is_noop() {
    assert_eq!(
        toggle_file_name("Sodium.jar.disabled", false),
        "Sodium.jar.disabled"
    );
}

#[test]
fn enable_without_marker_is_noop() {
    assert_eq!(toggle_file_name("Sodium.jar", true), "Sodium.jar");
    assert_eq!(toggle_file_name("readme.txt", true), "readme.txt");
}

#[test]
fn enable_disabled_optifine_strips_marker() {
    assert_eq!(
        toggle_file_name("OptiFine.jar.disabled", true),
        "OptiFine.jar"
    );
}

#[test]
fn install_rejects_non_jar_source() {
    assert_eq!(
        check_install_source("mod.zip"),
        Err("Only .jar files are allowed".to_string())
    );
    assert_eq!(
        check_install_source("mod.JAR"),
        Err("Only .jar files are allowed".to_string())
    );
}

#[test]
fn install_rejects_source_without_extension() {
    assert_eq!(
        check_install_source("archive"),
        Err("Invalid file extension".to_string())
    );
    assert_eq!(
        check_install_source(".jar"),
        Err("Invalid file extension".to_string())
    );
}

#[test]
fn install_accepts_jar_source() {
    assert_eq!(check_install_source("Sodium.jar"), Ok(()));
    assert_eq!(check_install_source("my.mod.jar"), Ok(()));
}
