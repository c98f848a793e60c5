use autotext::paths::{data_dir, database_path, settings_path};

#[test]
fn data_dir_uses_home_first() {
    let d = data_dir(Some("/home/ann".to_string()), Some("C:\\Users\\ann".to_string()), '/');
    assert_eq!(d, "/home/ann/.autotext");
}

#[test]
fn data_dir_falls_back_to_user_profile() {
    let d = data_dir(None, Some("C:\\Users\\ann".to_string()), '\\');
    assert_eq!(d, "C:\\Users\\ann\\.autotext");
}

#[test]
fn data_dir_falls_back_to_current_directory() {
    assert_eq!(data_dir(None, None, '/'), "./.autotext");
}

#[test]
fn data_dir_adds_no_second_separator() {
    assert_eq!(data_dir(Some("/home/ann/".to_string()), None, '/'), "/home/ann/.autotext");
    assert_eq!(data_dir(Some("".to_string()), None, '/'), ".autotext");
    assert_eq!(data_dir(Some("C:\\dir/".to_string()), None, '\\'), "C:\\dir/.autotext");
}

#[test]
fn data_dir_on_a_bare_drive_has_no_separator() {
    assert_eq!(data_dir(Some("C:".to_string()), None, '\\'), "C:.autotext");
    assert_eq!(data_dir(Some("C:".to_string()), None, '/'), "C:/.autotext");
    assert_eq!(data_dir(Some("1:".to_string()), None, '\\'), "1:\\.autotext");
}

#[test]
fn database_files_live_in_the_data_dir() {
    assert_eq!(settings_path("/home/ann/.autotext", '/'), "/home/ann/.autotext/settings.db");
    assert_eq!(database_path("/home/ann/.autotext", '/'), "/home/ann/.autotext/database.db");
}

#[test]
fn paths_agree_with_std_path_push() {
    let mut p = std::path::PathBuf::from("/tmp/some dir");
    p.push(".autotext");
    assert_eq!(
        data_dir(Some("/tmp/some dir".to_string()), None, std::path::MAIN_SEPARATOR),
        p.to_string_lossy().to_string()
    );
}
