use bine::window::{WindowConfig, WindowError};

#[test]
fn a_new_config_defaults_to_resizable_vsynced_windowed() {
    let config = WindowConfig::new("Demo Game", 1_980, 1_680);
    assert_eq!(config.title, "Demo Game");
    assert_eq!(config.width, 1_980);
    assert_eq!(config.height, 1_680);
    assert!(config.resizable);
    assert!(config.vsync);
    assert!(!config.fullscreen);
}

#[test]
fn the_builders_replace_exactly_one_field() {
    let config = WindowConfig::new("t", 10, 20).resizable(false).vsync(false);
    assert!(!config.resizable);
    assert!(!config.vsync);
    assert_eq!(config.title, "t");
    assert_eq!(config.width, 10);
    assert_eq!(config.height, 20);
    assert!(!config.fullscreen);

    let config = WindowConfig::new("t", 10, 20).vsync(false);
    assert!(config.resizable);
    assert!(!config.vsync);
}

#[test]
fn window_errors_describe_their_kind_and_keep_their_detail() {
    let error = WindowError::CreationFailed(String::from("no display"));
    assert_eq!(error.describe(), "window creation failed");
    match error {
        WindowError::CreationFailed(detail) => assert_eq!(detail, "no display"),
        _ => panic!("wrong variant"),
    }
    assert_eq!(WindowError::BackendError(String::new()).describe(), "backend error");
    assert_eq!(WindowError::InvalidConfig(String::new()).describe(), "invalid configuration");
}
