use rigging::embed::backend::{convert_transport_url, servo_arguments};
use rigging::embed::builder::BrowserBuilder;
use rigging::embed::config::BrowserConfig;
use rigging::embed::events::{BrowserEvent, LoadState};
use rigging::embed::{
    is_browser_available, is_servo_available, is_webview_available, rigging_version,
    servo_version, EmbedError,
};

#[test]
fn test_convert_transport_url_empty() {
    assert!(convert_transport_url("").is_err());
}

#[test]
fn test_convert_transport_url_http() {
    let result = convert_transport_url("http://localhost/").unwrap();
    assert_eq!(result, "http://localhost/");
}

#[test]
fn test_convert_transport_url_explicit_tcp() {
    let result = convert_transport_url("http::tcp//localhost:8080/").unwrap();
    assert_eq!(result, "http://localhost:8080/");
}

#[test]
fn test_convert_transport_url_about() {
    let result = convert_transport_url("about:blank").unwrap();
    assert_eq!(result, "about:blank");
}

#[test]
fn test_builder_defaults() {
    let builder = BrowserBuilder::new();
    assert_eq!(builder.current().url, "about:blank");
    assert_eq!(builder.current().width, 1024);
    assert_eq!(builder.current().height, 768);
}

#[test]
fn test_builder_chain() {
    let builder =
        BrowserBuilder::new().url("http://localhost/").title("Test").size(800, 600).headless();

    assert_eq!(builder.current().url, "http://localhost/");
    assert_eq!(builder.current().title, "Test");
    assert_eq!(builder.current().width, 800);
    assert_eq!(builder.current().height, 600);
    assert!(builder.current().headless);
}

#[test]
fn test_validate_empty_url() {
    let builder = BrowserBuilder::new().url("");
    let result = builder.validate_config();
    assert!(result.is_err());
}

#[test]
fn test_validate_zero_size() {
    let builder = BrowserBuilder::new().size(0, 600);
    let result = builder.validate_config();
    assert!(result.is_err());
}

#[test]
fn test_config_builder() {
    let config = BrowserConfig::new("http://localhost/")
        .with_title("Test")
        .with_size(800, 600)
        .with_resizable(false)
        .with_devtools(true);

    assert_eq!(config.url, "http://localhost/");
    assert_eq!(config.title, "Test");
    assert_eq!(config.width, 800);
    assert_eq!(config.height, 600);
    assert!(!config.resizable);
    assert!(config.devtools);
}

#[test]
fn test_config_defaults() {
    let config = BrowserConfig::default();
    assert_eq!(config.url, "about:blank");
    assert_eq!(config.width, 1024);
    assert_eq!(config.height, 768);
    assert!(config.resizable);
    assert!(config.decorated);
    assert!(!config.fullscreen);
    assert!(!config.devtools);
    assert!(!config.headless);
}

#[test]
fn test_browser_event_debug() {
    let event = BrowserEvent::TitleChanged { title: "Test Page".to_string() };
    let debug_str = format!("{:?}", event);
    assert!(debug_str.contains("TitleChanged"));
    assert!(debug_str.contains("Test Page"));
}

#[test]
fn test_load_state_equality() {
    assert_eq!(LoadState::Loading, LoadState::Loading);
    assert_ne!(LoadState::Loading, LoadState::Complete);
}

#[test]
fn conversion_of_every_form() {
    assert_eq!(
        convert_transport_url(""),
        Err(EmbedError::InvalidUrl("URL cannot be empty".to_string()))
    );
    assert_eq!(
        convert_transport_url("http::unix///tmp/app.sock/api/data").unwrap(),
        "http://localhost:5000/api/data"
    );
    assert_eq!(
        convert_transport_url("http::unix///tmp/app.sock").unwrap(),
        "http://localhost:5000/"
    );
    assert_eq!(
        convert_transport_url("http::unix///tmp/app.socket/x").unwrap(),
        "http://localhost:5000/x"
    );
    assert_eq!(
        convert_transport_url("http::unix///tmp/app.socket").unwrap(),
        "http://localhost:5000/"
    );
    assert_eq!(
        convert_transport_url("http::unix//rel/app.sock/x").unwrap(),
        "http://localhost:5000/"
    );
    assert_eq!(convert_transport_url("http::unix///tmp/none").unwrap(), "http://localhost:5000/");
    assert_eq!(convert_transport_url("https::tcp//h:1/x").unwrap(), "https://h:1/x");
    assert_eq!(convert_transport_url("https://h/x").unwrap(), "https://h/x");
    assert_eq!(convert_transport_url("about:config").unwrap(), "about:blank");
    assert_eq!(convert_transport_url("file:///etc/hosts").unwrap(), "file:///etc/hosts");
    assert_eq!(convert_transport_url("gopher://h/").unwrap(), "gopher://h/");
    assert_eq!(convert_transport_url("http::tor//h/").unwrap(), "http::tor//h/");
}

#[test]
fn validation_names_the_first_fault() {
    assert_eq!(BrowserBuilder::new().validate_config(), Ok(()));
    assert_eq!(
        BrowserBuilder::new().url("").size(0, 0).validate_config(),
        Err(EmbedError::InvalidUrl("URL cannot be empty".to_string()))
    );
    assert_eq!(
        BrowserBuilder::new().size(10, 0).validate_config(),
        Err(EmbedError::WindowFailed("Window size cannot be zero".to_string()))
    );
    let narrow = BrowserConfig::new("http://h/").with_min_size(200, 100).with_max_size(100, 100);
    assert_eq!(
        BrowserBuilder::new().config(narrow).validate_config(),
        Err(EmbedError::WindowFailed("Minimum size cannot exceed maximum size".to_string()))
    );
    let low = BrowserConfig::new("http://h/").with_min_size(100, 200).with_max_size(100, 100);
    assert!(BrowserBuilder::new().config(low).validate_config().is_err());
    let fits = BrowserConfig::new("http://h/").with_min_size(100, 100).with_max_size(100, 100);
    assert_eq!(BrowserBuilder::new().config(fits.clone()).validate_config(), Ok(()));
    assert_eq!(BrowserBuilder::new().config(fits.clone()).finish(), Ok(fits));
    let only_min = BrowserConfig::new("http://h/").with_min_size(5000, 5000);
    assert_eq!(BrowserBuilder::new().config(only_min).validate_config(), Ok(()));
    assert!(BrowserBuilder::default().url("").finish().is_err());
}

#[test]
fn config_setters_change_one_setting() {
    let base = BrowserConfig::new("http://h/");
    assert_eq!(base.title, "Rigging Browser");
    assert_eq!(base.min_size, None);
    assert_eq!(base.max_size, None);
    assert_eq!(base.user_agent, None);
    let config = base
        .clone()
        .with_min_size(1, 2)
        .with_max_size(3, 4)
        .with_decorated(false)
        .with_fullscreen(true)
        .with_user_agent("agent")
        .with_userscripts_dir("/scripts")
        .with_homepage("http://home/");
    assert_eq!(config.min_size, Some((1, 2)));
    assert_eq!(config.max_size, Some((3, 4)));
    assert!(!config.decorated);
    assert!(config.fullscreen);
    assert_eq!(config.user_agent.as_deref(), Some("agent"));
    assert_eq!(config.userscripts_dir.as_deref(), Some("/scripts"));
    assert_eq!(config.homepage.as_deref(), Some("http://home/"));
    assert_eq!(config.url, base.url);
    assert!(!config.headless);
    let shot = base.clone().with_screenshot("/tmp/shot.png");
    assert!(shot.headless);
    assert_eq!(shot.screenshot_path.as_deref(), Some("/tmp/shot.png"));
    assert!(base.clone().with_headless(true).headless);
    assert_eq!(base.clone().with_headless(false), base);
}

#[test]
fn no_engine_is_built_in() {
    assert!(!is_browser_available());
    assert!(!is_webview_available());
    assert!(!is_servo_available());
    assert_eq!(servo_version(), None);
    assert_eq!(rigging_version(), "0.1.0");
}

#[test]
fn engine_arguments_give_size_and_url() {
    let config = BrowserConfig::new("http::unix///tmp/app.sock/").with_size(1200, 800);
    assert_eq!(
        servo_arguments(&config),
        vec!["--screen-size=1200x800".to_string(), "http::unix///tmp/app.sock/".to_string()]
    );
    assert_eq!(
        servo_arguments(&BrowserConfig::default()),
        vec!["--screen-size=1024x768".to_string(), "about:blank".to_string()]
    );
}

#[test]
fn shell_preferences_start_unset() {
    let prefs = rigging::servoshell::ServoShellPreferences::new();
    assert_eq!(prefs.url, None);
    assert_eq!(prefs.width, None);
    assert_eq!(prefs.height, None);
    assert!(!prefs.headless);
    assert_eq!(prefs, rigging::servoshell::ServoShellPreferences::default());
}
