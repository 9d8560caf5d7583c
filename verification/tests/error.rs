use applekit::{Error, TauriErrorWrapper};

#[test]
fn unknown_failure_is_announced_before_its_description() {
    assert_eq!(Error::Unknown("boom".to_string()).to_string(), "unknown error: boom");
}

#[test]
fn unknown_failure_without_description_is_still_announced() {
    assert_eq!(Error::Unknown(String::new()).to_string(), "unknown error: ");
}

#[test]
fn io_failure_speaks_for_itself() {
    assert_eq!(
        Error::Io("No such file or directory (os error 2)".to_string()).to_string(),
        "No such file or directory (os error 2)"
    );
}

#[test]
fn plugin_failure_speaks_for_itself() {
    assert_eq!(
        Error::PluginInvoke("failed to reach the plugin".to_string()).to_string(),
        "failed to reach the plugin"
    );
}

#[test]
fn description_is_kept_character_for_character() {
    assert_eq!(
        Error::Unknown("naïve — 設定 \u{1F512}".to_string()).to_string(),
        "unknown error: naïve — 設定 \u{1F512}"
    );
    assert_eq!(Error::Io("größer".to_string()).to_string(), "größer");
}

#[test]
fn message_of_an_unknown_failure_is_fifteen_characters_longer_than_its_description() {
    for description in ["", "x", "a longer description", "設定"] {
        let message = Error::Unknown(description.to_string()).to_string();
        assert_eq!(message.chars().count(), 15 + description.chars().count());
    }
}

#[test]
fn io_failure_without_description_is_named_by_its_kind() {
    assert_eq!(Error::Io(String::new()).to_string(), "input/output error");
}

#[test]
fn plugin_failure_without_description_is_named_by_its_kind() {
    assert_eq!(Error::PluginInvoke(String::new()).to_string(), "plugin invoke error");
}

#[test]
fn failure_with_a_blank_description_speaks_for_itself() {
    assert_eq!(Error::Io(" ".to_string()).to_string(), " ");
    assert_eq!(Error::PluginInvoke(" ".to_string()).to_string(), " ");
}

#[test]
fn messages_are_not_empty() {
    let failures = [
        Error::Io(String::new()),
        Error::PluginInvoke(String::new()),
        Error::Unknown(String::new()),
        Error::Unknown("x".to_string()),
        Error::Io("x".to_string()),
        Error::PluginInvoke("x".to_string()),
    ];
    for failure in failures {
        assert!(!failure.to_string().is_empty(), "{failure:?}");
    }
}

#[test]
fn message_does_not_show_how_the_failure_is_held() {
    let message = Error::Unknown("boom".to_string()).to_string();
    assert!(!message.contains("Unknown"));
    assert!(!message.contains('('));
    assert!(!message.contains('"'));
    let message = Error::Io("boom".to_string()).to_string();
    assert_eq!(message, "boom");
}

#[test]
fn host_failure_becomes_an_unknown_failure() {
    assert_eq!(
        Error::from(TauriErrorWrapper("webview not found".to_string())),
        Error::Unknown("webview not found".to_string())
    );
}

#[test]
fn host_failure_reaches_the_caller_with_the_words_of_the_host() {
    let failure: Error = TauriErrorWrapper("webview not found".to_string()).into();
    assert_eq!(failure.to_string(), "unknown error: webview not found");
}
