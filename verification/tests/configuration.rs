use netchat_bridge::configuration::Configuration;
use netchat_bridge::secrets::Secrets;

#[test]
fn fresh_settings() {
    let configuration = Configuration::default();
    assert_eq!(configuration.command_prefix, "!");
    assert_eq!(configuration.refresh_interval, 5);
    assert_eq!(configuration.request_timeout, 30);
}

#[test]
fn copied_settings_are_the_same() {
    let configuration = Configuration {
        command_prefix: "?".to_string(),
        refresh_interval: 9,
        request_timeout: 1,
    };
    assert_eq!(configuration.clone(), configuration);
}

#[test]
fn account_holds_what_it_was_given() {
    let secrets = Secrets {
        homeserver_url: "https://example.org".to_string(),
        username: "bridge".to_string(),
        password: "hunter2".to_string(),
    };
    assert_eq!(secrets.clone(), secrets);
    assert_eq!(secrets.homeserver_url, "https://example.org");
}
