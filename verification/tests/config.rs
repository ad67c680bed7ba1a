use edge_proxy::config::{configure, ConfigMissing, Setting, Settings};
use edge_proxy::model::RouteConfig;

fn all() -> Settings {
    Settings {
        cms_base_url: Some("https://cms.example.com".to_string()),
        cms_api_token: Some("T".to_string()),
        asset_path_pattern: Some("/image/api".to_string()),
        backend_host: Some("localhost".to_string()),
        backend_port: Some("1234".to_string()),
    }
}

#[test]
fn configure_takes_every_value_as_found() {
    assert_eq!(
        configure(all()),
        Ok(RouteConfig {
            cms_base_url: "https://cms.example.com".to_string(),
            cms_api_token: "T".to_string(),
            asset_path_pattern: "/image/api".to_string(),
            backend_host: "localhost".to_string(),
            backend_port: "1234".to_string(),
        })
    );
}

#[test]
fn configure_names_the_missing_setting() {
    let mut s = all();
    s.cms_base_url = None;
    assert_eq!(configure(s), Err(ConfigMissing { setting: Setting::CmsBaseUrl }));
    let mut s = all();
    s.cms_api_token = None;
    assert_eq!(configure(s), Err(ConfigMissing { setting: Setting::CmsApiToken }));
    let mut s = all();
    s.asset_path_pattern = None;
    assert_eq!(configure(s), Err(ConfigMissing { setting: Setting::AssetPathPattern }));
    let mut s = all();
    s.backend_host = None;
    assert_eq!(configure(s), Err(ConfigMissing { setting: Setting::BackendHost }));
    let mut s = all();
    s.backend_port = None;
    assert_eq!(configure(s), Err(ConfigMissing { setting: Setting::BackendPort }));
}

#[test]
fn configure_names_the_first_of_several() {
    let mut s = all();
    s.backend_port = None;
    s.cms_api_token = None;
    assert_eq!(configure(s), Err(ConfigMissing { setting: Setting::CmsApiToken }));
}

#[test]
fn setting_variables() {
    assert_eq!(Setting::CmsBaseUrl.variable(), "CMS_BASE_URL");
    assert_eq!(Setting::CmsApiToken.variable(), "CMS_API_TOKEN");
    assert_eq!(Setting::AssetPathPattern.variable(), "ASSET_PATH_PATTERN");
    assert_eq!(Setting::BackendHost.variable(), "BACKEND_HOST");
    assert_eq!(Setting::BackendPort.variable(), "BACKEND_PORT");
}
