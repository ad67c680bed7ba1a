//! Assembling the configuration at startup: every setting is required.

use vstd::prelude::*;

use crate::model::RouteConfig;

verus! {

/// The settings of the proxy, in the order in which they are looked for.
#[derive(Debug, Clone, Copy, PartialEq, Eq, Structural)]
pub enum Setting {
    CmsBaseUrl,
    CmsApiToken,
    AssetPathPattern,
    BackendHost,
    BackendPort,
}

impl Setting {
    /// The name of the variable that holds the setting.
    pub open spec fn variable_of(self) -> Seq<char> {
        match self {
            Setting::CmsBaseUrl => "CMS_BASE_URL"@,
            Setting::CmsApiToken => "CMS_API_TOKEN"@,
            Setting::AssetPathPattern => "ASSET_PATH_PATTERN"@,
            Setting::BackendHost => "BACKEND_HOST"@,
            Setting::BackendPort => "BACKEND_PORT"@,
        }
    }

    /// The name of the variable that holds the setting.
    pub fn variable(self) -> (name: &'static str)
        ensures
            name@ == self.variable_of(),
    {
        match self {
            Setting::CmsBaseUrl => "CMS_BASE_URL",
            Setting::CmsApiToken => "CMS_API_TOKEN",
            Setting::AssetPathPattern => "ASSET_PATH_PATTERN",
            Setting::BackendHost => "BACKEND_HOST",
            Setting::BackendPort => "BACKEND_PORT",
        }
    }
}

/// What was found at startup: each setting's value, or nothing.
#[derive(Debug, Clone, PartialEq, Eq)]
pub struct Settings {
    pub cms_base_url: Option<String>,
    pub cms_api_token: Option<String>,
    pub asset_path_pattern: Option<String>,
    pub backend_host: Option<String>,
    pub backend_port: Option<String>,
}

/// A required setting is absent. Fatal: the server does not start.
#[derive(Debug, Clone, Copy, PartialEq, Eq, Structural)]
pub struct ConfigMissing {
    pub setting: Setting,
}

/// The first setting that is absent, if any is.
pub open spec fn first_missing(found: Settings) -> Option<Setting> {
    if found.cms_base_url is None {
        Some(Setting::CmsBaseUrl)
    } else if found.cms_api_token is None {
        Some(Setting::CmsApiToken)
    } else if found.asset_path_pattern is None {
        Some(Setting::AssetPathPattern)
    } else if found.backend_host is None {
        Some(Setting::BackendHost)
    } else if found.backend_port is None {
        Some(Setting::BackendPort)
    } else {
        None
    }
}

/// `config` holds exactly the values that were found.
pub open spec fn holds_all(config: RouteConfig, found: Settings) -> bool {
    &&& found.cms_base_url == Some(config.cms_base_url)
    &&& found.cms_api_token == Some(config.cms_api_token)
    &&& found.asset_path_pattern == Some(config.asset_path_pattern)
    &&& found.backend_host == Some(config.backend_host)
    &&& found.backend_port == Some(config.backend_port)
}

/// Assembles the configuration. It succeeds exactly when every setting is present,
/// and then holds each value unchanged; otherwise it names the first absent one.
pub fn configure(found: Settings) -> (r: Result<RouteConfig, ConfigMissing>)
    ensures
        match r {
            Ok(config) => first_missing(found) is None && holds_all(config, found),
            Err(missing) => first_missing(found) == Some(missing.setting),
        },
{
    let cms_base_url = match found.cms_base_url {
        Some(v) => v,
        None => {
            return Err(ConfigMissing { setting: Setting::CmsBaseUrl });
        },
    };
    let cms_api_token = match found.cms_api_token {
        Some(v) => v,
        None => {
            return Err(ConfigMissing { setting: Setting::CmsApiToken });
        },
    };
    let asset_path_pattern = match found.asset_path_pattern {
        Some(v) => v,
        None => {
            return Err(ConfigMissing { setting: Setting::AssetPathPattern });
        },
    };
    let backend_host = match found.backend_host {
        Some(v) => v,
        None => {
            return Err(ConfigMissing { setting: Setting::BackendHost });
        },
    };
    let backend_port = match found.backend_port {
        Some(v) => v,
        None => {
            return Err(ConfigMissing { setting: Setting::BackendPort });
        },
    };
    Ok(RouteConfig { cms_base_url, cms_api_token, asset_path_pattern, backend_host, backend_port })
}

} // verus!
