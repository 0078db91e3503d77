//! The environment a plugin process runs in: where it lives, who it is, and where it listens.

use vstd::prelude::*;

verus! {

/// The variable that names the directory the plugin was installed in.
pub const DIR_VARIABLE: &'static str = "NEBO_APP_DIR";

/// The variable that names the path of the local socket to listen on.
pub const SOCK_VARIABLE: &'static str = "NEBO_APP_SOCK";

/// The variable that carries the instance identifier.
pub const ID_VARIABLE: &'static str = "NEBO_APP_ID";

/// The variable that carries the display name.
pub const NAME_VARIABLE: &'static str = "NEBO_APP_NAME";

/// The variable that carries the semantic version.
pub const VERSION_VARIABLE: &'static str = "NEBO_APP_VERSION";

/// The variable that names the directory for the plugin's own data.
pub const DATA_VARIABLE: &'static str = "NEBO_APP_DATA";

/// What the host tells a plugin process about itself.
#[derive(Debug, Clone, PartialEq)]
pub struct AppEnv {
    pub dir: String,
    pub sock_path: String,
    pub id: String,
    pub name: String,
    pub version: String,
    pub data_dir: String,
}

/// An `AppEnv` as plain text.
pub struct AppEnvView {
    pub dir: Seq<char>,
    pub sock_path: Seq<char>,
    pub id: Seq<char>,
    pub name: Seq<char>,
    pub version: Seq<char>,
    pub data_dir: Seq<char>,
}

impl View for AppEnv {
    type V = AppEnvView;

    open spec fn view(&self) -> AppEnvView {
        AppEnvView {
            dir: self.dir@,
            sock_path: self.sock_path@,
            id: self.id@,
            name: self.name@,
            version: self.version@,
            data_dir: self.data_dir@,
        }
    }
}

/// The text of a setting, empty when the setting is absent.
pub open spec fn text_or_empty(setting: Option<String>) -> Seq<char> {
    match setting {
        Some(text) => text@,
        None => Seq::empty(),
    }
}

/// The value of a setting, empty when the setting is absent.
pub fn or_empty(setting: Option<String>) -> (text: String)
    ensures
        text@ == text_or_empty(setting),
{
    match setting {
        Some(text) => text,
        None => String::new(),
    }
}

impl AppEnv {
    /// Builds the environment from what was found under each variable; what is absent is empty.
    pub fn assemble(
        dir: Option<String>,
        sock_path: Option<String>,
        id: Option<String>,
        name: Option<String>,
        version: Option<String>,
        data_dir: Option<String>,
    ) -> (env: AppEnv)
        ensures
            env@ == (AppEnvView {
                dir: text_or_empty(dir),
                sock_path: text_or_empty(sock_path),
                id: text_or_empty(id),
                name: text_or_empty(name),
                version: text_or_empty(version),
                data_dir: text_or_empty(data_dir),
            }),
    {
        AppEnv {
            dir: or_empty(dir),
            sock_path: or_empty(sock_path),
            id: or_empty(id),
            name: or_empty(name),
            version: or_empty(version),
            data_dir: or_empty(data_dir),
        }
    }

    /// A copy of this environment.
    pub fn duplicate(&self) -> (copy: AppEnv)
        ensures
            copy@ == self@,
    {
        AppEnv {
            dir: self.dir.clone(),
            sock_path: self.sock_path.clone(),
            id: self.id.clone(),
            name: self.name.clone(),
            version: self.version.clone(),
            data_dir: self.data_dir.clone(),
        }
    }
}

} // verus!
