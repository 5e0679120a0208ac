//! Static file path configuration.

use vstd::prelude::*;

use crate::errors::{ConfigError, VetisError};
use crate::server::virtual_host::path::auth::{AuthSettings, AuthType};

verus! {

/// Optional strings as text.
pub open spec fn opt_strings(strings: Option<Vec<String>>) -> Option<Seq<Seq<char>>> {
    match strings {
        Some(v) => Some(v@.map_values(|s: String| s@)),
        None => None,
    }
}

/// The view of an optional authentication.
pub open spec fn opt_auth(auth: Option<AuthType>) -> Option<AuthSettings> {
    match auth {
        Some(a) => Some(a@),
        None => None,
    }
}

/// A copy of a list of strings.
pub fn copy_strings(v: &Vec<String>) -> (res: Vec<String>)
    ensures
        res@.map_values(|s: String| s@) == v@.map_values(|s: String| s@),
{
    let res = v.clone();
    proof {
        assert forall|i: int| 0 <= i < v@.len() implies res@[i] == v@[i] by {
            assert(cloned::<String>(v@[i], res@[i]));
        }
        assert(res@.map_values(|s: String| s@) =~= v@.map_values(|s: String| s@));
    }
    res
}

/// What a static path configuration holds.
pub struct StaticPathSettings {
    pub uri: Seq<char>,
    pub extensions: Seq<char>,
    pub directory: Seq<char>,
    pub index_files: Option<Seq<Seq<char>>>,
    pub auth: Option<AuthSettings>,
}

/// Builder for creating `StaticPathConfig` instances.
pub struct StaticPathConfigBuilder {
    uri: String,
    extensions: String,
    directory: String,
    index_files: Option<Vec<String>>,
    auth: Option<AuthType>,
}

impl View for StaticPathConfigBuilder {
    type V = StaticPathSettings;

    closed spec fn view(&self) -> StaticPathSettings {
        StaticPathSettings {
            uri: self.uri@,
            extensions: self.extensions@,
            directory: self.directory@,
            index_files: opt_strings(self.index_files),
            auth: opt_auth(self.auth),
        }
    }
}

impl StaticPathConfigBuilder {
    /// Sets the URI prefix of the static path.
    pub fn uri(self, uri: &str) -> (res: Self)
        ensures
            res@ == (StaticPathSettings { uri: uri@, ..self@ }),
    {
        let mut b = self;
        b.uri = uri.to_owned();
        b
    }

    /// Sets the regular expression of the file names that may be served.
    pub fn extensions(self, extensions: &str) -> (res: Self)
        ensures
            res@ == (StaticPathSettings { extensions: extensions@, ..self@ }),
    {
        let mut b = self;
        b.extensions = extensions.to_owned();
        b
    }

    /// Sets the directory the files are served from.
    pub fn directory(self, directory: &str) -> (res: Self)
        ensures
            res@ == (StaticPathSettings { directory: directory@, ..self@ }),
    {
        let mut b = self;
        b.directory = directory.to_owned();
        b
    }

    /// Sets the index files, tried in order for directory requests.
    pub fn index_files(self, index_files: Vec<String>) -> (res: Self)
        ensures
            res@ == (StaticPathSettings { index_files: opt_strings(Some(index_files)), ..self@ }),
    {
        let mut b = self;
        b.index_files = Some(index_files);
        b
    }

    /// Sets the authentication of the static path.
    pub fn auth(self, auth: AuthType) -> (res: Self)
        ensures
            res@ == (StaticPathSettings { auth: Some(auth@), ..self@ }),
    {
        let mut b = self;
        b.auth = Some(auth);
        b
    }

    /// Creates the `StaticPathConfig`; URI, extensions and directory must not be empty.
    pub fn build(self) -> (res: Result<StaticPathConfig, VetisError>)
        ensures
            self@.uri.len() == 0 ==> (res matches Err(VetisError::Config(ConfigError::Path(m)))
                && m@ == "URI cannot be empty"@),
            self@.uri.len() != 0 && self@.extensions.len() == 0 ==> (res matches Err(
                VetisError::Config(ConfigError::Path(m)),
            ) && m@ == "Extensions cannot be empty"@),
            self@.uri.len() != 0 && self@.extensions.len() != 0 && self@.directory.len() == 0
                ==> (res matches Err(VetisError::Config(ConfigError::Path(m))) && m@
                == "Directory cannot be empty"@),
            self@.uri.len() != 0 && self@.extensions.len() != 0 && self@.directory.len() != 0
                ==> (res matches Ok(c) && c@ == self@),
    {
        if self.uri.as_str().is_empty() {
            return Err(VetisError::Config(ConfigError::Path("URI cannot be empty".to_owned())));
        }
        if self.extensions.as_str().is_empty() {
            return Err(
                VetisError::Config(ConfigError::Path("Extensions cannot be empty".to_owned())),
            );
        }
        if self.directory.as_str().is_empty() {
            return Err(
                VetisError::Config(ConfigError::Path("Directory cannot be empty".to_owned())),
            );
        }
        Ok(
            StaticPathConfig {
                uri: self.uri,
                extensions: self.extensions,
                directory: self.directory,
                index_files: self.index_files,
                auth: self.auth,
            },
        )
    }
}

/// Static file path configuration.
#[derive(Clone)]
pub struct StaticPathConfig {
    uri: String,
    extensions: String,
    directory: String,
    index_files: Option<Vec<String>>,
    auth: Option<AuthType>,
}

impl View for StaticPathConfig {
    type V = StaticPathSettings;

    closed spec fn view(&self) -> StaticPathSettings {
        StaticPathSettings {
            uri: self.uri@,
            extensions: self.extensions@,
            directory: self.directory@,
            index_files: opt_strings(self.index_files),
            auth: opt_auth(self.auth),
        }
    }
}

impl StaticPathConfig {
    /// Creates a builder with URI "/", extensions ".html", directory "." and nothing else.
    pub fn builder() -> (res: StaticPathConfigBuilder)
        ensures
            res@ == (StaticPathSettings {
                uri: "/"@,
                extensions: ".html"@,
                directory: "."@,
                index_files: None,
                auth: None,
            }),
    {
        StaticPathConfigBuilder {
            uri: "/".to_owned(),
            extensions: ".html".to_owned(),
            directory: ".".to_owned(),
            index_files: None,
            auth: None,
        }
    }

    /// A copy of this configuration.
    pub fn duplicate(&self) -> (res: Self)
        ensures
            res@ == self@,
    {
        StaticPathConfig {
            uri: self.uri.clone(),
            extensions: self.extensions.clone(),
            directory: self.directory.clone(),
            index_files: match &self.index_files {
                Some(v) => Some(copy_strings(v)),
                None => None,
            },
            auth: match &self.auth {
                Some(a) => Some(a.duplicate()),
                None => None,
            },
        }
    }

    /// Returns the URI.
    pub fn uri(&self) -> (res: &str)
        ensures
            res@ == self@.uri,
    {
        self.uri.as_str()
    }

    /// Returns the extensions pattern.
    pub fn extensions(&self) -> (res: &str)
        ensures
            res@ == self@.extensions,
    {
        self.extensions.as_str()
    }

    /// Returns the directory.
    pub fn directory(&self) -> (res: &str)
        ensures
            res@ == self@.directory,
    {
        self.directory.as_str()
    }

    /// Returns the index files.
    pub fn index_files(&self) -> (res: &Option<Vec<String>>)
        ensures
            opt_strings(*res) == self@.index_files,
    {
        &self.index_files
    }

    /// Returns the authentication.
    pub fn auth(&self) -> (res: &Option<AuthType>)
        ensures
            opt_auth(*res) == self@.auth,
    {
        &self.auth
    }
}

} // verus!
