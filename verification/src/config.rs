//! The service's configuration: where files are stored and under which URL
//! they are published. Built once at startup and handed to every handler.

use vstd::prelude::*;
use vstd::string::*;

verus! {

/// The two settings of the service. Both are non-empty.
#[derive(Debug)]
pub struct Config {
    storage_path: String,
    base_url: String,
}

/// Which settings were missing at startup. At least one of them was.
#[derive(Debug, Clone, Copy, PartialEq, Eq)]
pub struct ConfigError {
    pub base_url_missing: bool,
    pub storage_path_missing: bool,
}

/// An absent setting counts as an empty one.
pub open spec fn setting_len(value: Option<String>) -> nat {
    match value {
        Some(v) => v@.len(),
        None => 0,
    }
}

/// The diagnostics for a failed startup: one line per missing setting, the
/// base URL first, then a closing line.
pub open spec fn spec_diagnostics(e: ConfigError) -> Seq<Seq<char>> {
    let base = if e.base_url_missing {
        seq!["BASE_URL not set"@]
    } else {
        Seq::<Seq<char>>::empty()
    };
    let storage = if e.storage_path_missing {
        seq!["STORAGE_PATH not set"@]
    } else {
        Seq::<Seq<char>>::empty()
    };
    base + storage + seq!["Errors occured."@]
}

impl Config {
    /// The directory in which uploads are stored.
    pub closed spec fn spec_storage_path(&self) -> Seq<char> {
        self.storage_path@
    }

    /// The public prefix of a stored file's link.
    pub closed spec fn spec_base_url(&self) -> Seq<char> {
        self.base_url@
    }

    /// Both settings are present. This holds of every configuration.
    #[verifier::type_invariant]
    pub closed spec fn wf(&self) -> bool {
        self.storage_path@.len() > 0 && self.base_url@.len() > 0
    }

    /// Builds the configuration from the two settings as read at startup.
    /// Succeeds exactly when both are present and non-empty; otherwise the
    /// error says which were not.
    pub fn new(storage_path: Option<String>, base_url: Option<String>) -> (r: Result<
        Config,
        ConfigError,
    >)
        ensures
            r is Ok <==> setting_len(storage_path) > 0 && setting_len(base_url) > 0,
            match r {
                Ok(c) => {
                    &&& storage_path is Some && c.spec_storage_path() == storage_path->0@
                    &&& base_url is Some && c.spec_base_url() == base_url->0@
                },
                Err(e) => {
                    &&& e.storage_path_missing == (setting_len(storage_path) == 0)
                    &&& e.base_url_missing == (setting_len(base_url) == 0)
                },
            },
    {
        let storage = match storage_path {
            Some(s) => s,
            None => String::new(),
        };
        let base = match base_url {
            Some(s) => s,
            None => String::new(),
        };
        let storage_missing = storage.as_str().unicode_len() == 0;
        let base_missing = base.as_str().unicode_len() == 0;
        if storage_missing || base_missing {
            Err(ConfigError { base_url_missing: base_missing, storage_path_missing: storage_missing })
        } else {
            Ok(Config { storage_path: storage, base_url: base })
        }
    }

    /// The directory in which uploads are stored.
    pub fn storage_path(&self) -> (s: &str)
        ensures
            s@ == self.spec_storage_path(),
            s@.len() > 0,
    {
        proof {
            use_type_invariant(self);
        }
        self.storage_path.as_str()
    }

    /// The public prefix of a stored file's link.
    pub fn base_url(&self) -> (s: &str)
        ensures
            s@ == self.spec_base_url(),
            s@.len() > 0,
    {
        proof {
            use_type_invariant(self);
        }
        self.base_url.as_str()
    }
}

impl ConfigError {
    /// The lines to print before the process gives up.
    pub fn diagnostics(&self) -> (lines: Vec<String>)
        ensures
            lines@.map_values(|s: String| s@) == spec_diagnostics(*self),
    {
        let mut lines: Vec<String> = Vec::new();
        if self.base_url_missing {
            lines.push(String::from_str("BASE_URL not set"));
        }
        if self.storage_path_missing {
            lines.push(String::from_str("STORAGE_PATH not set"));
        }
        lines.push(String::from_str("Errors occured."));
        lines
    }
}

} // verus!
