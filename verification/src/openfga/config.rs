//! OpenFGA connection settings.
use vstd::prelude::*;
use crate::text::owned;

verus! {

/// OpenFGA connection settings.
#[derive(Debug, Clone)]
pub struct OpenFGAConfig {
    /// OpenFGA HTTP API URL.
    pub api_url: String,
    /// Store ID; found or created at start-up when empty.
    pub store_id: String,
    /// Authorization model ID.
    pub model_id: Option<String>,
    /// Store name used when the store is created.
    pub store_name: String,
    /// Whether permission checks are enforced.
    pub enabled: bool,
    /// Whether list operations return only permitted objects.
    pub list_only_permitted: bool,
    /// Request timeout in seconds.
    pub timeout_seconds: u64,
}

/// The default store name: "openobserve".
pub fn default_store_name() -> (r: String)
    ensures
        r@ == "openobserve"@,
{
    owned("openobserve")
}

/// The default of the boolean switches: enabled.
pub fn default_true() -> (r: bool)
    ensures
        r,
{
    true
}

/// The default request timeout: 30 seconds.
pub fn default_timeout() -> (r: u64)
    ensures
        r == 30,
{
    30
}

impl Default for OpenFGAConfig {
    fn default() -> (r: Self)
        ensures
            r.api_url@ == "http://localhost:8080"@,
            r.store_id@ == Seq::<char>::empty(),
            r.model_id is None,
            r.store_name@ == "openobserve"@,
            r.enabled,
            r.list_only_permitted,
            r.timeout_seconds == 30,
    {
        OpenFGAConfig {
            api_url: owned("http://localhost:8080"),
            store_id: String::new(),
            model_id: None,
            store_name: default_store_name(),
            enabled: true,
            list_only_permitted: true,
            timeout_seconds: default_timeout(),
        }
    }
}

impl OpenFGAConfig {
    /// The same settings with another API URL.
    pub fn with_api_url(self, url: &str) -> (r: Self)
        ensures
            r.api_url@ == url@,
            r.store_id == self.store_id,
            r.model_id == self.model_id,
            r.store_name == self.store_name,
            r.enabled == self.enabled,
            r.list_only_permitted == self.list_only_permitted,
            r.timeout_seconds == self.timeout_seconds,
    {
        let mut c = self;
        c.api_url = owned(url);
        c
    }

    /// The same settings with another store name.
    pub fn with_store_name(self, name: &str) -> (r: Self)
        ensures
            r.store_name@ == name@,
            r.api_url == self.api_url,
            r.store_id == self.store_id,
            r.model_id == self.model_id,
            r.enabled == self.enabled,
            r.list_only_permitted == self.list_only_permitted,
            r.timeout_seconds == self.timeout_seconds,
    {
        let mut c = self;
        c.store_name = owned(name);
        c
    }

    /// The same settings with another store ID.
    pub fn with_store_id(self, id: &str) -> (r: Self)
        ensures
            r.store_id@ == id@,
            r.api_url == self.api_url,
            r.model_id == self.model_id,
            r.store_name == self.store_name,
            r.enabled == self.enabled,
            r.list_only_permitted == self.list_only_permitted,
            r.timeout_seconds == self.timeout_seconds,
    {
        let mut c = self;
        c.store_id = owned(id);
        c
    }

    /// The same settings with the given authorization model ID.
    pub fn with_model_id(self, id: &str) -> (r: Self)
        ensures
            r.model_id is Some && r.model_id->0@ == id@,
            r.api_url == self.api_url,
            r.store_id == self.store_id,
            r.store_name == self.store_name,
            r.enabled == self.enabled,
            r.list_only_permitted == self.list_only_permitted,
            r.timeout_seconds == self.timeout_seconds,
    {
        let mut c = self;
        c.model_id = Some(owned(id));
        c
    }
}

} // verus!
