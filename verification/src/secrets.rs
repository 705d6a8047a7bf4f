//! Names under which secrets are kept in the OS keyring. Reading and writing
//! the keyring is done by the application.

use vstd::prelude::*;
use crate::ids::{uuid_string, uuid_text};

verus! {

/// Keyring service all secrets are stored under.
pub const SERVICE: &'static str = "Dictatr";

/// Name of the Cloudflare Access client secret among the named secrets.
pub const CF_ACCESS_SECRET: &'static str = "cf_access_secret";

/// Keyring entry of a provider's API key: `provider-` and the provider's UUID.
pub fn key_for(provider_id: u128) -> (r: String)
    ensures
        r@ == "provider-"@ + uuid_text(provider_id),
{
    let mut r = "provider-".to_owned();
    let id = uuid_string(provider_id);
    r.append(id.as_str());
    r
}

/// Keyring entry of a named secret: `named-` and the name.
pub fn named_key(name: &str) -> (r: String)
    ensures
        r@ == "named-"@ + name@,
{
    let mut r = "named-".to_owned();
    r.append(name);
    r
}

} // verus!
