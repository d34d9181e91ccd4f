//! The settings that setting the module up derives from its configuration, and the
//! errors it reports.
use vstd::prelude::*;
use crate::text::concat2;
use crate::error::Error;
use crate::openfga::config::OpenFGAConfig;
use crate::dex::config::{DexConfig, is_default_except_urls};

verus! {

/// The OpenFGA settings of the module: the defaults, with the configured API URL and
/// store name.
pub fn openfga_settings(api_url: &str, store_name: &str) -> (r: OpenFGAConfig)
    ensures
        r.api_url@ == api_url@,
        r.store_name@ == store_name@,
        r.store_id@ == Seq::<char>::empty(),
        r.model_id is None,
        r.enabled,
        r.list_only_permitted,
        r.timeout_seconds == 30,
{
    OpenFGAConfig::default().with_api_url(api_url).with_store_name(store_name)
}

/// The Dex settings of the module: the defaults, with the configured gRPC URL, issuer,
/// client credentials and redirect URI.
pub fn dex_settings(
    grpc_url: &str,
    issuer_url: &str,
    client_id: &str,
    client_secret: &str,
    redirect_uri: &str,
) -> (r: DexConfig)
    ensures
        r.grpc_url@ == grpc_url@,
        r.issuer_url@ == issuer_url@,
        r.client_id@ == client_id@,
        r.client_secret@ == client_secret@,
        r.redirect_uri@ == redirect_uri@,
        is_default_except_urls(r),
{
    DexConfig::new(grpc_url).with_issuer(issuer_url).with_client(client_id, client_secret).with_redirect_uri(
        redirect_uri,
    )
}

/// The error when the OpenFGA client cannot be set up: "OpenFGA init failed: {cause}".
pub fn openfga_init_failure(cause: &str) -> (r: Error)
    ensures
        r matches Error::OpenFGA(m) && m@ == "OpenFGA init failed: "@ + cause@,
{
    Error::OpenFGA(concat2("OpenFGA init failed: ", cause))
}

/// The error when the Dex client cannot be set up: "Dex init failed: {cause}".
pub fn dex_init_failure(cause: &str) -> (r: Error)
    ensures
        r matches Error::Dex(m) && m@ == "Dex init failed: "@ + cause@,
{
    Error::Dex(concat2("Dex init failed: ", cause))
}

} // verus!
