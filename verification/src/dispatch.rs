//! The provider dispatcher: two-tier adapter selection (a fixed set of
//! bespoke chain ids, a generic fallback for every other chain), request-URL
//! construction, and decoding of a raw response body by the selected
//! adapter.

use vstd::prelude::*;
use vstd::string::StringExecFns;
use crate::adapter::{
    decode_mixed, decode_single_file, decode_status_multi, spec_decode_mixed,
    spec_decode_single_file, spec_decode_status_multi, DecodeResult, StatusKind,
};
use crate::errors::{DecodeError, FetchError};
use crate::json::{json_of, parse_json};
use crate::normalize::{files_view, FileView, WrapRule};
use crate::registry::{resolve_chain, spec_chain_id};
use crate::strutil::{spec_u32_decimal, u32_decimal};

verus! {

/// One adapter per explorer family; the generic adapter speaks to a
/// multi-chain explorer parameterized by chain id.
#[derive(Clone, Copy, Debug, PartialEq, Eq, Structural)]
pub enum AdapterKind {
    Ailayer,
    Mode,
    Merlin,
    Bitlayer,
    Core,
    Snowtrace,
    Generic,
}

/// The chain ids that route to a bespoke adapter.
pub open spec fn is_bespoke_chain(chain_id: u32) -> bool {
    chain_id == 4200 || chain_id == 200901 || chain_id == 1116 || chain_id == 43114 || chain_id
        == 2649 || chain_id == 34443
}

/// The two-tier routing decision: a fixed set of chain ids to bespoke
/// adapters, every other chain id to the generic adapter.
pub open spec fn spec_select_adapter(chain_id: u32) -> AdapterKind {
    if chain_id == 4200 {
        AdapterKind::Merlin
    } else if chain_id == 200901 {
        AdapterKind::Bitlayer
    } else if chain_id == 1116 {
        AdapterKind::Core
    } else if chain_id == 43114 {
        AdapterKind::Snowtrace
    } else if chain_id == 2649 {
        AdapterKind::Ailayer
    } else if chain_id == 34443 {
        AdapterKind::Mode
    } else {
        AdapterKind::Generic
    }
}

/// Select the adapter responsible for a chain.
pub fn select_adapter(chain_id: u32) -> (r: AdapterKind)
    ensures
        r == spec_select_adapter(chain_id),
{
    if chain_id == 4200 {
        AdapterKind::Merlin
    } else if chain_id == 200901 {
        AdapterKind::Bitlayer
    } else if chain_id == 1116 {
        AdapterKind::Core
    } else if chain_id == 43114 {
        AdapterKind::Snowtrace
    } else if chain_id == 2649 {
        AdapterKind::Ailayer
    } else if chain_id == 34443 {
        AdapterKind::Mode
    } else {
        AdapterKind::Generic
    }
}

/// Dispatch law: each bespoke chain id selects its own adapter, and every
/// chain id outside the bespoke set selects the generic adapter.
pub proof fn lemma_dispatch_two_tier(chain_id: u32)
    ensures
        spec_select_adapter(4200) == AdapterKind::Merlin,
        spec_select_adapter(200901) == AdapterKind::Bitlayer,
        spec_select_adapter(1116) == AdapterKind::Core,
        spec_select_adapter(43114) == AdapterKind::Snowtrace,
        spec_select_adapter(2649) == AdapterKind::Ailayer,
        spec_select_adapter(34443) == AdapterKind::Mode,
        !is_bespoke_chain(chain_id) ==> spec_select_adapter(chain_id) == AdapterKind::Generic,
{
}

/// The routing decision for one fetch job.
pub struct FetchPlan {
    pub chain_id: u32,
    pub adapter: AdapterKind,
}

/// Resolve a chain symbol and select its adapter. An unknown symbol is
/// rejected here, before any adapter is involved.
pub fn plan_fetch(chain: &str) -> (r: Result<FetchPlan, FetchError>)
    ensures
        match r {
            Ok(plan) => spec_chain_id(chain@) == Some(plan.chain_id) && plan.adapter
                == spec_select_adapter(plan.chain_id),
            Err(e) => spec_chain_id(chain@) is None && e == FetchError::UnknownChain,
        },
{
    match resolve_chain(chain) {
        Some(chain_id) => Ok(FetchPlan { chain_id, adapter: select_adapter(chain_id) }),
        None => Err(FetchError::UnknownChain),
    }
}

/// The request URL each adapter sends its one HTTP GET to, templated with
/// the contract address and, where the explorer asks for them, the chain id
/// and an API key.
pub open spec fn spec_request_url(
    adapter: AdapterKind,
    chain_id: u32,
    address: Seq<char>,
    api_key: Seq<char>,
) -> Seq<char> {
    match adapter {
        AdapterKind::Ailayer => "https://mainnet-explorer.ailayer.xyz/api/v2/smart-contracts/"@
            + address,
        AdapterKind::Mode => "https://explorer.mode.network/api/v2/smart-contracts/"@ + address,
        AdapterKind::Merlin =>
        "https://scan.merlinchain.io/api/?module=contract&action=getsourcecode&address="@ + address
            + "&api_key="@ + api_key,
        AdapterKind::Bitlayer =>
        "https://api.btrscan.com/scan/api?module=contract&action=getsourcecode&address="@ + address,
        AdapterKind::Core =>
        "https://openapi.coredao.org/api?module=contract&action=getsourcecode&address="@ + address
            + "&apikey="@ + api_key,
        AdapterKind::Snowtrace =>
        "https://api.routescan.io/v2/network/mainnet/evm/43114/etherscan/api?module=contract&action=getsourcecode&address="@
            + address,
        AdapterKind::Generic => "https://api.etherscan.io/v2/api?chainid="@ + spec_u32_decimal(
            chain_id as int,
        ) + "&module=contract&action=getsourcecode&address="@ + address + "&apikey="@ + api_key,
    }
}

/// Build the request URL for one fetch job.
pub fn request_url(adapter: AdapterKind, chain_id: u32, address: &str, api_key: &str) -> (r:
    String)
    ensures
        r@ == spec_request_url(adapter, chain_id, address@, api_key@),
{
    match adapter {
        AdapterKind::Ailayer => {
            let mut url = "https://mainnet-explorer.ailayer.xyz/api/v2/smart-contracts/".to_owned();
            url.append(address);
            url
        },
        AdapterKind::Mode => {
            let mut url = "https://explorer.mode.network/api/v2/smart-contracts/".to_owned();
            url.append(address);
            url
        },
        AdapterKind::Merlin => {
            let mut url =
                "https://scan.merlinchain.io/api/?module=contract&action=getsourcecode&address=".to_owned();
            url.append(address);
            url.append("&api_key=");
            url.append(api_key);
            url
        },
        AdapterKind::Bitlayer => {
            let mut url =
                "https://api.btrscan.com/scan/api?module=contract&action=getsourcecode&address=".to_owned();
            url.append(address);
            url
        },
        AdapterKind::Core => {
            let mut url =
                "https://openapi.coredao.org/api?module=contract&action=getsourcecode&address=".to_owned();
            url.append(address);
            url.append("&apikey=");
            url.append(api_key);
            url
        },
        AdapterKind::Snowtrace => {
            let mut url =
                "https://api.routescan.io/v2/network/mainnet/evm/43114/etherscan/api?module=contract&action=getsourcecode&address=".to_owned();
            url.append(address);
            url
        },
        AdapterKind::Generic => {
            let mut url = "https://api.etherscan.io/v2/api?chainid=".to_owned();
            let digits = u32_decimal(chain_id);
            url.append(digits.as_str());
            url.append("&module=contract&action=getsourcecode&address=");
            url.append(address);
            url.append("&apikey=");
            url.append(api_key);
            url
        },
    }
}

/// What decoding a raw response body by an adapter yields: the parsed
/// envelope handed to the adapter's decoding rule; an unparsable body is a
/// fatal decode failure.
pub open spec fn spec_decode_response(
    adapter: AdapterKind,
    address: Seq<char>,
    body: Seq<char>,
) -> Result<(Seq<FileView>, bool), DecodeError> {
    match json_of(body) {
        None => Err(DecodeError::InvalidJson),
        Some(envelope) => match adapter {
            AdapterKind::Ailayer | AdapterKind::Mode => match spec_decode_single_file(
                address,
                envelope,
            ) {
                Ok(fs) => Ok((fs, false)),
                Err(e) => Err(e),
            },
            AdapterKind::Merlin => spec_decode_status_multi(
                address,
                envelope,
                WrapRule::Direct,
                StatusKind::Text,
            ),
            AdapterKind::Bitlayer => spec_decode_status_multi(
                address,
                envelope,
                WrapRule::Direct,
                StatusKind::Numeric,
            ),
            AdapterKind::Core => spec_decode_status_multi(
                address,
                envelope,
                WrapRule::StripDetected,
                StatusKind::Text,
            ),
            AdapterKind::Snowtrace | AdapterKind::Generic => spec_decode_mixed(address, envelope),
        },
    }
}

/// Decode the raw JSON body an adapter's request came back with.
pub fn decode_response(adapter: AdapterKind, address: &str, body: &str) -> (r: Result<
    DecodeResult,
    DecodeError,
>)
    ensures
        match r {
            Ok(d) => spec_decode_response(adapter, address@, body@) == Ok::<
                (Seq<FileView>, bool),
                DecodeError,
            >((files_view(d.files@), d.status_failed)),
            Err(e) => spec_decode_response(adapter, address@, body@) == Err::<
                (Seq<FileView>, bool),
                DecodeError,
            >(e),
        },
{
    let envelope = match parse_json(body) {
        Ok(v) => v,
        Err(e) => {
            return Err(e);
        },
    };
    match adapter {
        AdapterKind::Ailayer | AdapterKind::Mode => match decode_single_file(address, &envelope) {
            Ok(files) => Ok(DecodeResult { files, status_failed: false }),
            Err(e) => Err(e),
        },
        AdapterKind::Merlin => decode_status_multi(
            address,
            &envelope,
            WrapRule::Direct,
            StatusKind::Text,
        ),
        AdapterKind::Bitlayer => decode_status_multi(
            address,
            &envelope,
            WrapRule::Direct,
            StatusKind::Numeric,
        ),
        AdapterKind::Core => decode_status_multi(
            address,
            &envelope,
            WrapRule::StripDetected,
            StatusKind::Text,
        ),
        AdapterKind::Snowtrace | AdapterKind::Generic => decode_mixed(address, &envelope),
    }
}

} // verus!
