//! Information about the daemon itself.

use crate::value::{bool_field, error_of, first_error, required, str_field, DecodeError, PropertyMap, PropValue};
use vstd::prelude::*;

verus! {

/// What the daemon reports about itself.
#[derive(Debug, Clone)]
pub struct DaemonInfo {
    /// The directory that holds the daemon's state.
    pub state_dir: String,
    pub version: String,
    pub network_config_enabled: bool,
}

/// The first field of the daemon's information dictionary that fails to decode.
pub open spec fn daemon_info_error(m: Seq<(String, PropValue)>) -> Option<DecodeError> {
    first_error(
        error_of(required(str_field(m, "StateDirectory"@))),
        first_error(
            error_of(required(str_field(m, "Version"@))),
            error_of(required(bool_field(m, "NetworkConfigurationEnabled"@))),
        ),
    )
}

impl DaemonInfo {
    /// Reads the daemon's information dictionary; all three fields are required.
    pub fn from_zbus_map(body: &PropertyMap) -> (r: Result<DaemonInfo, DecodeError>)
        ensures
            match r {
                Err(e) => daemon_info_error(body@) == Some(e),
                Ok(info) => {
                    &&& daemon_info_error(body@) is None
                    &&& str_field(body@, "StateDirectory"@) == Ok::<Option<Seq<char>>, DecodeError>(Some(info.state_dir@))
                    &&& str_field(body@, "Version"@) == Ok::<Option<Seq<char>>, DecodeError>(Some(info.version@))
                    &&& bool_field(body@, "NetworkConfigurationEnabled"@) == Ok::<Option<bool>, DecodeError>(Some(info.network_config_enabled))
                },
            },
    {
        let state_dir = match body.get_str("StateDirectory") {
            Ok(Some(s)) => s,
            Ok(None) => return Err(DecodeError::MissingField),
            Err(e) => return Err(e),
        };
        let version = match body.get_str("Version") {
            Ok(Some(s)) => s,
            Ok(None) => return Err(DecodeError::MissingField),
            Err(e) => return Err(e),
        };
        let network_config_enabled = match body.get_bool("NetworkConfigurationEnabled") {
            Ok(Some(b)) => b,
            Ok(None) => return Err(DecodeError::MissingField),
            Err(e) => return Err(e),
        };
        Ok(DaemonInfo { state_dir, version, network_config_enabled })
    }
}

} // verus!
