//! Hidden networks: access points that do not broadcast a name.

use crate::network::NetworkType;
use crate::value::DecodeError;
use vstd::prelude::*;

verus! {

/// A hidden access point as a station reports it.
#[derive(Debug, Clone)]
pub struct HiddenNetwork {
    pub address: String,
    pub signal_strength: i16,
    pub network_type: NetworkType,
}

/// Each entry's network type names a known type.
pub open spec fn all_types_known(entries: Seq<(String, i16, String)>) -> bool {
    forall|i: int| 0 <= i < entries.len() ==> (#[trigger] NetworkType::spec_from_name(entries[i].2@)) is Some
}

impl HiddenNetwork {
    /// Turns the station's list of (address, signal strength, type) entries
    /// into hidden networks, in order. An entry whose type names no known
    /// network type fails the whole list.
    pub fn from_entries(entries: Vec<(String, i16, String)>) -> (r: core::result::Result<Vec<HiddenNetwork>, DecodeError>)
        ensures
            r is Ok <==> all_types_known(entries@),
            r is Err ==> r == Err::<Vec<HiddenNetwork>, DecodeError>(DecodeError::IncorrectType),
            r matches Ok(v) ==> {
                &&& v@.len() == entries@.len()
                &&& forall|i: int| 0 <= i < v@.len() ==> {
                    &&& (#[trigger] v@[i]).address@ == entries@[i].0@
                    &&& v@[i].signal_strength == entries@[i].1
                    &&& NetworkType::spec_from_name(entries@[i].2@) == Some(v@[i].network_type)
                }
            },
    {
        let mut out: Vec<HiddenNetwork> = Vec::new();
        let n = entries.len();
        let mut i: usize = 0;
        while i < n
            invariant
                n == entries@.len(),
                i <= n,
                out@.len() == i,
                forall|j: int| 0 <= j < i ==> (#[trigger] NetworkType::spec_from_name(entries@[j].2@)) is Some,
                forall|j: int| 0 <= j < i ==> {
                    &&& (#[trigger] out@[j]).address@ == entries@[j].0@
                    &&& out@[j].signal_strength == entries@[j].1
                    &&& NetworkType::spec_from_name(entries@[j].2@) == Some(out@[j].network_type)
                },
            decreases n - i,
        {
            let entry = &entries[i];
            match NetworkType::from_name(entry.2.as_str()) {
                Some(network_type) => {
                    out.push(HiddenNetwork {
                        address: entry.0.clone(),
                        signal_strength: entry.1,
                        network_type,
                    });
                },
                None => {
                    return Err(DecodeError::IncorrectType);
                },
            }
            i = i + 1;
        }
        Ok(out)
    }
}

} // verus!
