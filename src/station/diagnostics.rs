//! The diagnostics that a connected station reports.

use crate::text::str_equal;
use crate::value::{
    error_of, first_error, i16_field, required, str_field, u16_field, u32_field, u8_field,
    DecodeError, PropertyMap,
};
use vstd::prelude::*;

verus! {

/// The security of the current connection.
#[derive(Debug, Clone, Copy, PartialEq, Eq, Structural)]
pub enum StationSecurity {
    Open,
    WPA2Enterprise,
    WPA1Personal,
    WPA2Personal,
    WPA2EnterpriseFt,
    WPA2PersonalFt,
    WPA3Personal,
    WPA3PersonalFt,
    Owe,
    Fils,
    FilsFt,
    Osen,
    Unknown,
}

impl StationSecurity {
    pub open spec fn spec_from_name(s: Seq<char>) -> Option<StationSecurity> {
        if s == "Open"@ {
            Some(StationSecurity::Open)
        } else if s == "WPA2-Enterprise"@ {
            Some(StationSecurity::WPA2Enterprise)
        } else if s == "WPA1-Personal"@ {
            Some(StationSecurity::WPA1Personal)
        } else if s == "WPA2-Personal"@ {
            Some(StationSecurity::WPA2Personal)
        } else if s == "WPA2-Enterprise + FT"@ {
            Some(StationSecurity::WPA2EnterpriseFt)
        } else if s == "WPA2-Personal + FT"@ {
            Some(StationSecurity::WPA2PersonalFt)
        } else if s == "WPA3-Personal"@ {
            Some(StationSecurity::WPA3Personal)
        } else if s == "WPA3-Personal + FT"@ {
            Some(StationSecurity::WPA3PersonalFt)
        } else if s == "OWE"@ {
            Some(StationSecurity::Owe)
        } else if s == "FILS"@ {
            Some(StationSecurity::Fils)
        } else if s == "FILS + FT"@ {
            Some(StationSecurity::FilsFt)
        } else if s == "OSEN"@ {
            Some(StationSecurity::Osen)
        } else if s == "Unknown"@ {
            Some(StationSecurity::Unknown)
        } else {
            None
        }
    }

    /// The member that the daemon's string names, if any.
    pub fn from_name(s: &str) -> (r: Option<StationSecurity>)
        ensures
            r == Self::spec_from_name(s@),
    {
        if str_equal(s, "Open") {
            Some(StationSecurity::Open)
        } else if str_equal(s, "WPA2-Enterprise") {
            Some(StationSecurity::WPA2Enterprise)
        } else if str_equal(s, "WPA1-Personal") {
            Some(StationSecurity::WPA1Personal)
        } else if str_equal(s, "WPA2-Personal") {
            Some(StationSecurity::WPA2Personal)
        } else if str_equal(s, "WPA2-Enterprise + FT") {
            Some(StationSecurity::WPA2EnterpriseFt)
        } else if str_equal(s, "WPA2-Personal + FT") {
            Some(StationSecurity::WPA2PersonalFt)
        } else if str_equal(s, "WPA3-Personal") {
            Some(StationSecurity::WPA3Personal)
        } else if str_equal(s, "WPA3-Personal + FT") {
            Some(StationSecurity::WPA3PersonalFt)
        } else if str_equal(s, "OWE") {
            Some(StationSecurity::Owe)
        } else if str_equal(s, "FILS") {
            Some(StationSecurity::Fils)
        } else if str_equal(s, "FILS + FT") {
            Some(StationSecurity::FilsFt)
        } else if str_equal(s, "OSEN") {
            Some(StationSecurity::Osen)
        } else if str_equal(s, "Unknown") {
            Some(StationSecurity::Unknown)
        } else {
            None
        }
    }
}

/// The 802.11 mode of a link direction.
#[derive(Debug, Clone, Copy, PartialEq, Eq, Structural)]
pub enum Mode {
    N,
    AC,
    AX,
}

impl Mode {
    pub open spec fn spec_from_name(s: Seq<char>) -> Option<Mode> {
        if s == "802.11n"@ {
            Some(Mode::N)
        } else if s == "802.11ac"@ {
            Some(Mode::AC)
        } else if s == "802.11ax"@ {
            Some(Mode::AX)
        } else {
            None
        }
    }

    /// The member that the daemon's string names, if any.
    pub fn from_name(s: &str) -> (r: Option<Mode>)
        ensures
            r == Self::spec_from_name(s@),
    {
        if str_equal(s, "802.11n") {
            Some(Mode::N)
        } else if str_equal(s, "802.11ac") {
            Some(Mode::AC)
        } else if str_equal(s, "802.11ax") {
            Some(Mode::AX)
        } else {
            None
        }
    }
}

/// The pairwise cipher of the current connection.
#[derive(Debug, Clone, Copy, PartialEq, Eq, Structural)]
pub enum PairwiseCipher {
    Tkip,
    Ccmp128,
    Ccmp256,
    Gcmp128,
    Gcmp256,
}

impl PairwiseCipher {
    pub open spec fn spec_from_name(s: Seq<char>) -> Option<PairwiseCipher> {
        if s == "TKIP"@ {
            Some(PairwiseCipher::Tkip)
        } else if s == "CCMP-128"@ {
            Some(PairwiseCipher::Ccmp128)
        } else if s == "CCMP-256"@ {
            Some(PairwiseCipher::Ccmp256)
        } else if s == "GCMP-128"@ {
            Some(PairwiseCipher::Gcmp128)
        } else if s == "GCMP-256"@ {
            Some(PairwiseCipher::Gcmp256)
        } else {
            None
        }
    }

    /// The member that the daemon's string names, if any.
    pub fn from_name(s: &str) -> (r: Option<PairwiseCipher>)
        ensures
            r == Self::spec_from_name(s@),
    {
        if str_equal(s, "TKIP") {
            Some(PairwiseCipher::Tkip)
        } else if str_equal(s, "CCMP-128") {
            Some(PairwiseCipher::Ccmp128)
        } else if str_equal(s, "CCMP-256") {
            Some(PairwiseCipher::Ccmp256)
        } else if str_equal(s, "GCMP-128") {
            Some(PairwiseCipher::Gcmp128)
        } else if str_equal(s, "GCMP-256") {
            Some(PairwiseCipher::Gcmp256)
        } else {
            None
        }
    }
}

/// A string field read as a member of `StationSecurity`.
pub open spec fn security_field(m: Seq<(String, crate::value::PropValue)>, key: Seq<char>) -> Result<Option<StationSecurity>, DecodeError> {
    match str_field(m, key) {
        Ok(Some(s)) => match StationSecurity::spec_from_name(s) {
            Some(x) => Ok(Some(x)),
            None => Err(DecodeError::IncorrectType),
        },
        Ok(None) => Ok(None),
        Err(e) => Err(e),
    }
}

/// A string field read as a member of `Mode`.
pub open spec fn mode_field(m: Seq<(String, crate::value::PropValue)>, key: Seq<char>) -> Result<Option<Mode>, DecodeError> {
    match str_field(m, key) {
        Ok(Some(s)) => match Mode::spec_from_name(s) {
            Some(x) => Ok(Some(x)),
            None => Err(DecodeError::IncorrectType),
        },
        Ok(None) => Ok(None),
        Err(e) => Err(e),
    }
}

/// A string field read as a member of `PairwiseCipher`.
pub open spec fn cipher_field(m: Seq<(String, crate::value::PropValue)>, key: Seq<char>) -> Result<Option<PairwiseCipher>, DecodeError> {
    match str_field(m, key) {
        Ok(Some(s)) => match PairwiseCipher::spec_from_name(s) {
            Some(x) => Ok(Some(x)),
            None => Err(DecodeError::IncorrectType),
        },
        Ok(None) => Ok(None),
        Err(e) => Err(e),
    }
}

/// A rate in units of 100 kbit/s, scaled to kbit/s.
pub open spec fn scaled_rate(r: Option<u32>) -> Option<u64> {
    match r {
        Some(x) => Some((100 * x) as u64),
        None => None,
    }
}

/// A count widened to 64 bits.
pub open spec fn widened(r: Option<u32>) -> Option<u64> {
    match r {
        Some(x) => Some(x as u64),
        None => None,
    }
}

/// Diagnostics of the active connection.
#[derive(Debug)]
pub struct ActiveStationDiagnostics {
    pub connected_bss: String,
    pub frequency_mhz: u32,
    pub channel: u16,
    pub security: StationSecurity,
    pub rssi: Option<i16>,
    pub average_rssi: Option<i16>,
    pub rx_mode: Option<Mode>,
    pub rx_rate_kbps: Option<u64>,
    pub rx_mcs: Option<u8>,
    pub tx_mode: Option<Mode>,
    pub tx_rate_kbps: Option<u64>,
    pub tx_mcs: Option<u8>,
    pub pairwise_cipher: Option<PairwiseCipher>,
    /// Milliseconds since the last activity on the link.
    pub inactive_time_ms: Option<u64>,
    /// Seconds since the connection was made.
    pub connected_time_s: Option<u64>,
}

/// The first of the four required connection fields that fails to decode.
pub open spec fn connection_error(m: Seq<(String, crate::value::PropValue)>) -> Option<DecodeError> {
    first_error(
        error_of(required(str_field(m, "ConnectedBss"@))),
        first_error(
            error_of(required(u32_field(m, "Frequency"@))),
            first_error(
                error_of(required(u16_field(m, "Channel"@))),
                error_of(required(security_field(m, "Security"@))),
            ),
        ),
    )
}

/// The first of the receive-side fields that fails to decode.
pub open spec fn rx_error(m: Seq<(String, crate::value::PropValue)>) -> Option<DecodeError> {
    first_error(
        error_of(mode_field(m, "RxMode"@)),
        first_error(error_of(u32_field(m, "RxBitrate"@)), error_of(u8_field(m, "RxMCS"@))),
    )
}

/// The first of the transmit-side fields that fails to decode.
pub open spec fn tx_error(m: Seq<(String, crate::value::PropValue)>) -> Option<DecodeError> {
    first_error(
        error_of(mode_field(m, "TxMode"@)),
        first_error(error_of(u32_field(m, "TxBitrate"@)), error_of(u8_field(m, "TxMCS"@))),
    )
}

/// The first of the remaining fields that fails to decode.
pub open spec fn tail_error(m: Seq<(String, crate::value::PropValue)>) -> Option<DecodeError> {
    first_error(
        error_of(cipher_field(m, "PairwiseCipher"@)),
        first_error(
            error_of(u32_field(m, "InactiveTime"@)),
            error_of(u32_field(m, "ConnectedTime"@)),
        ),
    )
}

/// The first field of the diagnostics dictionary that fails to decode, in
/// the order in which the fields are read.
pub open spec fn diagnostics_error(m: Seq<(String, crate::value::PropValue)>) -> Option<DecodeError> {
    first_error(
        connection_error(m),
        first_error(
            error_of(i16_field(m, "RSSI"@)),
            first_error(
                error_of(i16_field(m, "AverageRSSI"@)),
                first_error(rx_error(m), first_error(tx_error(m), tail_error(m))),
            ),
        ),
    )
}

impl ActiveStationDiagnostics {
    /// Reads the diagnostics dictionary. The four connection fields are
    /// required; the others may be absent. Every present field must have
    /// its expected kind.
    pub fn from_zbus_map(body: &PropertyMap) -> (r: Result<ActiveStationDiagnostics, DecodeError>)
        ensures
            match r {
                Err(e) => diagnostics_error(body@) == Some(e),
                Ok(d) => {
                    &&& diagnostics_error(body@) is None
                    &&& str_field(body@, "ConnectedBss"@) == Ok::<Option<Seq<char>>, DecodeError>(Some(d.connected_bss@))
                    &&& u32_field(body@, "Frequency"@) == Ok::<Option<u32>, DecodeError>(Some(d.frequency_mhz))
                    &&& u16_field(body@, "Channel"@) == Ok::<Option<u16>, DecodeError>(Some(d.channel))
                    &&& security_field(body@, "Security"@) == Ok::<Option<StationSecurity>, DecodeError>(Some(d.security))
                    &&& i16_field(body@, "RSSI"@) == Ok::<Option<i16>, DecodeError>(d.rssi)
                    &&& i16_field(body@, "AverageRSSI"@) == Ok::<Option<i16>, DecodeError>(d.average_rssi)
                    &&& mode_field(body@, "RxMode"@) == Ok::<Option<Mode>, DecodeError>(d.rx_mode)
                    &&& d.rx_rate_kbps == scaled_rate(u32_field(body@, "RxBitrate"@)->Ok_0)
                    &&& u8_field(body@, "RxMCS"@) == Ok::<Option<u8>, DecodeError>(d.rx_mcs)
                    &&& mode_field(body@, "TxMode"@) == Ok::<Option<Mode>, DecodeError>(d.tx_mode)
                    &&& d.tx_rate_kbps == scaled_rate(u32_field(body@, "TxBitrate"@)->Ok_0)
                    &&& u8_field(body@, "TxMCS"@) == Ok::<Option<u8>, DecodeError>(d.tx_mcs)
                    &&& cipher_field(body@, "PairwiseCipher"@) == Ok::<Option<PairwiseCipher>, DecodeError>(d.pairwise_cipher)
                    &&& d.inactive_time_ms == widened(u32_field(body@, "InactiveTime"@)->Ok_0)
                    &&& d.connected_time_s == widened(u32_field(body@, "ConnectedTime"@)->Ok_0)
                },
            },
    {
        let connected_bss = match body.get_str("ConnectedBss") {
            Ok(Some(s)) => s,
            Ok(None) => return Err(DecodeError::MissingField),
            Err(e) => return Err(e),
        };
        let frequency_mhz = match body.get_u32("Frequency") {
            Ok(Some(x)) => x,
            Ok(None) => return Err(DecodeError::MissingField),
            Err(e) => return Err(e),
        };
        let channel = match body.get_u16("Channel") {
            Ok(Some(x)) => x,
            Ok(None) => return Err(DecodeError::MissingField),
            Err(e) => return Err(e),
        };
        let security = match read_security(body, "Security") {
            Ok(Some(x)) => x,
            Ok(None) => return Err(DecodeError::MissingField),
            Err(e) => return Err(e),
        };
        let rssi = body.get_i16("RSSI")?;
        let average_rssi = body.get_i16("AverageRSSI")?;
        let rx_mode = read_mode(body, "RxMode")?;
        let rx_rate = body.get_u32("RxBitrate")?;
        let rx_mcs = body.get_u8("RxMCS")?;
        let tx_mode = read_mode(body, "TxMode")?;
        let tx_rate = body.get_u32("TxBitrate")?;
        let tx_mcs = body.get_u8("TxMCS")?;
        let pairwise_cipher = read_cipher(body, "PairwiseCipher")?;
        let inactive_time = body.get_u32("InactiveTime")?;
        let connected_time = body.get_u32("ConnectedTime")?;
        Ok(ActiveStationDiagnostics {
            connected_bss,
            frequency_mhz,
            channel,
            security,
            rssi,
            average_rssi,
            rx_mode,
            rx_rate_kbps: scale_rate(rx_rate),
            rx_mcs,
            tx_mode,
            tx_rate_kbps: scale_rate(tx_rate),
            tx_mcs,
            pairwise_cipher,
            inactive_time_ms: widen(inactive_time),
            connected_time_s: widen(connected_time),
        })
    }
}

fn scale_rate(r: Option<u32>) -> (s: Option<u64>)
    ensures
        s == scaled_rate(r),
{
    match r {
        Some(x) => Some(100 * (x as u64)),
        None => None,
    }
}

fn widen(r: Option<u32>) -> (s: Option<u64>)
    ensures
        s == widened(r),
{
    match r {
        Some(x) => Some(x as u64),
        None => None,
    }
}

fn read_security(body: &PropertyMap, key: &str) -> (r: Result<Option<StationSecurity>, DecodeError>)
    ensures
        r == security_field(body@, key@),
{
    match body.get_str(key)? {
        Some(s) => match StationSecurity::from_name(s.as_str()) {
            Some(x) => Ok(Some(x)),
            None => Err(DecodeError::IncorrectType),
        },
        None => Ok(None),
    }
}

fn read_mode(body: &PropertyMap, key: &str) -> (r: Result<Option<Mode>, DecodeError>)
    ensures
        r == mode_field(body@, key@),
{
    match body.get_str(key)? {
        Some(s) => match Mode::from_name(s.as_str()) {
            Some(x) => Ok(Some(x)),
            None => Err(DecodeError::IncorrectType),
        },
        None => Ok(None),
    }
}

fn read_cipher(body: &PropertyMap, key: &str) -> (r: Result<Option<PairwiseCipher>, DecodeError>)
    ensures
        r == cipher_field(body@, key@),
{
    match body.get_str(key)? {
        Some(s) => match PairwiseCipher::from_name(s.as_str()) {
            Some(x) => Ok(Some(x)),
            None => Err(DecodeError::IncorrectType),
        },
        None => Ok(None),
    }
}

} // verus!
