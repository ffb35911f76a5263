//! Property values as they travel on the bus, and typed extraction from
//! string-keyed property dictionaries.

use crate::text::str_equal;
use vstd::prelude::*;

verus! {

/// A property value, tagged by its wire kind.
#[derive(Debug)]
pub enum PropValue {
    Bool(bool),
    Byte(u8),
    I16(i16),
    U16(u16),
    I32(i32),
    U32(u32),
    I64(i64),
    U64(u64),
    Str(String),
    ObjectPath(String),
    /// A kind that this library does not read (arrays, dictionaries, ...).
    Other,
}

/// Why a value could not be read out of a dictionary.
#[derive(Debug, Clone, Copy, PartialEq, Eq, Structural)]
pub enum DecodeError {
    /// A required key is absent.
    MissingField,
    /// The key is present but its value has another kind, or a string that
    /// names no known member.
    IncorrectType,
}

/// A string-keyed dictionary of property values, in the order received.
#[derive(Debug)]
pub struct PropertyMap {
    pub entries: Vec<(String, PropValue)>,
}

impl View for PropertyMap {
    type V = Seq<(String, PropValue)>;

    open spec fn view(&self) -> Seq<(String, PropValue)> {
        self.entries@
    }
}

/// The value stored under `key`: the first entry that carries it.
pub open spec fn lookup(entries: Seq<(String, PropValue)>, key: Seq<char>) -> Option<PropValue>
    decreases entries.len(),
{
    if entries.len() == 0 {
        None
    } else if entries[0].0@ == key {
        Some(entries[0].1)
    } else {
        lookup(entries.drop_first(), key)
    }
}

/// An absent optional value, a present value of the expected kind, or a
/// kind mismatch.
pub open spec fn bool_field(m: Seq<(String, PropValue)>, key: Seq<char>) -> Result<Option<bool>, DecodeError> {
    match lookup(m, key) {
        None => Ok(None),
        Some(PropValue::Bool(x)) => Ok(Some(x)),
        Some(_) => Err(DecodeError::IncorrectType),
    }
}

pub open spec fn u8_field(m: Seq<(String, PropValue)>, key: Seq<char>) -> Result<Option<u8>, DecodeError> {
    match lookup(m, key) {
        None => Ok(None),
        Some(PropValue::Byte(x)) => Ok(Some(x)),
        Some(_) => Err(DecodeError::IncorrectType),
    }
}

pub open spec fn i16_field(m: Seq<(String, PropValue)>, key: Seq<char>) -> Result<Option<i16>, DecodeError> {
    match lookup(m, key) {
        None => Ok(None),
        Some(PropValue::I16(x)) => Ok(Some(x)),
        Some(_) => Err(DecodeError::IncorrectType),
    }
}

pub open spec fn u16_field(m: Seq<(String, PropValue)>, key: Seq<char>) -> Result<Option<u16>, DecodeError> {
    match lookup(m, key) {
        None => Ok(None),
        Some(PropValue::U16(x)) => Ok(Some(x)),
        Some(_) => Err(DecodeError::IncorrectType),
    }
}

pub open spec fn u32_field(m: Seq<(String, PropValue)>, key: Seq<char>) -> Result<Option<u32>, DecodeError> {
    match lookup(m, key) {
        None => Ok(None),
        Some(PropValue::U32(x)) => Ok(Some(x)),
        Some(_) => Err(DecodeError::IncorrectType),
    }
}

pub open spec fn str_field(m: Seq<(String, PropValue)>, key: Seq<char>) -> Result<Option<Seq<char>>, DecodeError> {
    match lookup(m, key) {
        None => Ok(None),
        Some(PropValue::Str(s)) => Ok(Some(s@)),
        Some(_) => Err(DecodeError::IncorrectType),
    }
}

/// A field that must be present: absence becomes `MissingField`.
pub open spec fn required<T>(r: Result<Option<T>, DecodeError>) -> Result<T, DecodeError> {
    match r {
        Ok(Some(x)) => Ok(x),
        Ok(None) => Err(DecodeError::MissingField),
        Err(e) => Err(e),
    }
}

/// The error of a field's result, if any.
pub open spec fn error_of<T>(r: Result<T, DecodeError>) -> Option<DecodeError> {
    match r {
        Ok(_) => None,
        Err(e) => Some(e),
    }
}

/// The first of two possible errors.
pub open spec fn first_error(a: Option<DecodeError>, b: Option<DecodeError>) -> Option<DecodeError> {
    if a is Some {
        a
    } else {
        b
    }
}

impl PropertyMap {
    pub fn new() -> (r: PropertyMap)
        ensures
            r@.len() == 0,
    {
        PropertyMap { entries: Vec::new() }
    }

    /// Adds an entry at the end.
    pub fn push(&mut self, key: String, value: PropValue)
        ensures
            final(self)@ == old(self)@.push((key, value)),
    {
        self.entries.push((key, value));
    }

    /// The value stored under `key`.
    pub fn get(&self, key: &str) -> (r: Option<&PropValue>)
        ensures
            match r {
                Some(v) => lookup(self@, key@) == Some(*v),
                None => lookup(self@, key@) is None,
            },
    {
        let n = self.entries.len();
        let mut i: usize = 0;
        proof {
            assert(self@.subrange(0, n as int) =~= self@);
        }
        while i < n
            invariant
                n == self@.len(),
                i <= n,
                lookup(self@, key@) == lookup(self@.subrange(i as int, n as int), key@),
            decreases n - i,
        {
            proof {
                assert(self@.subrange(i as int, n as int).drop_first() =~= self@.subrange(
                    i + 1,
                    n as int,
                ));
            }
            if str_equal(self.entries[i].0.as_str(), key) {
                return Some(&self.entries[i].1);
            }
            i = i + 1;
        }
        None
    }

    pub fn get_bool(&self, key: &str) -> (r: Result<Option<bool>, DecodeError>)
        ensures
            r == bool_field(self@, key@),
    {
        match self.get(key) {
            None => Ok(None),
            Some(PropValue::Bool(x)) => Ok(Some(*x)),
            Some(_) => Err(DecodeError::IncorrectType),
        }
    }

    pub fn get_u8(&self, key: &str) -> (r: Result<Option<u8>, DecodeError>)
        ensures
            r == u8_field(self@, key@),
    {
        match self.get(key) {
            None => Ok(None),
            Some(PropValue::Byte(x)) => Ok(Some(*x)),
            Some(_) => Err(DecodeError::IncorrectType),
        }
    }

    pub fn get_i16(&self, key: &str) -> (r: Result<Option<i16>, DecodeError>)
        ensures
            r == i16_field(self@, key@),
    {
        match self.get(key) {
            None => Ok(None),
            Some(PropValue::I16(x)) => Ok(Some(*x)),
            Some(_) => Err(DecodeError::IncorrectType),
        }
    }

    pub fn get_u16(&self, key: &str) -> (r: Result<Option<u16>, DecodeError>)
        ensures
            r == u16_field(self@, key@),
    {
        match self.get(key) {
            None => Ok(None),
            Some(PropValue::U16(x)) => Ok(Some(*x)),
            Some(_) => Err(DecodeError::IncorrectType),
        }
    }

    pub fn get_u32(&self, key: &str) -> (r: Result<Option<u32>, DecodeError>)
        ensures
            r == u32_field(self@, key@),
    {
        match self.get(key) {
            None => Ok(None),
            Some(PropValue::U32(x)) => Ok(Some(*x)),
            Some(_) => Err(DecodeError::IncorrectType),
        }
    }

    /// A string value; the result's view is the stored string's.
    pub fn get_str(&self, key: &str) -> (r: Result<Option<String>, DecodeError>)
        ensures
            match r {
                Ok(Some(s)) => str_field(self@, key@) == Ok::<Option<Seq<char>>, DecodeError>(Some(s@)),
                Ok(None) => str_field(self@, key@) == Ok::<Option<Seq<char>>, DecodeError>(None),
                Err(e) => str_field(self@, key@) == Err::<Option<Seq<char>>, DecodeError>(e),
            },
    {
        match self.get(key) {
            None => Ok(None),
            Some(PropValue::Str(s)) => Ok(Some(s.clone())),
            Some(_) => Err(DecodeError::IncorrectType),
        }
    }
}

} // verus!
