//! The records of the archive, as the interface holds them.

use vstd::prelude::*;

verus! {

/// The metadata of a pulsar, as the archive keeps it.
#[derive(Debug, PartialEq, Eq)]
pub struct PulsarMeta {
    pub id: i32,
    pub alias: String,
    pub j_name: Option<String>,
    pub b_name: Option<String>,
    pub j2000_ra: Option<String>,
    pub j2000_dec: Option<String>,
    pub master_parfile_id: Option<i32>,
}

/// The metadata of an ephemeride file.
#[derive(Debug, PartialEq, Eq)]
pub struct ParMeta {
    pub id: i32,
    pub pulsar_id: i32,
    pub checksum: u128,
    pub file_path: String,
}

/// The metadata of a raw observation file.
#[derive(Debug, PartialEq, Eq)]
pub struct RawMeta {
    pub id: i32,
    pub file_path: String,
    pub pulsar_id: i32,
    pub observer_id: i32,
}

/// The metadata of a template file.
#[derive(Debug, PartialEq, Eq)]
pub struct TemplateMeta {
    pub id: i32,
    pub pulsar_id: i32,
    pub file_path: String,
    pub checksum: u128,
}

/// A time of arrival as the archive keeps it. The three measured values are
/// kept as the bit patterns of their IEEE 754 numbers.
#[derive(Debug, PartialEq, Eq)]
pub struct TOAInfo {
    pub id: i32,
    pub process_id: i32,
    pub template_id: i32,
    pub pulsar_id: i32,
    pub observer_id: i32,
    /// The arrival time, a double precision number.
    pub time: u64,
    /// The error in the arrival time, a single precision number.
    pub toa_err: u32,
    /// The observing frequency, a single precision number.
    pub frequency: u32,
}

/// A copy of an optional text.
pub fn clone_text(text: &Option<String>) -> (r: Option<String>)
    ensures
        r == *text,
{
    match text {
        Some(t) => Some(t.clone()),
        None => None,
    }
}

impl PulsarMeta {
    /// Every field of the record is empty.
    pub open spec fn is_null(&self) -> bool {
        &&& self.id == 0
        &&& self.alias@.len() == 0
        &&& self.j_name.is_none()
        &&& self.b_name.is_none()
        &&& self.j2000_ra.is_none()
        &&& self.j2000_dec.is_none()
        &&& self.master_parfile_id.is_none()
    }

    /// A record with every field empty. It is no valid entry of the archive.
    pub fn null() -> (r: Self)
        ensures
            r.is_null(),
    {
        PulsarMeta {
            id: 0,
            alias: String::new(),
            j_name: None,
            b_name: None,
            j2000_ra: None,
            j2000_dec: None,
            master_parfile_id: None,
        }
    }
}

impl Clone for PulsarMeta {
    fn clone(&self) -> (r: Self)
        ensures
            r == *self,
    {
        PulsarMeta {
            id: self.id,
            alias: self.alias.clone(),
            j_name: clone_text(&self.j_name),
            b_name: clone_text(&self.b_name),
            j2000_ra: clone_text(&self.j2000_ra),
            j2000_dec: clone_text(&self.j2000_dec),
            master_parfile_id: self.master_parfile_id,
        }
    }
}

impl Clone for ParMeta {
    fn clone(&self) -> (r: Self)
        ensures
            r == *self,
    {
        ParMeta {
            id: self.id,
            pulsar_id: self.pulsar_id,
            checksum: self.checksum,
            file_path: self.file_path.clone(),
        }
    }
}

impl Clone for RawMeta {
    fn clone(&self) -> (r: Self)
        ensures
            r == *self,
    {
        RawMeta {
            id: self.id,
            file_path: self.file_path.clone(),
            pulsar_id: self.pulsar_id,
            observer_id: self.observer_id,
        }
    }
}

impl Clone for TemplateMeta {
    fn clone(&self) -> (r: Self)
        ensures
            r == *self,
    {
        TemplateMeta {
            id: self.id,
            pulsar_id: self.pulsar_id,
            file_path: self.file_path.clone(),
            checksum: self.checksum,
        }
    }
}

} // verus!
