use vstd::prelude::*;

verus! {

/// The declared type of a reading.
#[derive(Clone, Copy, Debug, PartialEq, Eq, Structural)]
pub enum DataType {
    Boolean,
    Integer,
    Float,
    String,
}

/// A dynamically typed value, held as what each typed reading of it yields.
///
/// Each field is `None` where the value cannot be read as that type. A float
/// is held as its IEEE-754 bit pattern.
#[derive(Clone, Debug)]
pub struct Scalar {
    pub as_bool: Option<bool>,
    pub as_i64: Option<i64>,
    pub as_f64_bits: Option<u64>,
    pub as_str: Option<String>,
}

/// What a reading is: its identifier, its display name and its declared type.
#[derive(Clone, Debug)]
pub struct Description {
    pub id: String,
    pub name: String,
    pub typ: DataType,
}

/// One named, typed value of a snapshot.
#[derive(Clone, Debug)]
pub struct ReadingEntry {
    pub description: Description,
    pub value: Scalar,
}

/// All readings taken by one poll of the device, in the device's order.
#[derive(Clone, Debug)]
pub struct ReadingSnapshot {
    pub values: Vec<ReadingEntry>,
}

impl Scalar {
    /// A value that no typed reading accepts (a missing value).
    pub fn missing() -> (r: Scalar)
        ensures
            r.as_bool is None,
            r.as_i64 is None,
            r.as_f64_bits is None,
            r.as_str is None,
    {
        Scalar { as_bool: None, as_i64: None, as_f64_bits: None, as_str: None }
    }
}

} // verus!
