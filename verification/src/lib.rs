//! Reader/writer library for the Matroska container format and its EBML
//! (Extensible Binary Meta Language) encoding, working over in-memory byte
//! buffers.

use vstd::prelude::*;

pub mod bytes;
pub mod codegen;
pub mod errors;
pub mod ids;
pub mod element;
pub mod io;
pub mod laws;
pub mod model;
pub mod schema;
pub mod structs;

pub use errors::MatroskaError;

verus! {

/// The declared extent of an element's payload.
#[derive(Debug, Clone, Copy, PartialEq, Eq, Structural)]
pub enum ElementSize {
    /// The payload occupies exactly this many bytes.
    Sized(u64),
    /// The reserved all-ones size pattern: the extent is bounded by the
    /// enclosing structural element or by the end of the input.
    Unknown(u64),
}

impl ElementSize {
    /// The raw numeric value carried by either variant.
    pub open spec fn value(self) -> u64 {
        match self {
            ElementSize::Sized(val) => val,
            ElementSize::Unknown(val) => val,
        }
    }

    /// The raw numeric value carried by the size, whichever variant holds.
    pub fn unwrap(&self) -> (r: u64)
        ensures
            r == self.value(),
    {
        match self {
            ElementSize::Sized(val) => *val,
            ElementSize::Unknown(val) => *val,
        }
    }

    /// The payload length, or `InvalidSize` for an unknown-size element.
    pub fn try_sized(&self, id: ids::EbmlId) -> (r: Result<u64, MatroskaError>)
        ensures
            r is Ok <==> self is Sized,
            self is Sized ==> r == Ok::<u64, MatroskaError>(self->Sized_0),
            self is Unknown ==> r == Err::<u64, MatroskaError>(
                MatroskaError::InvalidSize(id, *self),
            ),
    {
        match self {
            ElementSize::Sized(size) => Ok(*size),
            ElementSize::Unknown(_) => Err(MatroskaError::InvalidSize(id, *self)),
        }
    }
}

impl Default for ElementSize {
    /// An element of unknown extent, with the one-byte reserved pattern.
    fn default() -> (r: Self)
        ensures
            r == ElementSize::Unknown(0x7Fu64),
    {
        ElementSize::Unknown(0x7F)
    }
}

/// The eight wire types an element's payload can have.
#[derive(Debug, Eq, PartialEq, Clone, Copy, Structural)]
pub enum ElementType {
    UInteger,
    Integer,
    Float,
    String,
    Utf8,
    Binary,
    Date,
    Struct,
}

/// An instant on the Matroska timeline: a signed nanosecond offset from
/// 2001-01-01 00:00:00 UTC.
#[derive(Debug, Clone, Copy, PartialEq, Eq, Structural)]
pub struct MkvDate {
    pub ns: i64,
}

/// A float payload, held as its IEEE-754 big-endian bit pattern.
#[derive(Debug, Clone, Copy, PartialEq, Eq, Structural)]
pub enum FloatValue {
    F32(u32),
    F64(u64),
}

/// Relies on `rand::rngs::ThreadRng` and `rand::Rng::gen_range`: a value drawn
/// uniformly from the half-open range handed to it; nothing more is assumed of
/// which value comes back.
#[verifier::external_body]
fn rnd_id() -> (r: u64)
    ensures
        u32::MAX as u64 <= r < u64::MAX,
{
    rand::Rng::gen_range(&mut rand::thread_rng(), u32::MAX as u64..u64::MAX)
}

/// One owned child value of a structural element, carrying the two ordering
/// slots: an optional producer-assigned `index` and a per-instance random
/// secondary key that breaks ties stably within one process.
#[derive(Debug)]
pub struct Ebml<T> {
    pub index: Option<u64>,
    pub v: Box<T>,
    pub id: u64,
}

impl<T> Ebml<T> {
    /// Wrap a value with no explicit position and a fresh secondary key.
    pub fn new(v: T) -> (r: Self)
        ensures
            r.index is None,
            *r.v == v,
            u32::MAX as u64 <= r.id < u64::MAX,
    {
        Ebml { index: None, v: Box::new(v), id: rnd_id() }
    }

    /// Wrap a value pinned to an explicit serialisation position.
    pub fn new_index(index: u64, v: T) -> (r: Self)
        ensures
            r.index == Some(index),
            *r.v == v,
            u32::MAX as u64 <= r.id < u64::MAX,
    {
        Ebml { index: Some(index), v: Box::new(v), id: rnd_id() }
    }

    /// The secondary ordering key.
    pub fn key(&self) -> (r: u64)
        ensures
            r == self.id,
    {
        self.id
    }
}

/// A duplicate of a child with a copyable payload: same position, key, and
/// value.
pub fn dup_ebml_copy<T: Copy>(e: &Ebml<T>) -> (r: Ebml<T>)
    ensures
        r.index == e.index,
        r.id == e.id,
        *r.v == *e.v,
{
    Ebml { index: e.index, v: Box::new(*e.v), id: e.id }
}

/// A duplicate of a text child: same position, key, and characters.
pub fn dup_ebml_string(e: &Ebml<String>) -> (r: Ebml<String>)
    ensures
        r.index == e.index,
        r.id == e.id,
        (*r.v)@ == (*e.v)@,
{
    Ebml { index: e.index, v: Box::new((*e.v).clone()), id: e.id }
}

/// A duplicate of a binary child: same position, key, and bytes.
pub fn dup_ebml_bytes(e: &Ebml<Vec<u8>>) -> (r: Ebml<Vec<u8>>)
    ensures
        r.index == e.index,
        r.id == e.id,
        (*r.v)@ == (*e.v)@,
{
    let src: &Vec<u8> = &*e.v;
    let mut out: Vec<u8> = Vec::new();
    let n = src.len();
    let mut i: usize = 0;
    while i < n
        invariant
            i <= n,
            n == src@.len(),
            out@ == src@.take(i as int),
        decreases n - i,
    {
        out.push(src[i]);
        proof {
            assert(out@ =~= src@.take(i + 1));
        }
        i += 1;
    }
    proof {
        assert(src@.take(n as int) =~= src@);
    }
    Ebml { index: e.index, v: Box::new(out), id: e.id }
}

impl Default for MkvDate {
    /// The Matroska epoch itself: 2001-01-01 00:00:00 UTC.
    fn default() -> (r: Self)
        ensures
            r.ns == 0,
    {
        MkvDate { ns: 0 }
    }
}

impl<T: Default> Default for Ebml<T> {
    fn default() -> (r: Self)
        ensures
            r.index is None,
            call_ensures(T::default, (), *r.v),
            u32::MAX as u64 <= r.id < u64::MAX,
    {
        Ebml { index: None, v: Box::new(T::default()), id: rnd_id() }
    }
}

} // verus!
