//! The element framing layer: one-element step, skip, typed body read, and
//! the flat traversal of a sized structural region.

use vstd::prelude::*;

use crate::bytes::be_val;
use crate::errors::MatroskaError;
use crate::ids::EbmlId;
use crate::io::{header_bytes, header_err, header_id, header_len, header_ok, header_size,
    read_bin, read_date, read_element_id_size, read_float, read_int, read_string, read_uint,
    read_utf8, size_encodable, write_element_id_size};
use crate::{ElementSize, ElementType, FloatValue, MkvDate};

verus! {

/// One framed unit of the stream: a known ID, its wire type, the declared
/// payload extent, and the bytes the header itself occupied.
#[derive(Debug, Clone, Copy, PartialEq, Eq, Structural)]
pub struct Element {
    pub id: EbmlId,
    pub type_: ElementType,
    pub header_len: u64,
    pub size: ElementSize,
}

/// A decoded element payload.
#[derive(Debug, PartialEq)]
pub enum ElementContent {
    UInteger(u64),
    Integer(i64),
    Float(FloatValue),
    String(String),
    Utf8(String),
    Binary(Vec<u8>),
    Date(MkvDate),
    Struct(Vec<Element>),
}

/// The element whose header starts at `pos`.
pub open spec fn elem_at(s: Seq<u8>, pos: int) -> Element {
    Element {
        id: header_id(s, pos),
        type_: header_id(s, pos).spec_type(),
        header_len: header_len(s, pos) as u64,
        size: header_size(s, pos),
    }
}

/// The flat parse of a sized structural region: the headers of its children
/// in order, each child's body skipped, the countdown failing on a child
/// whose declared extent exceeds what remains.
pub open spec fn struct_parse(s: Seq<u8>, pos: int, remaining: int) -> Result<
    Seq<Element>,
    MatroskaError,
>
    decreases remaining,
{
    if remaining <= 0 {
        Ok(Seq::empty())
    } else if !header_ok(s, pos) {
        Err(header_err(s, pos))
    } else {
        let e = elem_at(s, pos);
        match e.size {
            ElementSize::Unknown(_) => Err(MatroskaError::InvalidSize(e.id, e.size)),
            ElementSize::Sized(n) => {
                let extent = header_len(s, pos) + n;
                if extent > remaining {
                    Err(MatroskaError::InvalidSize(e.id, e.size))
                } else {
                    match struct_parse(s, pos + extent, remaining - extent) {
                        Ok(rest) => Ok(seq![e] + rest),
                        Err(er) => Err(er),
                    }
                }
            },
        }
    }
}

impl Element {
    /// Write one element header: the ID in its canonical form, then the size.
    pub fn write_header_blocking(w: &mut Vec<u8>, id: EbmlId, size: u64) -> (r: Result<
        (),
        MatroskaError,
    >)
        ensures
            r is Ok <==> size_encodable(size),
            r is Ok ==> final(w)@ == old(w)@ + header_bytes(id.spec_u64(), size),
            r is Err ==> final(w)@ == old(w)@ && r == Err::<(), MatroskaError>(
                MatroskaError::InvalidVarIntMoreThanVintMax(size),
            ),
    {
        match write_element_id_size(w, id.to_u64(), size) {
            Ok(_) => Ok(()),
            Err(e) => Err(e),
        }
    }

    /// Read one element header, leaving the caller positioned at the body.
    pub fn read_header_blocking(bytes: &[u8], pos: usize) -> (r: Result<Element, MatroskaError>)
        ensures
            r is Ok <==> header_ok(bytes@, pos as int),
            r is Ok ==> r->Ok_0 == elem_at(bytes@, pos as int),
            r is Err ==> r->Err_0 == header_err(bytes@, pos as int),
    {
        let (id, size, hl) = match read_element_id_size(bytes, pos) {
            Ok(v) => v,
            Err(e) => {
                return Err(e);
            },
        };
        Ok(Element { id, type_: id.type_(), header_len: hl, size })
    }

    /// Advance a cursor past this element's payload.  An unknown-size element
    /// cannot be skipped: its extent is not declared.
    pub fn skip_blocking(&self, pos: &mut usize) -> (r: Result<(), MatroskaError>)
        ensures
            r is Ok <==> self.size is Sized && *old(pos) + self.size.value() <= usize::MAX,
            r is Ok ==> *final(pos) == *old(pos) + self.size.value(),
            r is Err ==> *final(pos) == *old(pos),
            self.size is Unknown ==> r == Err::<(), MatroskaError>(
                MatroskaError::InvalidSize(self.id, self.size),
            ),
            self.size is Sized && *old(pos) + self.size.value() > usize::MAX ==> r == Err::<
                (),
                MatroskaError,
            >(MatroskaError::Io),
    {
        let n = match self.size {
            ElementSize::Sized(n) => n,
            ElementSize::Unknown(_) => {
                return Err(MatroskaError::InvalidSize(self.id, self.size));
            },
        };
        if n > (usize::MAX - *pos) as u64 {
            return Err(MatroskaError::Io);
        }
        *pos = *pos + (n as usize);
        Ok(())
    }

    /// Read this element's payload, dispatched on its wire type.  The second
    /// result is the byte count consumed, which equals the declared size.
    /// The caller drives unknown-size elements child by child instead.
    pub fn read_body_blocking(&self, bytes: &[u8], pos: usize) -> (r: Result<
        (ElementContent, u64),
        MatroskaError,
    >)
        requires
            self.size is Sized,
        ensures
            ({
                let s = bytes@;
                let n = self.size->Sized_0 as int;
                let sub = s.subrange(pos as int, pos + n);
                &&& (r is Ok ==> r->Ok_0.1 == self.size->Sized_0)
                &&& (self.id.spec_type() == ElementType::UInteger ==> ((r is Ok <==> n <= 8 && pos
                    + n <= s.len()) && (r is Ok ==> r->Ok_0.0 == ElementContent::UInteger(
                    be_val(sub) as u64,
                ))))
                &&& (self.id.spec_type() == ElementType::Integer ==> ((r is Ok <==> n <= 8 && pos
                    + n <= s.len()) && (r is Ok ==> r->Ok_0.0 == ElementContent::Integer(
                    crate::io::sint_from_be(sub) as i64,
                ))))
                &&& (self.id.spec_type() == ElementType::Float ==> ((r is Ok <==> (n == 4 || n
                    == 8) && pos + n <= s.len()) && (r is Ok && n == 4 ==> r->Ok_0.0
                    == ElementContent::Float(FloatValue::F32(be_val(sub) as u32))) && (r is Ok && n
                    == 8 ==> r->Ok_0.0 == ElementContent::Float(FloatValue::F64(be_val(sub) as u64))))
                )
                &&& (self.id.spec_type() == ElementType::String ==> ((r is Ok <==> n
                    <= usize::MAX && pos + n <= s.len() && vstd::utf8::valid_utf8(sub)) && (
                r is Ok ==> r->Ok_0.0 == ElementContent::String(r->Ok_0.0->String_0) && r->Ok_0.0
                    ->String_0@ == vstd::utf8::decode_utf8(sub))))
                &&& (self.id.spec_type() == ElementType::Utf8 ==> ((r is Ok <==> n <= usize::MAX
                    && pos + n <= s.len() && vstd::utf8::valid_utf8(sub)) && (r is Ok ==> r->Ok_0.0
                    == ElementContent::Utf8(r->Ok_0.0->Utf8_0) && r->Ok_0.0->Utf8_0@
                    == vstd::utf8::decode_utf8(sub))))
                &&& (self.id.spec_type() == ElementType::Binary ==> ((r is Ok <==> n <= usize::MAX
                    && pos + n <= s.len()) && (r is Ok ==> r->Ok_0.0 == ElementContent::Binary(
                    r->Ok_0.0->Binary_0,
                ) && r->Ok_0.0->Binary_0@ == sub)))
                &&& (self.id.spec_type() == ElementType::Date ==> ((r is Ok <==> n == 8 && pos + n
                    <= s.len()) && (r is Ok ==> r->Ok_0.0 == ElementContent::Date(
                    MkvDate { ns: crate::io::sint_from_be(sub) as i64 },
                ))))
                &&& (self.id.spec_type() == ElementType::UInteger && n > 8 ==> r == Err::<
                    (ElementContent, u64),
                    MatroskaError,
                >(MatroskaError::InvalidUint))
                &&& (self.id.spec_type() == ElementType::UInteger && n <= 8 && pos + n > s.len()
                    ==> r == Err::<(ElementContent, u64), MatroskaError>(MatroskaError::Io))
                &&& (self.id.spec_type() == ElementType::Integer && n > 8 ==> r == Err::<
                    (ElementContent, u64),
                    MatroskaError,
                >(MatroskaError::InvalidUint))
                &&& (self.id.spec_type() == ElementType::Integer && n <= 8 && pos + n > s.len()
                    ==> r == Err::<(ElementContent, u64), MatroskaError>(MatroskaError::Io))
                &&& (self.id.spec_type() == ElementType::Float && n != 4 && n != 8 ==> r == Err::<
                    (ElementContent, u64),
                    MatroskaError,
                >(MatroskaError::InvalidFloat))
                &&& (self.id.spec_type() == ElementType::Float && (n == 4 || n == 8) && pos + n
                    > s.len() ==> r == Err::<(ElementContent, u64), MatroskaError>(
                    MatroskaError::Io,
                ))
                &&& (self.id.spec_type() == ElementType::String && !(n <= usize::MAX && pos + n
                    <= s.len()) ==> r == Err::<(ElementContent, u64), MatroskaError>(
                    MatroskaError::Io,
                ))
                &&& (self.id.spec_type() == ElementType::String && n <= usize::MAX && pos + n
                    <= s.len() && !vstd::utf8::valid_utf8(sub) ==> r == Err::<
                    (ElementContent, u64),
                    MatroskaError,
                >(MatroskaError::UTF8))
                &&& (self.id.spec_type() == ElementType::Utf8 && !(n <= usize::MAX && pos + n
                    <= s.len()) ==> r == Err::<(ElementContent, u64), MatroskaError>(
                    MatroskaError::Io,
                ))
                &&& (self.id.spec_type() == ElementType::Utf8 && n <= usize::MAX && pos + n
                    <= s.len() && !vstd::utf8::valid_utf8(sub) ==> r == Err::<
                    (ElementContent, u64),
                    MatroskaError,
                >(MatroskaError::UTF8))
                &&& (self.id.spec_type() == ElementType::Binary && r is Err ==> r == Err::<
                    (ElementContent, u64),
                    MatroskaError,
                >(MatroskaError::Io))
                &&& (self.id.spec_type() == ElementType::Date && n != 8 ==> r == Err::<
                    (ElementContent, u64),
                    MatroskaError,
                >(MatroskaError::InvalidDate))
                &&& (self.id.spec_type() == ElementType::Date && n == 8 && pos + 8 > s.len() ==> r
                    == Err::<(ElementContent, u64), MatroskaError>(MatroskaError::Io))
                &&& (self.id.spec_type() == ElementType::Struct ==> ((r is Ok <==> struct_parse(
                    s,
                    pos as int,
                    n,
                ) is Ok) && (r is Ok ==> r->Ok_0.0 == ElementContent::Struct(
                    r->Ok_0.0->Struct_0,
                ) && r->Ok_0.0->Struct_0@ == struct_parse(s, pos as int, n)->Ok_0) && (r is Err
                    ==> r->Err_0 == struct_parse(s, pos as int, n)->Err_0)))
            }),
    {
        let size = self.size.unwrap();
        match self.id.type_() {
            ElementType::UInteger => match read_uint(bytes, pos, size) {
                Ok(v) => Ok((ElementContent::UInteger(v), size)),
                Err(e) => Err(e),
            },
            ElementType::Integer => match read_int(bytes, pos, size) {
                Ok(v) => Ok((ElementContent::Integer(v), size)),
                Err(e) => Err(e),
            },
            ElementType::Float => match read_float(bytes, pos, size) {
                Ok(v) => Ok((ElementContent::Float(v), size)),
                Err(e) => Err(e),
            },
            ElementType::String => match read_string(bytes, pos, size) {
                Ok(v) => Ok((ElementContent::String(v), size)),
                Err(e) => Err(e),
            },
            ElementType::Utf8 => match read_utf8(bytes, pos, size) {
                Ok(v) => Ok((ElementContent::Utf8(v), size)),
                Err(e) => Err(e),
            },
            ElementType::Binary => match read_bin(bytes, pos, size) {
                Ok(v) => Ok((ElementContent::Binary(v), size)),
                Err(e) => Err(e),
            },
            ElementType::Date => match read_date(bytes, pos, size) {
                Ok(v) => Ok((ElementContent::Date(v), size)),
                Err(e) => Err(e),
            },
            ElementType::Struct => match Element::read_struct_blocking(
                bytes,
                pos,
                ElementSize::Sized(size),
            ) {
                Ok((v, consumed)) => Ok((ElementContent::Struct(v), consumed)),
                Err(e) => Err(e),
            },
        }
    }

    /// Enumerate the child headers of a sized structural region, skipping
    /// each child's body.  The countdown subtracts each child's header and
    /// declared size; a child whose extent exceeds what remains, or whose own
    /// size is unknown, fails with `InvalidSize`.  The second result is the
    /// byte count the region accounted for: exactly the declared size.
    #[verifier::loop_isolation(false)]
    pub fn read_struct_blocking(bytes: &[u8], pos: usize, size: ElementSize) -> (r: Result<
        (Vec<Element>, u64),
        MatroskaError,
    >)
        requires
            size is Sized,
        ensures
            r is Ok <==> struct_parse(bytes@, pos as int, size->Sized_0 as int) is Ok,
            r is Ok ==> r->Ok_0.0@ == struct_parse(bytes@, pos as int, size->Sized_0 as int)->Ok_0
                && r->Ok_0.1 == size->Sized_0,
            r is Err ==> r->Err_0 == struct_parse(bytes@, pos as int, size->Sized_0 as int)
                ->Err_0,
    {
        let total = size.unwrap();
        let blen = bytes.len();
        let mut out: Vec<Element> = Vec::new();
        let mut remaining: u64 = total;
        let mut cur: usize = pos;
        while remaining > 0
            invariant
                cur <= usize::MAX,
                blen == bytes@.len(),
                remaining <= total,
                ({
                    let whole = struct_parse(bytes@, pos as int, total as int);
                    let rest = struct_parse(bytes@, cur as int, remaining as int);
                    match rest {
                        Ok(tail) => whole == Ok::<Seq<Element>, MatroskaError>(out@ + tail),
                        Err(e) => whole == Err::<Seq<Element>, MatroskaError>(e),
                    }
                }),
            decreases remaining,
        {
            let e = match Element::read_header_blocking(bytes, cur) {
                Ok(e) => e,
                Err(er) => {
                    proof {
                        assert(struct_parse(bytes@, cur as int, remaining as int) == Err::<
                            Seq<Element>,
                            MatroskaError,
                        >(header_err(bytes@, cur as int)));
                    }
                    return Err(er);
                },
            };
            let esize = match e.size {
                ElementSize::Sized(n) => n,
                ElementSize::Unknown(_) => {
                    proof {
                        assert(struct_parse(bytes@, cur as int, remaining as int) == Err::<
                            Seq<Element>,
                            MatroskaError,
                        >(MatroskaError::InvalidSize(e.id, e.size)));
                    }
                    return Err(MatroskaError::InvalidSize(e.id, e.size));
                },
            };
            if esize > remaining || e.header_len > remaining - esize {
                proof {
                    assert(struct_parse(bytes@, cur as int, remaining as int) == Err::<
                        Seq<Element>,
                        MatroskaError,
                    >(MatroskaError::InvalidSize(e.id, e.size)));
                }
                return Err(MatroskaError::InvalidSize(e.id, e.size));
            }
            let extent = e.header_len + esize;
            let ghost prev_out = out@;
            let ghost prev_cur = cur as int;
            let ghost prev_remaining = remaining as int;
            out.push(e);
            remaining = remaining - extent;
            proof {
                let s = bytes@;
                let rest = struct_parse(s, prev_cur, prev_remaining);
                let tail = struct_parse(s, prev_cur + extent, prev_remaining - extent);
                if tail is Ok {
                    assert(rest == Ok::<Seq<Element>, MatroskaError>(seq![e] + tail->Ok_0));
                    assert(prev_out + (seq![e] + tail->Ok_0) =~= out@ + tail->Ok_0);
                } else {
                    assert(rest == Err::<Seq<Element>, MatroskaError>(tail->Err_0));
                }
            }
            if extent <= (blen - cur) as u64 {
                cur = cur + (extent as usize);
            } else {
                if remaining == 0 {
                    proof {
                        let s = bytes@;
                        assert(struct_parse(s, cur as int + extent, 0) == Ok::<
                            Seq<Element>,
                            MatroskaError,
                        >(Seq::empty()));
                        assert(out@ + Seq::<Element>::empty() =~= out@);
                    }
                    return Ok((out, total));
                } else {
                    proof {
                        let s = bytes@;
                        let npos = cur as int + extent;
                        assert(npos > s.len());
                        assert(!header_ok(s, npos));
                        assert(header_err(s, npos) == MatroskaError::Io);
                        assert(struct_parse(s, npos, remaining as int) == Err::<
                            Seq<Element>,
                            MatroskaError,
                        >(MatroskaError::Io));
                    }
                    return Err(MatroskaError::Io);
                }
            }
        }
        proof {
            let s = bytes@;
            assert(struct_parse(s, cur as int, 0) == Ok::<Seq<Element>, MatroskaError>(
                Seq::empty(),
            ));
            assert(out@ + Seq::<Element>::empty() =~= out@);
        }
        Ok((out, total))
    }
}

} // verus!
