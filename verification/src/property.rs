//! Typed reading of window properties.
//!
//! A `PropertyRequest` says what to read. Whoever owns the connection performs
//! the read and hands back a `GetPropertyResult`: the reply, or the failure of
//! the transport. The functions here take typed values out of it.

use vstd::prelude::*;
use crate::error::{answers, is_not_found, not_found, ErrorWrapper, WindowManagerResult};

verus! {

/// The read of one property of one window.
#[derive(Debug, Clone, Copy, PartialEq, Eq, Structural)]
pub struct PropertyRequest {
    /// Whether the property is deleted once it was read.
    pub delete: bool,
    pub window: u32,
    pub property: u32,
    /// The type that the property is expected to have.
    pub type_: u32,
    /// Where the read starts in the value, in 32-bit units.
    pub long_offset: u32,
    /// How much of the value is read at most, in 32-bit units.
    pub long_length: u32,
}

/// What the display server answered to the read of a property.
#[derive(Debug, Clone)]
pub struct PropertyReply {
    /// The width of one item of the value in bits: 8, 16 or 32.
    pub format: u8,
    /// The type that the property has, or zero where the window has no such
    /// property.
    pub type_: u32,
    pub value: Vec<u8>,
}

/// The outcome of the read of a property.
#[derive(Debug)]
pub struct GetPropertyResult {
    pub boxed: WindowManagerResult<PropertyReply>,
}

/// One 32-bit item of a property value: the four bytes from `at` on, read in
/// big-endian order when `big` is set and in little-endian order otherwise.
pub open spec fn word(bytes: Seq<u8>, at: int, big: bool) -> u32 {
    if big {
        (bytes[at] * 0x100_0000 + bytes[at + 1] * 0x1_0000 + bytes[at + 2] * 0x100 + bytes[at
            + 3]) as u32
    } else {
        (bytes[at] + bytes[at + 1] * 0x100 + bytes[at + 2] * 0x1_0000 + bytes[at + 3]
            * 0x100_0000) as u32
    }
}

/// The 32-bit items of a property value; bytes behind the last whole item are
/// left out.
pub open spec fn words(bytes: Seq<u8>, big: bool) -> Seq<u32> {
    Seq::new((bytes.len() / 4) as nat, |k: int| word(bytes, 4 * k, big))
}

/// Whether `items` is the value of `reply` read as 32-bit items in one of the
/// two byte orders. A reply arrives in the byte order of the machine that
/// reads it, so which of the two applies is fixed for a running program.
pub open spec fn reads_as(reply: PropertyReply, items: Seq<u32>) -> bool {
    reply.format == 32 && (items == words(reply.value@, false) || items == words(
        reply.value@,
        true,
    ))
}

/// The first of `items`, if there is one.
pub open spec fn first_of(items: Seq<u32>) -> Option<u32> {
    if items.len() > 0 {
        Some(items[0])
    } else {
        None
    }
}

/// The signed integer with the bits of `v`.
pub open spec fn reinterpreted(v: u32) -> i32 {
    if v <= i32::MAX {
        v as i32
    } else {
        (v - 0x1_0000_0000) as i32
    }
}

/// The signed reading of an optional item.
pub open spec fn signed(value: Option<u32>) -> Option<i32> {
    match value {
        Some(v) => Some(reinterpreted(v)),
        None => None,
    }
}

/// Whether `r` is what decoding `result` gives, where `decode` says which
/// value the items of a reply hold, if any: the failure of the read where it
/// failed, the failure to find the property called `name` where the reply is
/// in another format than 32 or holds no value, and the value otherwise.
pub open spec fn decoded<T>(
    result: GetPropertyResult,
    name: Seq<char>,
    decode: spec_fn(Seq<u32>) -> Option<T>,
    r: WindowManagerResult<T>,
) -> bool {
    match result.boxed {
        Err(e) => r == Err::<T, ErrorWrapper>(e),
        Ok(reply) => if reply.format == 32 {
            answers(r, decode(words(reply.value@, false)), name) || answers(
                r,
                decode(words(reply.value@, true)),
                name,
            )
        } else {
            is_not_found(r, name)
        },
    }
}

/// Whether `r` is what decoding `result` item by item gives, where `decode`
/// says which list the items of a reply stand for.
pub open spec fn decoded_list<T>(
    result: GetPropertyResult,
    name: Seq<char>,
    decode: spec_fn(Seq<u32>) -> Seq<T>,
    r: WindowManagerResult<Vec<T>>,
) -> bool {
    match result.boxed {
        Err(e) => r == Err::<Vec<T>, ErrorWrapper>(e),
        Ok(reply) => if reply.format == 32 {
            r matches Ok(v) && (v@ == decode(words(reply.value@, false)) || v@ == decode(
                words(reply.value@, true),
            ))
        } else {
            is_not_found(r, name)
        },
    }
}

/// `GetPropertyReply::value32` of x11rb, on a reply with the given format and
/// value: nothing unless the format is 32, else the items of the value, each
/// read from four bytes in the byte order of the machine.
#[verifier::external_body]
fn reply_value32(format: u8, value: &Vec<u8>) -> (r: Option<Vec<u32>>)
    ensures
        r is Some <==> format == 32,
        r matches Some(v) ==> v@ == words(value@, false) || v@ == words(value@, true),
{
    let reply = x11rb::protocol::xproto::GetPropertyReply {
        format,
        value: value.clone(),
        ..Default::default()
    };
    let items: Option<Vec<u32>> = match reply.value32() {
        Some(items) => Some(items.collect()),
        None => None,
    };
    items
}

/// Computes `reinterpreted`.
pub fn reinterpret(v: u32) -> (r: i32)
    ensures
        r == reinterpreted(v),
{
    if v <= 0x7fff_ffff {
        v as i32
    } else {
        (v as i64 - 0x1_0000_0000) as i32
    }
}

impl PropertyRequest {
    /// The read of the whole value of `property` on `window`, which leaves
    /// the property in place.
    pub open spec fn spec_new(window: u32, property: u32, type_: u32) -> PropertyRequest {
        PropertyRequest {
            delete: false,
            window,
            property,
            type_,
            long_offset: 0,
            long_length: u32::MAX,
        }
    }

    /// Computes `spec_new`.
    pub fn new(window: u32, property: u32, type_: u32) -> (r: PropertyRequest)
        ensures
            r == PropertyRequest::spec_new(window, property, type_),
    {
        PropertyRequest { delete: false, window, property, type_, long_offset: 0, long_length: u32::MAX }
    }
}

impl PropertyReply {
    /// The value as 32-bit items, or `None` where the format is not 32.
    pub fn value32(&self) -> (r: Option<Vec<u32>>)
        ensures
            r is Some <==> self.format == 32,
            r matches Some(v) ==> reads_as(*self, v@),
    {
        reply_value32(self.format, &self.value)
    }
}

impl GetPropertyResult {
    /// The value as the bytes that came. An empty value is a value, and so is
    /// that of a property that the window does not have: what its absence
    /// means is left to the caller.
    pub fn bytes(self) -> (r: WindowManagerResult<Vec<u8>>)
        ensures
            match self.boxed {
                Err(e) => r == Err::<Vec<u8>, ErrorWrapper>(e),
                Ok(reply) => r == Ok::<Vec<u8>, ErrorWrapper>(reply.value),
            },
    {
        match self.boxed {
            Err(e) => Err(e),
            Ok(reply) => Ok(reply.value),
        }
    }

    /// The value as a list of 32-bit items. An empty list is a value; a reply
    /// in another format is the failure to find `property`.
    pub fn values(self, property: &str) -> (r: WindowManagerResult<Vec<u32>>)
        ensures
            decoded_list(self, property@, |items: Seq<u32>| items, r),
    {
        match self.boxed {
            Err(e) => Err(e),
            Ok(reply) => match reply.value32() {
                Some(v) => Ok(v),
                None => Err(not_found(property)),
            },
        }
    }

    /// The first 32-bit item of the value. A reply in another format or
    /// without a whole item is the failure to find `property`.
    pub fn try_into_u32(self, property: &str) -> (r: WindowManagerResult<u32>)
        ensures
            decoded(self, property@, |items: Seq<u32>| first_of(items), r),
    {
        let items = self.values(property)?;
        if items.len() > 0 {
            Ok(items[0])
        } else {
            Err(not_found(property))
        }
    }

    /// The first 32-bit item of the value, read as a signed integer.
    pub fn try_into_i32(self, property: &str) -> (r: WindowManagerResult<i32>)
        ensures
            decoded(self, property@, |items: Seq<u32>| signed(first_of(items)), r),
    {
        let v = self.try_into_u32(property)?;
        Ok(reinterpret(v))
    }
}

} // verus!
