//! The TXT data attached to a service advertisement.

use vstd::prelude::*;
use vstd::slice::slice_to_vec;

verus! {

/// The TXT data of a resolved service: a copy of the bytes that the daemon
/// reported, in wire form.
#[derive(Clone, Debug, PartialEq, Eq)]
pub struct TxtRecord {
    bytes: Vec<u8>,
}

impl View for TxtRecord {
    type V = Seq<u8>;

    closed spec fn view(&self) -> Seq<u8> {
        self.bytes@
    }
}

/// The TXT data that a payload of wire bytes stands for. A payload of one
/// byte encodes a record without entries and counts, like an empty payload,
/// as no data at all.
pub open spec fn txt_of_payload(payload: Seq<u8>) -> Option<Seq<u8>> {
    if payload.len() > 1 {
        Some(payload)
    } else {
        None
    }
}

impl TxtRecord {
    /// Copies the bytes of a native TXT record.
    pub fn clone_raw(raw: &[u8]) -> (r: TxtRecord)
        ensures
            r@ == raw@,
    {
        TxtRecord { bytes: slice_to_vec(raw) }
    }

    /// Reads the TXT payload of a resolve reply: `None` where it is at most
    /// one byte long, a copy of it otherwise.
    pub fn from_payload(payload: &[u8]) -> (r: Option<TxtRecord>)
        ensures
            txt_view(r) == txt_of_payload(payload@),
    {
        if payload.len() > 1 {
            Some(TxtRecord::clone_raw(payload))
        } else {
            None
        }
    }

    /// The bytes of the record, in wire form.
    pub fn as_bytes(&self) -> (r: &[u8])
        ensures
            r@ == self@,
    {
        self.bytes.as_slice()
    }

    /// The number of bytes in the record.
    pub fn len(&self) -> (r: usize)
        ensures
            r == self@.len(),
    {
        self.bytes.len()
    }
}

/// The views of an optional TXT record.
pub open spec fn txt_view(txt: Option<TxtRecord>) -> Option<Seq<u8>> {
    match txt {
        Some(t) => Some(t@),
        None => None,
    }
}

} // verus!
