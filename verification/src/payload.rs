use vstd::prelude::*;

use crate::identity::FileMeta;
use crate::port::PortRef;

verus! {

/// A descriptor segment: an open file handed over in a request, together with
/// the cookie value the sender attached to it. The file itself is represented
/// by what the broker reads of it — its metadata, or nothing when the
/// metadata could not be read.
#[derive(Clone, Copy, PartialEq, Eq, Structural, Debug)]
pub struct Descriptor {
    /// The file's metadata, or `None` when duplicating the handle or reading
    /// its metadata failed.
    pub meta: Option<FileMeta>,
    /// Cookie value attached to the descriptor by the sender.
    pub cookie: u64,
}

/// One unit of an encoded payload: a raw byte run, a descriptor, or a port
/// reference.
#[derive(Clone, PartialEq, Eq, Debug)]
pub enum Segment {
    /// A run of raw bytes, not interpreted by the broker.
    Bytes(Vec<u8>),
    /// An open file with its cookie.
    Descriptor(Descriptor),
    /// A reference to an exchangeable object.
    Port(PortRef),
}

/// Mathematical value of a segment: the byte run as a sequence, the other two
/// forms as themselves.
pub enum SegmentView {
    Bytes(Seq<u8>),
    Descriptor(Descriptor),
    Port(PortRef),
}

impl View for Segment {
    type V = SegmentView;

    open spec fn view(&self) -> SegmentView {
        match self {
            Segment::Bytes(b) => SegmentView::Bytes(b@),
            Segment::Descriptor(d) => SegmentView::Descriptor(*d),
            Segment::Port(p) => SegmentView::Port(*p),
        }
    }
}

/// Mathematical value of a whole payload: the sequence of its segments'
/// values.
pub open spec fn payload_view(p: Seq<Segment>) -> Seq<SegmentView> {
    p.map_values(|s: Segment| s@)
}

/// The fixed reply text for a registration attempt on an identity that
/// already has an entry.
pub open spec fn register_failed_text() -> Seq<u8> {
    seq![
        99u8, 111, 117, 108, 100, 110, 39, 116, 32, 114, 101, 103, 105, 115, 116,
        101, 114, 32, 111, 98, 106, 101, 99, 116,
    ]
}

/// The fixed reply text for an exchange on an identity that has no entry.
pub open spec fn not_found_text() -> Seq<u8> {
    seq![
        99u8, 111, 117, 108, 100, 110, 39, 116, 32, 102, 105, 110, 100, 32, 111,
        98, 106, 101, 99, 116,
    ]
}

/// The fixed reply text for a transaction whose opcode the broker does not
/// know.
pub open spec fn unknown_code_text() -> Seq<u8> {
    seq![
        117u8, 110, 107, 110, 111, 119, 110, 32, 116, 114, 97, 110, 115, 97, 99,
        116, 105, 111, 110, 32, 99, 111, 100, 101,
    ]
}

/// The bytes of `register_failed_text`, for building a reply.
pub fn register_failed_bytes() -> (r: Vec<u8>)
    ensures
        r@ == register_failed_text(),
{
    let r: Vec<u8> = vec![
        99u8, 111, 117, 108, 100, 110, 39, 116, 32, 114, 101, 103, 105, 115, 116,
        101, 114, 32, 111, 98, 106, 101, 99, 116,
    ];
    proof {
        assert(r@ =~= register_failed_text());
    }
    r
}

/// The bytes of `not_found_text`, for building a reply.
pub fn not_found_bytes() -> (r: Vec<u8>)
    ensures
        r@ == not_found_text(),
{
    let r: Vec<u8> = vec![
        99u8, 111, 117, 108, 100, 110, 39, 116, 32, 102, 105, 110, 100, 32, 111,
        98, 106, 101, 99, 116,
    ];
    proof {
        assert(r@ =~= not_found_text());
    }
    r
}

/// The bytes of `unknown_code_text`, for building a reply.
pub fn unknown_code_bytes() -> (r: Vec<u8>)
    ensures
        r@ == unknown_code_text(),
{
    let r: Vec<u8> = vec![
        117u8, 110, 107, 110, 111, 119, 110, 32, 116, 114, 97, 110, 115, 97, 99,
        116, 105, 111, 110, 32, 99, 111, 100, 101,
    ];
    proof {
        assert(r@ =~= unknown_code_text());
    }
    r
}

/// Hand a payload back unchanged. A pass-through handler built on the same
/// payload primitives round-trips every segment losslessly.
pub fn echo(payload: Vec<Segment>) -> (r: Vec<Segment>)
    ensures
        r == payload,
{
    payload
}

} // verus!
