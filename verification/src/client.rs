use vstd::prelude::*;

use crate::broker::Transaction;
use crate::payload::{payload_view, Descriptor, Segment, SegmentView};
use crate::port::PortRef;
use crate::{EXCHANGE_CODE, REGISTER_CODE};

verus! {

/// The request that binds a port to a file: the file's descriptor followed by
/// the port reference, under the register opcode. The caller hands the built
/// transaction to the transport's blocking call.
pub fn build_bind_request(d: Descriptor, port: PortRef) -> (t: Transaction)
    ensures
        t.code == REGISTER_CODE,
        payload_view(t.payload@) == seq![SegmentView::Descriptor(d), SegmentView::Port(port)],
{
    let mut payload: Vec<Segment> = Vec::new();
    payload.push(Segment::Descriptor(d));
    payload.push(Segment::Port(port));
    proof {
        assert(payload_view(payload@) =~= seq![
            SegmentView::Descriptor(d),
            SegmentView::Port(port),
        ]);
    }
    Transaction { code: REGISTER_CODE, payload }
}

/// The request that acquires the port bound to a file: the file's descriptor
/// alone, under the exchange opcode.
pub fn build_acquire_request(d: Descriptor) -> (t: Transaction)
    ensures
        t.code == EXCHANGE_CODE,
        payload_view(t.payload@) == seq![SegmentView::Descriptor(d)],
{
    let mut payload: Vec<Segment> = Vec::new();
    payload.push(Segment::Descriptor(d));
    proof {
        assert(payload_view(payload@) =~= seq![SegmentView::Descriptor(d)]);
    }
    Transaction { code: EXCHANGE_CODE, payload }
}

/// How a client reads a bind reply: an empty payload is the success signal.
/// An empty byte run occupies no bytes on the wire, so leading empty runs are
/// looked past; the reply is a failure exactly when a nonempty byte run comes
/// before anything else, and that text is the failure detail.
pub open spec fn spec_bind_outcome(reply: Seq<SegmentView>) -> Result<(), Seq<u8>>
    decreases reply.len(),
{
    if reply.len() == 0 {
        Ok(())
    } else {
        match reply[0] {
            SegmentView::Bytes(text) => if text.len() == 0 {
                spec_bind_outcome(reply.drop_first())
            } else {
                Err(text)
            },
            _ => Ok(()),
        }
    }
}

/// How a client reads an acquire reply, leading empty byte runs looked past
/// (they occupy no bytes on the wire): a port reference first is success; a
/// nonempty byte run first is a failure carrying that text as the detail;
/// anything else is a failure without detail.
pub open spec fn spec_acquire_outcome(reply: Seq<SegmentView>) -> Result<
    PortRef,
    Option<Seq<u8>>,
>
    decreases reply.len(),
{
    if reply.len() == 0 {
        Err(None)
    } else {
        match reply[0] {
            SegmentView::Port(port) => Ok(port),
            SegmentView::Bytes(text) => if text.len() == 0 {
                spec_acquire_outcome(reply.drop_first())
            } else {
                Err(Some(text))
            },
            SegmentView::Descriptor(_) => Err(None),
        }
    }
}

/// Interpret the reply to a bind request, as `spec_bind_outcome` says:
/// success exactly when no nonempty byte run opens the reply, and that text
/// as the failure detail otherwise.
pub fn bind_outcome(reply: Vec<Segment>) -> (r: Result<(), Vec<u8>>)
    ensures
        (match (r, spec_bind_outcome(payload_view(reply@))) {
            (Ok(()), Ok(())) => true,
            (Err(detail), Err(text)) => detail@ == text,
            _ => false,
        }),
{
    let ghost orig = payload_view(reply@);
    let mut rest = reply;
    while rest.len() > 0
        invariant
            orig == payload_view(reply@),
            spec_bind_outcome(orig) == spec_bind_outcome(payload_view(rest@)),
        decreases rest@.len(),
    {
        let ghost prev = payload_view(rest@);
        let first = rest.remove(0);
        match first {
            Segment::Bytes(text) => {
                if text.len() > 0 {
                    return Err(text);
                }
                proof {
                    assert(prev.drop_first() =~= payload_view(rest@));
                }
            },
            _ => {
                return Ok(());
            },
        }
    }
    Ok(())
}

/// Interpret the reply to an acquire request, as `spec_acquire_outcome`
/// says: the stored port on success, and on failure the broker's error text
/// when the reply carried one.
pub fn acquire_outcome(reply: Vec<Segment>) -> (r: Result<PortRef, Option<Vec<u8>>>)
    ensures
        (match (r, spec_acquire_outcome(payload_view(reply@))) {
            (Ok(port), Ok(sport)) => port == sport,
            (Err(None), Err(None)) => true,
            (Err(Some(detail)), Err(Some(text))) => detail@ == text,
            _ => false,
        }),
{
    let ghost orig = payload_view(reply@);
    let mut rest = reply;
    while rest.len() > 0
        invariant
            orig == payload_view(reply@),
            spec_acquire_outcome(orig) == spec_acquire_outcome(payload_view(rest@)),
        decreases rest@.len(),
    {
        let ghost prev = payload_view(rest@);
        let first = rest.remove(0);
        match first {
            Segment::Port(port) => {
                return Ok(port);
            },
            Segment::Bytes(text) => {
                if text.len() > 0 {
                    return Err(Some(text));
                }
                proof {
                    assert(prev.drop_first() =~= payload_view(rest@));
                }
            },
            Segment::Descriptor(_) => {
                return Err(None);
            },
        }
    }
    Err(None)
}

} // verus!
