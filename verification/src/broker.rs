use vstd::prelude::*;

use crate::identity::{resolve, spec_resolve, FileIdentity, FileMeta};
use crate::payload::{
    not_found_bytes, not_found_text, payload_view, register_failed_bytes, register_failed_text,
    unknown_code_bytes, unknown_code_text, Descriptor, Segment, SegmentView,
};
use crate::port::PortRef;
use crate::registry::{spec_lookup, spec_register, RegisterError, Registry};
use crate::{EXCHANGE_CODE, REGISTER_CODE};

verus! {

/// One request delivered by the transport: an opcode and the decoded payload
/// segments.
pub struct Transaction {
    /// The transaction's opcode.
    pub code: u32,
    /// The decoded payload segments, in wire order.
    pub payload: Vec<Segment>,
}

/// The closed set of opcodes the broker knows, with an explicit default for
/// every other value.
#[derive(Clone, Copy, PartialEq, Eq, Structural, Debug)]
pub enum Opcode {
    /// Store a port under the identity of the request's file.
    Register,
    /// Retrieve the port stored under the identity of the request's file.
    Exchange,
    /// Any other opcode value.
    Unknown,
}

/// The opcode that a raw code value names.
pub open spec fn spec_opcode(code: u32) -> Opcode {
    if code == REGISTER_CODE {
        Opcode::Register
    } else if code == EXCHANGE_CODE {
        Opcode::Exchange
    } else {
        Opcode::Unknown
    }
}

/// Classify a raw code value into the broker's closed opcode set.
pub fn opcode_of(code: u32) -> (op: Opcode)
    ensures
        op == spec_opcode(code),
{
    if code == REGISTER_CODE {
        Opcode::Register
    } else if code == EXCHANGE_CODE {
        Opcode::Exchange
    } else {
        Opcode::Unknown
    }
}

/// The first port-reference segment of a payload, if any. Other segment kinds
/// are tolerated and skipped.
pub open spec fn find_first_port(p: Seq<SegmentView>) -> Option<PortRef>
    decreases p.len(),
{
    if p.len() == 0 {
        None
    } else {
        match p[0] {
            SegmentView::Port(port) => Some(port),
            _ => find_first_port(p.drop_first()),
        }
    }
}

/// The first descriptor segment of a payload, if any. Other segment kinds are
/// tolerated and skipped.
pub open spec fn find_first_desc(p: Seq<SegmentView>) -> Option<Descriptor>
    decreases p.len(),
{
    if p.len() == 0 {
        None
    } else {
        match p[0] {
            SegmentView::Descriptor(d) => Some(d),
            _ => find_first_desc(p.drop_first()),
        }
    }
}

/// What a register request carries: its first descriptor segment, paired with
/// the first port-reference segment after that descriptor. Nothing when
/// either is missing.
pub open spec fn find_register_args(p: Seq<SegmentView>) -> Option<(Descriptor, PortRef)>
    decreases p.len(),
{
    if p.len() == 0 {
        None
    } else {
        match p[0] {
            SegmentView::Descriptor(d) => match find_first_port(p.drop_first()) {
                Some(port) => Some((d, port)),
                None => None,
            },
            _ => find_register_args(p.drop_first()),
        }
    }
}

/// Scan a payload from `start` for its first port-reference segment.
fn scan_first_port(payload: &Vec<Segment>, start: usize) -> (r: Option<PortRef>)
    requires
        start <= payload@.len(),
    ensures
        r == find_first_port(payload_view(payload@).skip(start as int)),
{
    let ghost pv = payload_view(payload@);
    let mut i = start;
    while i < payload.len()
        invariant
            start <= i <= payload@.len(),
            pv == payload_view(payload@),
            find_first_port(pv.skip(start as int)) == find_first_port(pv.skip(i as int)),
        decreases payload@.len() - i,
    {
        match &payload[i] {
            Segment::Port(port) => {
                return Some(*port);
            },
            _ => {
                proof {
                    assert(pv.skip(i as int).drop_first() =~= pv.skip(i as int + 1));
                }
            },
        }
        i += 1;
    }
    None
}

/// Scan a payload for its first descriptor segment.
fn scan_first_desc(payload: &Vec<Segment>) -> (r: Option<Descriptor>)
    ensures
        r == find_first_desc(payload_view(payload@)),
{
    let ghost pv = payload_view(payload@);
    proof {
        assert(pv.skip(0) =~= pv);
    }
    let mut i: usize = 0;
    while i < payload.len()
        invariant
            i <= payload@.len(),
            pv == payload_view(payload@),
            find_first_desc(pv) == find_first_desc(pv.skip(i as int)),
        decreases payload@.len() - i,
    {
        match &payload[i] {
            Segment::Descriptor(d) => {
                return Some(*d);
            },
            _ => {
                proof {
                    assert(pv.skip(i as int).drop_first() =~= pv.skip(i as int + 1));
                }
            },
        }
        i += 1;
    }
    None
}

/// Scan a payload for a register request's arguments: the first descriptor,
/// and the first port after it.
fn scan_register_args(payload: &Vec<Segment>) -> (r: Option<(Descriptor, PortRef)>)
    ensures
        r == find_register_args(payload_view(payload@)),
{
    let ghost pv = payload_view(payload@);
    proof {
        assert(pv.skip(0) =~= pv);
    }
    let mut i: usize = 0;
    while i < payload.len()
        invariant
            i <= payload@.len(),
            pv == payload_view(payload@),
            find_register_args(pv) == find_register_args(pv.skip(i as int)),
        decreases payload@.len() - i,
    {
        match &payload[i] {
            Segment::Descriptor(d) => {
                proof {
                    assert(pv.skip(i as int).drop_first() =~= pv.skip(i as int + 1));
                }
                let port = scan_first_port(payload, i + 1);
                match port {
                    Some(p) => {
                        return Some((*d, p));
                    },
                    None => {
                        return None;
                    },
                }
            },
            _ => {
                proof {
                    assert(pv.skip(i as int).drop_first() =~= pv.skip(i as int + 1));
                }
            },
        }
        i += 1;
    }
    None
}

/// The registry contents and the reply payload that one transaction yields.
///
/// A register request acts only when it carries a descriptor followed by a
/// port and the descriptor's identity resolves: a fresh identity is stored
/// and the reply is empty (the success signal); an occupied one is left
/// unchanged and the reply is the fixed registration-failure text. An
/// exchange request acts only when it carries a descriptor whose identity
/// resolves: the reply carries the stored port, or the fixed not-found text
/// when there is none. A request whose needed segments are missing, or whose
/// identity does not resolve, changes nothing and gets the empty reply built
/// so far. Every other opcode gets the fixed unknown-code text.
pub open spec fn spec_handle(
    m: Map<FileIdentity, PortRef>,
    code: u32,
    p: Seq<SegmentView>,
) -> (Map<FileIdentity, PortRef>, Seq<SegmentView>) {
    match spec_opcode(code) {
        Opcode::Register => match find_register_args(p) {
            None => (m, Seq::empty()),
            Some(args) => match spec_resolve(args.0.meta) {
                Err(_) => (m, Seq::empty()),
                Ok(id) => if spec_register(m, id, args.1).1 {
                    (spec_register(m, id, args.1).0, Seq::empty())
                } else {
                    (m, seq![SegmentView::Bytes(register_failed_text())])
                },
            },
        },
        Opcode::Exchange => match find_first_desc(p) {
            None => (m, Seq::empty()),
            Some(d) => match spec_resolve(d.meta) {
                Err(_) => (m, Seq::empty()),
                Ok(id) => match spec_lookup(m, id) {
                    Some(port) => (m, seq![SegmentView::Port(port)]),
                    None => (m, seq![SegmentView::Bytes(not_found_text())]),
                },
            },
        },
        Opcode::Unknown => (m, seq![SegmentView::Bytes(unknown_code_text())]),
    }
}

/// The broker: the registry is its only state; each two-way transaction is
/// handled by one call of `handle`.
pub struct Broker {
    registry: Registry,
}

impl View for Broker {
    type V = Map<FileIdentity, PortRef>;

    closed spec fn view(&self) -> Map<FileIdentity, PortRef> {
        self.registry@
    }
}

impl Broker {
    /// A broker with an empty registry.
    pub fn new() -> (r: Broker)
        ensures
            r@ == crate::registry::empty_port_map(),
    {
        Broker { registry: Registry::new() }
    }

    /// Serve one two-way transaction: decode the payload, dispatch on the
    /// opcode, update the registry, and build the reply, exactly as
    /// `spec_handle` says.
    pub fn handle(&mut self, t: &Transaction) -> (reply: Vec<Segment>)
        ensures
            final(self)@ == spec_handle(old(self)@, t.code, payload_view(t.payload@)).0,
            payload_view(reply@) == spec_handle(old(self)@, t.code, payload_view(t.payload@)).1,
    {
        let ghost pv = payload_view(t.payload@);
        let mut builder: Vec<Segment> = Vec::new();
        proof {
            assert(payload_view(builder@) =~= Seq::<SegmentView>::empty());
        }
        match opcode_of(t.code) {
            Opcode::Register => {
                match scan_register_args(&t.payload) {
                    Some((d, port)) => {
                        match resolve(d.meta) {
                            Ok(id) => {
                                match self.registry.register(id, port) {
                                    Ok(()) => {},
                                    Err(RegisterError::AlreadyRegistered) => {
                                        builder.push(Segment::Bytes(register_failed_bytes()));
                                        proof {
                                            assert(payload_view(builder@) =~= seq![
                                                SegmentView::Bytes(register_failed_text()),
                                            ]);
                                        }
                                    },
                                }
                            },
                            Err(_) => {},
                        }
                    },
                    None => {},
                }
            },
            Opcode::Exchange => {
                match scan_first_desc(&t.payload) {
                    Some(d) => {
                        match resolve(d.meta) {
                            Ok(id) => {
                                match self.registry.lookup(id) {
                                    Some(port) => {
                                        builder.push(Segment::Port(port));
                                        proof {
                                            assert(payload_view(builder@) =~= seq![
                                                SegmentView::Port(port),
                                            ]);
                                        }
                                    },
                                    None => {
                                        builder.push(Segment::Bytes(not_found_bytes()));
                                        proof {
                                            assert(payload_view(builder@) =~= seq![
                                                SegmentView::Bytes(not_found_text()),
                                            ]);
                                        }
                                    },
                                }
                            },
                            Err(_) => {},
                        }
                    },
                    None => {},
                }
            },
            Opcode::Unknown => {
                builder.push(Segment::Bytes(unknown_code_bytes()));
                proof {
                    assert(payload_view(builder@) =~= seq![
                        SegmentView::Bytes(unknown_code_text()),
                    ]);
                }
            },
        }
        builder
    }
}

/// Law: a transaction whose opcode is neither the register code nor the
/// exchange code leaves the registry unchanged, and its reply is exactly the
/// fixed unknown-code text.
pub proof fn lemma_unknown_opcode(m: Map<FileIdentity, PortRef>, code: u32, p: Seq<SegmentView>)
    requires
        code != REGISTER_CODE,
        code != EXCHANGE_CODE,
    ensures
        spec_handle(m, code, p).0 == m,
        spec_handle(m, code, p).1 == seq![SegmentView::Bytes(unknown_code_text())],
{
}

/// Law: a register request whose descriptor names a read-only file never
/// produces a registry entry, whatever else the payload holds and whether or
/// not an error is surfaced.
pub proof fn lemma_readonly_never_registers(
    m: Map<FileIdentity, PortRef>,
    p: Seq<SegmentView>,
    fm: FileMeta,
)
    requires
        fm.readonly,
        (match find_register_args(p) {
            Some(args) => args.0.meta == Some(fm),
            None => true,
        }),
    ensures
        spec_handle(m, REGISTER_CODE, p).0 == m,
{
}

/// Law: no transaction ever removes or changes an existing entry: whatever
/// the opcode and payload, the registry before the call is contained in the
/// registry after it.
pub proof fn lemma_entries_persist(m: Map<FileIdentity, PortRef>, code: u32, p: Seq<SegmentView>)
    ensures
        m.submap_of(spec_handle(m, code, p).0),
{
}

/// Law: a register transaction that stored a port under a fresh identity,
/// followed by an exchange transaction whose descriptor resolves to the same
/// identity, gets an empty reply first and then a reply of exactly that port.
pub proof fn lemma_register_then_exchange(
    m: Map<FileIdentity, PortRef>,
    p_reg: Seq<SegmentView>,
    p_ex: Seq<SegmentView>,
    d_reg: Descriptor,
    d_ex: Descriptor,
    port: PortRef,
    id: FileIdentity,
)
    requires
        find_register_args(p_reg) == Some((d_reg, port)),
        spec_resolve(d_reg.meta) == Ok::<FileIdentity, crate::identity::ResolveError>(id),
        !m.contains_key(id),
        find_first_desc(p_ex) == Some(d_ex),
        spec_resolve(d_ex.meta) == Ok::<FileIdentity, crate::identity::ResolveError>(id),
    ensures
        spec_handle(m, REGISTER_CODE, p_reg).1 == Seq::<SegmentView>::empty(),
        spec_handle(spec_handle(m, REGISTER_CODE, p_reg).0, EXCHANGE_CODE, p_ex).1 == seq![
            SegmentView::Port(port),
        ],
{
}

} // verus!
