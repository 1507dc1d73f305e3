//! Decoding the host's raw adapter snapshot. The snapshot is a linked list
//! of nodes; each node carries an interface-type code, wide-character
//! description text ending at a zero code unit, a fixed hardware-address
//! array with a separate reported length, and the link to the next node.
//! One pass copies every field into owned [`AdapterInfo`] records, so the
//! snapshot can be discarded afterwards. Decoding never fails: an absent
//! description degrades to a sentinel, a link that leads nowhere ends the
//! walk, and a walk of more nodes than the snapshot holds is cut off.

use vstd::prelude::*;
use crate::adapter::{AdapterInfo, AdapterInfoV, views_of};

verus! {

/// One raw node of the snapshot, with every field already held as a plain
/// owned value: links are indices into the snapshot's node table, an absent
/// (null) description or link is `None`.
pub struct RawAdapterNode {
    /// Numeric interface-type code.
    pub if_type: u32,
    /// The wide-character units of the description, read from the node's
    /// text address: terminated by a zero unit where one was present.
    /// `None` stands for a null text address.
    pub description: Option<Vec<u16>>,
    /// The node's fixed hardware-address array, as it stands in the
    /// snapshot.
    pub physical_address: Vec<u8>,
    /// How many leading bytes of that array the host declared meaningful.
    pub physical_address_length: u32,
    /// The next node of the list; `None` stands for a null link.
    pub next: Option<usize>,
}

/// The mathematical value of one raw node.
pub ghost struct RawAdapterNodeV {
    pub if_type: u32,
    pub description: Option<Seq<u16>>,
    pub physical_address: Seq<u8>,
    pub physical_address_length: u32,
    pub next: Option<usize>,
}

/// The value of an optional unit vector.
pub open spec fn units_view(d: Option<Vec<u16>>) -> Option<Seq<u16>> {
    match d {
        Option::Some(v) => Option::Some(v@),
        Option::None => Option::None,
    }
}

impl View for RawAdapterNode {
    type V = RawAdapterNodeV;

    open spec fn view(&self) -> RawAdapterNodeV {
        RawAdapterNodeV {
            if_type: self.if_type,
            description: units_view(self.description),
            physical_address: self.physical_address@,
            physical_address_length: self.physical_address_length,
            next: self.next,
        }
    }
}

/// The whole raw snapshot: a node table and the index of the list's head;
/// `None` stands for a null head.
pub struct RawAdapterBuffer {
    pub head: Option<usize>,
    pub nodes: Vec<RawAdapterNode>,
}

/// The mathematical value of a raw snapshot.
pub ghost struct RawAdapterBufferV {
    pub head: Option<usize>,
    pub nodes: Seq<RawAdapterNodeV>,
}

impl View for RawAdapterBuffer {
    type V = RawAdapterBufferV;

    open spec fn view(&self) -> RawAdapterBufferV {
        RawAdapterBufferV {
            head: self.head,
            nodes: self.nodes@.map_values(|n: RawAdapterNode| n@),
        }
    }
}

/// Where the description text stops: the position of the first zero unit,
/// or the end where no zero occurs.
pub open spec fn nul_pos(units: Seq<u16>) -> int
    decreases units.len(),
{
    if units.len() == 0 {
        0
    } else if units[0] == 0 {
        0
    } else {
        1 + nul_pos(units.drop_first())
    }
}

/// `nul_pos` is exactly the position of the first zero unit.
proof fn lemma_nul_pos_at(units: Seq<u16>, i: int)
    requires
        0 <= i <= units.len(),
        forall|j: int| 0 <= j < i ==> units[j] != 0,
        i < units.len() ==> units[i] == 0,
    ensures
        nul_pos(units) == i,
    decreases units.len(),
{
    if units.len() == 0 || i == 0 {
    } else {
        let rest = units.drop_first();
        assert(forall|j: int| 0 <= j < i - 1 ==> rest[j] == units[j + 1] && rest[j] != 0);
        assert(i - 1 < rest.len() ==> rest[i - 1] == units[i]);
        lemma_nul_pos_at(rest, i - 1);
    }
}

/// What a recovered name is, once the description units are known: the
/// lossy text of what stands before the first zero unit, or the sentinel
/// where the text address was null.
pub open spec fn desc_text(d: Option<Seq<u16>>) -> Seq<char> {
    match d {
        Option::None => "(No Description)"@,
        Option::Some(units) => utf16_lossy_of(units.take(nul_pos(units))),
    }
}

/// The hardware-address bytes a node yields: the declared number of leading
/// bytes, or the whole array where the declared length overshoots it.
pub open spec fn mac_bytes(node: RawAdapterNodeV) -> Seq<u8> {
    if node.physical_address_length <= node.physical_address.len() {
        node.physical_address.take(node.physical_address_length as int)
    } else {
        node.physical_address
    }
}

/// The record one raw node decodes to.
pub open spec fn decode_node_spec(node: RawAdapterNodeV) -> AdapterInfoV {
    AdapterInfoV {
        interface_type: node.if_type,
        description: desc_text(node.description),
        physical_address: mac_bytes(node),
    }
}

/// The records of the list walk that starts at `cur`: one decoded record
/// per node, in link order, ending at a null link, at a link past the node
/// table, or after `fuel` nodes.
pub open spec fn parse_from(
    nodes: Seq<RawAdapterNodeV>,
    cur: Option<usize>,
    fuel: nat,
) -> Seq<AdapterInfoV>
    decreases fuel,
{
    match cur {
        Option::None => Seq::empty(),
        Option::Some(i) => {
            if fuel == 0 || i >= nodes.len() {
                Seq::empty()
            } else {
                seq![decode_node_spec(nodes[i as int])] + parse_from(
                    nodes,
                    nodes[i as int].next,
                    (fuel - 1) as nat,
                )
            }
        },
    }
}

/// Every record the snapshot holds, in traversal order from its head. The
/// fuel equal to the table size cuts a cyclic or overlong walk off after
/// as many nodes as the snapshot holds.
pub open spec fn parse_spec(b: RawAdapterBufferV) -> Seq<AdapterInfoV> {
    parse_from(b.nodes, b.head, b.nodes.len())
}

/// Law: a snapshot whose head is null yields the empty record sequence,
/// not an error.
pub proof fn lemma_parse_null_head(b: RawAdapterBufferV)
    requires
        b.head is None,
    ensures
        parse_spec(b) == Seq::<AdapterInfoV>::empty(),
{
}

/// Names what `String::from_utf16_lossy` returns for given code units.
pub uninterp spec fn utf16_lossy_of(units: Seq<u16>) -> Seq<char>;

/// Relies on `String::from_utf16_lossy`: decodes UTF-16 code units to text,
/// putting the replacement character where the units are invalid; the
/// result depends on the units alone.
#[verifier::external_body]
fn utf16_lossy(units: &Vec<u16>) -> (r: String)
    ensures
        r@ == utf16_lossy_of(units@),
{
    String::from_utf16_lossy(units.as_slice())
}

/// The sentinel text standing in for an absent description.
pub fn sentinel_description() -> (r: String)
    ensures
        r@ == "(No Description)"@,
{
    "(No Description)".to_owned()
}

/// Copies the units that stand before the first zero unit.
pub fn prefix_before_nul(units: &Vec<u16>) -> (r: Vec<u16>)
    ensures
        r@ == units@.take(nul_pos(units@)),
{
    let mut r: Vec<u16> = Vec::new();
    let mut i: usize = 0;
    while i < units.len()
        invariant
            i <= units@.len(),
            forall|j: int| 0 <= j < i ==> units@[j] != 0,
            r@ == units@.take(i as int),
        decreases units@.len() - i,
    {
        let u = units[i];
        if u == 0 {
            proof {
                lemma_nul_pos_at(units@, i as int);
            }
            return r;
        }
        r.push(u);
        i = i + 1;
        proof {
            assert(r@ =~= units@.take(i as int));
        }
    }
    proof {
        lemma_nul_pos_at(units@, units@.len() as int);
        assert(units@.take(units@.len() as int) =~= units@);
    }
    r
}

/// Copies the declared number of leading address bytes, or the whole array
/// where the declared length overshoots it.
fn copy_mac_bytes(raw: &Vec<u8>, declared: u32) -> (r: Vec<u8>)
    ensures
        r@ == (if declared <= raw@.len() {
            raw@.take(declared as int)
        } else {
            raw@
        }),
{
    let count: usize = if (declared as usize) < raw.len() {
        declared as usize
    } else {
        raw.len()
    };
    let mut r: Vec<u8> = Vec::new();
    let mut i: usize = 0;
    while i < count
        invariant
            count <= raw@.len(),
            i <= count,
            r@ == raw@.take(i as int),
        decreases count - i,
    {
        r.push(raw[i]);
        i = i + 1;
        proof {
            assert(r@ =~= raw@.take(i as int));
        }
    }
    proof {
        if declared > raw@.len() {
            assert(raw@.take(raw@.len() as int) =~= raw@);
        }
    }
    r
}

/// Decodes one raw node into an owned record; never fails.
pub fn decode_node(node: &RawAdapterNode) -> (r: AdapterInfo)
    ensures
        r@ == decode_node_spec(node@),
{
    let description = match &node.description {
        Option::None => sentinel_description(),
        Option::Some(units) => {
            let prefix = prefix_before_nul(units);
            utf16_lossy(&prefix)
        },
    };
    let physical_address = copy_mac_bytes(&node.physical_address, node.physical_address_length);
    AdapterInfo { interface_type: node.if_type, description, physical_address }
}

/// Walks the snapshot's linked list from its head and decodes every node
/// into an owned record, in traversal order. Nothing in the result refers
/// back into the snapshot: the records are unaffected by whatever happens
/// to it afterwards. Never fails; a null head gives the empty sequence.
pub fn parse_adapters(buffer: &RawAdapterBuffer) -> (r: Vec<AdapterInfo>)
    ensures
        views_of(r@) == parse_spec(buffer@),
{
    let n = buffer.nodes.len();
    let mut out: Vec<AdapterInfo> = Vec::new();
    let mut cur: Option<usize> = buffer.head;
    let mut steps: usize = 0;
    loop
        invariant_except_break
            n == buffer.nodes@.len(),
            steps <= n,
            views_of(out@) + parse_from(buffer@.nodes, cur, (n - steps) as nat) == parse_spec(
                buffer@,
            ),
        ensures
            views_of(out@) == parse_spec(buffer@),
        decreases n - steps,
    {
        match cur {
            Option::None => {
                proof {
                    assert(views_of(out@) =~= parse_spec(buffer@));
                }
                break;
            },
            Option::Some(i) => {
                if steps >= n || i >= n {
                    proof {
                        assert(parse_from(buffer@.nodes, cur, (n - steps) as nat)
                            =~= Seq::<AdapterInfoV>::empty());
                        assert(views_of(out@) =~= parse_spec(buffer@));
                    }
                    break;
                }
                let node = &buffer.nodes[i];
                let info = decode_node(node);
                let ghost prev = views_of(out@);
                out.push(info);
                cur = node.next;
                steps = steps + 1;
                proof {
                    assert(buffer@.nodes[i as int] == node@);
                    assert(views_of(out@) =~= prev.push(info@));
                }
            },
        }
    }
    out
}

} // verus!
