//! Graph nodes for the node-editor surface: plain data with stable
//! 128-bit identifiers, and the port addressing used to connect them.
//! Identifiers are drawn from the platform's random UUID source.

use vstd::prelude::*;
use crate::geom::RectI;

verus! {

#[derive(Clone, Copy, PartialEq, Eq, Structural, Debug)]
pub enum PortDirection {
    Input,
    Output,
}

/// A connection port of a node.
#[derive(Clone, Copy, PartialEq, Eq, Structural, Debug)]
pub struct GraphNodePort {
    pub id: u128,
}

/// A stable address of one port of one node: node id, port id and side.
#[derive(Clone, Copy, PartialEq, Eq, Structural, Debug)]
pub struct GraphNodePortAddress {
    pub node: u128,
    pub port: u128,
    pub dir: PortDirection,
}

/// A node of the graph: its bounding box, identity and ports.
#[derive(Clone, PartialEq, Eq, Debug)]
pub struct GraphNode {
    pub aabb: RectI,
    pub id: u128,
    pub inputs: Vec<GraphNodePort>,
    pub outputs: Vec<GraphNodePort>,
}

/// Relies on `uuid::Uuid::new_v4` and `Uuid::as_u128`: a freshly generated
/// random identifier, returned as its 128-bit value. Nothing is assumed of
/// the value.
#[verifier::external_body]
fn fresh_node_id() -> u128 {
    uuid::Uuid::new_v4().as_u128()
}

impl GraphNode {
    /// The ports on one side of the node.
    pub open spec fn spec_ports(self, dir: PortDirection) -> Seq<GraphNodePort> {
        match dir {
            PortDirection::Input => self.inputs@,
            PortDirection::Output => self.outputs@,
        }
    }

    /// A node with a freshly drawn random identity and no ports yet.
    pub fn new(aabb: RectI) -> (r: GraphNode)
        ensures
            r.aabb == aabb,
            r.inputs@.len() == 0,
            r.outputs@.len() == 0,
    {
        GraphNode { aabb, id: fresh_node_id(), inputs: Vec::new(), outputs: Vec::new() }
    }

    /// The address of the port at `index` on the given side, or `None` when
    /// no such port exists.
    pub fn get_port_address(&self, dir: PortDirection, index: usize) -> (r: Option<
        GraphNodePortAddress,
    >)
        ensures
            (match r {
                Option::Some(addr) => index < self.spec_ports(dir).len() && addr == (
                GraphNodePortAddress {
                    node: self.id,
                    port: self.spec_ports(dir)[index as int].id,
                    dir,
                }),
                Option::None => index >= self.spec_ports(dir).len(),
            }),
    {
        let port_id = match dir {
            PortDirection::Input => {
                if index >= self.inputs.len() {
                    return Option::None;
                }
                self.inputs[index].id
            },
            PortDirection::Output => {
                if index >= self.outputs.len() {
                    return Option::None;
                }
                self.outputs[index].id
            },
        };
        Option::Some(GraphNodePortAddress { node: self.id, port: port_id, dir })
    }

    /// The first port on the addressed side carrying the addressed id, or
    /// `None` when the node has no such port.
    pub fn get_port_by_address(&self, addr: &GraphNodePortAddress) -> (r: Option<&GraphNodePort>)
        ensures
            (match r {
                Option::Some(p) => exists|i: int|
                    0 <= i < self.spec_ports(addr.dir).len() && (#[trigger] self.spec_ports(
                        addr.dir,
                    )[i]).id == addr.port && *p == self.spec_ports(addr.dir)[i] && forall|j: int|
                        0 <= j < i ==> (#[trigger] self.spec_ports(addr.dir)[j]).id != addr.port,
                Option::None => forall|j: int|
                    0 <= j < self.spec_ports(addr.dir).len() ==> (#[trigger] self.spec_ports(
                        addr.dir,
                    )[j]).id != addr.port,
            }),
    {
        let ports: &Vec<GraphNodePort> = match addr.dir {
            PortDirection::Input => &self.inputs,
            PortDirection::Output => &self.outputs,
        };
        let n = ports.len();
        let mut i: usize = 0;
        while i < n
            invariant
                i <= n,
                n == ports@.len(),
                ports@ == self.spec_ports(addr.dir),
                forall|j: int| 0 <= j < i ==> (#[trigger] ports@[j]).id != addr.port,
            decreases n - i,
        {
            if ports[i].id == addr.port {
                return Option::Some(&ports[i]);
            }
            i += 1;
        }
        Option::None
    }
}

} // verus!
