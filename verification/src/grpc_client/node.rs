use vstd::prelude::*;

use crate::grpc_client::attr::AttrId;
use crate::proto::NodeInfoResponse;
use crate::text::{lookup_last, map_of_pairs, owned, string_pair_views};

verus! {

/// The name of a node.
#[derive(Debug, PartialEq, Eq, Hash)]
pub struct NodeId(String);

impl View for NodeId {
    type V = Seq<char>;

    closed spec fn view(&self) -> Seq<char> {
        self.0@
    }
}

impl Clone for NodeId {
    fn clone(&self) -> (res: Self)
        ensures
            res@ == self@,
    {
        NodeId(self.0.clone())
    }
}

impl NodeId {
    /// The node called `s`.
    pub fn from_str(s: &str) -> (res: NodeId)
        ensures
            res@ == s@,
    {
        NodeId(owned(s))
    }

    /// The node called `s`.
    pub fn from_string(s: String) -> (res: NodeId)
        ensures
            res@ == s@,
    {
        NodeId(s)
    }

    pub fn as_ref(&self) -> (res: &str)
        ensures
            res@ == self@,
    {
        self.0.as_str()
    }

    /// The name as text.
    pub fn to_string(&self) -> (res: String)
        ensures
            res@ == self@,
    {
        self.0.clone()
    }
}

/// What a client knows of a node: its name, its kind, its child nodes by
/// key and its attributes.
pub struct Node {
    pub name: NodeId,
    pub kind: String,
    /// The child nodes, by key; a later entry with the same key wins. A list of
    /// pairs, not a `HashMap`: vstd specifies a `HashMap` only for keys whose
    /// hashing it models (integers and `bool`); for `String` keys it would take
    /// an `assume`.
    pub nodes: Vec<(String, NodeId)>,
    /// The attributes. A list, not a `HashSet`, for the same reason as the
    /// maps: vstd models the hashing of integers and `bool` only.
    pub attrs: Vec<AttrId>,
}

/// The views of key and node pairs.
pub open spec fn node_pair_views(v: Seq<(String, NodeId)>) -> Seq<(Seq<char>, Seq<char>)> {
    v.map_values(|p: (String, NodeId)| (p.0@, p.1@))
}

impl Node {
    /// The child nodes by key.
    pub open spec fn node_map(&self) -> Map<Seq<char>, Seq<char>> {
        map_of_pairs(node_pair_views(self.nodes@))
    }

    /// Reads a node description: each attribute name becomes the path of one
    /// element below the node.
    pub fn from_node_info(info: NodeInfoResponse) -> (res: Node)
        ensures
            res.name@ == info.name@,
            res.kind@ == info.kind@,
            node_pair_views(res.nodes@) == string_pair_views(info.nodes@),
            res.attrs.len() == info.attrs.len(),
            forall|i: int|
                0 <= i < info.attrs.len() ==> (#[trigger] res.attrs[i])@ == (info.name@, seq![info.attrs[i]@]),
    {
        let name = NodeId::from_string(info.name);
        let mut nodes: Vec<(String, NodeId)> = Vec::new();
        let mut i: usize = 0;
        while i < info.nodes.len()
            invariant
                i <= info.nodes.len(),
                node_pair_views(nodes@) == string_pair_views(info.nodes@).take(i as int),
            decreases info.nodes.len() - i,
        {
            let key = info.nodes[i].0.clone();
            let node = NodeId::from_string(info.nodes[i].1.clone());
            let ghost prev = nodes@;
            assert(prev.len() == i) by {
                assert(node_pair_views(prev).len() == i);
            }
            nodes.push((key, node));
            assert(node_pair_views(nodes@) =~= string_pair_views(info.nodes@).take(i + 1)) by {
                assert(nodes@ == prev.push(nodes@.last()));
            }
            i = i + 1;
        }
        assert(string_pair_views(info.nodes@).take(info.nodes.len() as int) == string_pair_views(info.nodes@));
        let mut attrs: Vec<AttrId> = Vec::new();
        let mut j: usize = 0;
        while j < info.attrs.len()
            invariant
                j <= info.attrs.len(),
                attrs.len() == j,
                forall|k: int| 0 <= k < j ==> (#[trigger] attrs[k])@ == (name@, seq![info.attrs[k]@]),
            decreases info.attrs.len() - j,
        {
            let mut path: Vec<String> = Vec::new();
            path.push(info.attrs[j].clone());
            attrs.push(AttrId::new(name.clone(), path));
            j = j + 1;
        }
        Node { name, kind: info.kind, nodes, attrs }
    }

    /// The child node to ask for under `key`, if the node has one.
    pub fn node_id(&self, key: &str) -> (res: Option<NodeId>)
        ensures
            match res {
                Some(id) => self.node_map().contains_key(key@) && id@ == self.node_map()[key@],
                None => !self.node_map().contains_key(key@),
            },
    {
        let mut i = self.nodes.len();
        while i > 0
            invariant
                i <= self.nodes.len(),
                forall|j: int| i <= j < self.nodes.len() ==> (#[trigger] self.nodes[j]).0@ != key@,
            decreases i,
        {
            i = i - 1;
            if crate::text::str_eq(self.nodes[i].0.as_str(), key) {
                proof {
                    lookup_last(node_pair_views(self.nodes@), key@, i as int);
                }
                return Some(self.nodes[i].1.clone());
            }
        }
        proof {
            lookup_last(node_pair_views(self.nodes@), key@, -1);
        }
        None
    }
}

} // verus!
