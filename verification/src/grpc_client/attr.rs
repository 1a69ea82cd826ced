use vstd::prelude::*;

use crate::grpc_client::input::InputId;
use crate::grpc_client::node::NodeId;
use crate::proto::AttrInfoResponse;
use crate::text::{copy_strings, join, join_with, lookup_last, map_of_pairs, str_eq, string_pair_views, string_views};

verus! {

/// The name of an attribute: its node and the path of attribute names from
/// the node down to it.
#[derive(Debug, PartialEq, Eq, Hash)]
pub struct AttrId {
    node: NodeId,
    path: Vec<String>,
}

impl View for AttrId {
    type V = (Seq<char>, Seq<Seq<char>>);

    closed spec fn view(&self) -> (Seq<char>, Seq<Seq<char>>) {
        (self.node@, string_views(self.path@))
    }
}

impl Clone for AttrId {
    fn clone(&self) -> (res: Self)
        ensures
            res@ == self@,
    {
        AttrId { node: self.node.clone(), path: copy_strings(self.path.as_slice()) }
    }
}

/// How an attribute name is written: the node, `@`, and the path joined
/// with `/`.
pub open spec fn attr_id_text(id: (Seq<char>, Seq<Seq<char>>)) -> Seq<char> {
    id.0 + seq!['@'] + join_with(id.1, seq!['/'])
}

impl AttrId {
    pub fn new(node: NodeId, path: Vec<String>) -> (res: Self)
        ensures
            res@ == (node@, string_views(path@)),
    {
        AttrId { node, path }
    }

    /// The attribute called `attr` below this one.
    pub fn extend(self, attr: String) -> (res: Self)
        ensures
            res@ == (self@.0, self@.1.push(attr@)),
    {
        let mut path = self.path;
        let ghost before = path@;
        path.push(attr);
        assert(string_views(path@) == string_views(before).push(attr@));
        AttrId { node: self.node, path }
    }

    pub fn node(&self) -> (res: &NodeId)
        ensures
            res@ == self@.0,
    {
        &self.node
    }

    pub fn path(&self) -> (res: &[String])
        ensures
            string_views(res@) == self@.1,
    {
        self.path.as_slice()
    }

    /// The attribute name as text.
    pub fn to_string(&self) -> (res: String)
        ensures
            res@ == attr_id_text(self@),
    {
        proof {
            reveal_strlit("@");
            reveal_strlit("/");
            assert("@"@ =~= seq!['@']);
            assert("/"@ =~= seq!['/']);
        }
        let mut res = self.node.to_string();
        res.append("@");
        let parts = self.path.as_slice();
        assert(parts@ == self.path@);
        let path = join(parts, "/");
        assert(path@ == join_with(self@.1, seq!['/']));
        assert(res@ == self@.0 + seq!['@']);
        res.append(path.as_str());
        res
    }

    /// Whether both name the same attribute.
    pub fn same(&self, other: &AttrId) -> (res: bool)
        ensures
            res == (self@ == other@),
    {
        if !str_eq(self.node.as_ref(), other.node.as_ref()) {
            return false;
        }
        let n = self.path.len();
        if n != other.path.len() {
            assert(self@.1.len() != other@.1.len());
            return false;
        }
        let mut i: usize = 0;
        while i < n
            invariant
                n == self.path.len(),
                n == other.path.len(),
                i <= n,
                forall|j: int| 0 <= j < i ==> self@.1[j] == other@.1[j],
            decreases n - i,
        {
            if !str_eq(self.path[i].as_str(), other.path[i].as_str()) {
                assert(self@.1[i as int] != other@.1[i as int]);
                return false;
            }
            i = i + 1;
        }
        assert(self@.1 == other@.1);
        true
    }
}

/// Whether `ids` holds an attribute name equal to `id`.
pub fn contains_attr(ids: &Vec<AttrId>, id: &AttrId) -> (res: bool)
    ensures
        res == exists|i: int| 0 <= i < ids.len() && (#[trigger] ids[i])@ == id@,
{
    let mut i: usize = 0;
    while i < ids.len()
        invariant
            i <= ids.len(),
            forall|j: int| 0 <= j < i ==> (#[trigger] ids[j])@ != id@,
        decreases ids.len() - i,
    {
        if ids[i].same(id) {
            return true;
        }
        i = i + 1;
    }
    false
}

/// The views of key and input pairs.
pub open spec fn input_pair_views(v: Seq<(String, InputId)>) -> Seq<(Seq<char>, Seq<char>)> {
    v.map_values(|p: (String, InputId)| (p.0@, p.1@))
}

/// What a client knows of an attribute: its name, kind and value type, the
/// attributes below it and the inputs it listens to, by key.
pub struct Attr {
    pub name: AttrId,
    pub kind: String,
    pub value_type: String,
    /// The attributes below. A list, not a `HashSet`, for the same reason as
    /// the maps: vstd models the hashing of integers and `bool` only.
    pub attrs: Vec<AttrId>,
    /// The inputs, by key; a later entry with the same key wins. A list of
    /// pairs, not a `HashMap`: vstd specifies a `HashMap` only for keys whose
    /// hashing it models (integers and `bool`); for `String` keys it would take
    /// an `assume`.
    pub inputs: Vec<(String, InputId)>,
}

impl Attr {
    /// The inputs by key.
    pub open spec fn input_map(&self) -> Map<Seq<char>, Seq<char>> {
        map_of_pairs(input_pair_views(self.inputs@))
    }

    /// Whether the attribute has `id` below it.
    pub open spec fn has_attr(&self, id: (Seq<char>, Seq<Seq<char>>)) -> bool {
        exists|i: int| 0 <= i < self.attrs.len() && (#[trigger] self.attrs[i])@ == id
    }

    /// Reads an attribute description; each attribute name below becomes the
    /// path of this attribute extended by it.
    pub fn from_attr_info(info: AttrInfoResponse) -> (res: Attr)
        requires
            info.attr is Some,
        ensures
            res.name@ == (info.attr->0.node@, string_views(info.attr->0.path@)),
            res.kind@ == info.kind@,
            res.value_type@ == info.value_type@,
            res.attrs.len() == info.attrs.len(),
            forall|i: int|
                0 <= i < info.attrs.len() ==> (#[trigger] res.attrs[i])@ == (res.name@.0, res.name@.1.push(
                    info.attrs[i]@,
                )),
            input_pair_views(res.inputs@) == string_pair_views(info.inputs@),
    {
        let attr_ref = info.attr.unwrap();
        let name = AttrId { node: NodeId::from_string(attr_ref.node), path: attr_ref.path };
        let mut attrs: Vec<AttrId> = Vec::new();
        let mut i: usize = 0;
        while i < info.attrs.len()
            invariant
                i <= info.attrs.len(),
                attrs.len() == i,
                forall|k: int| 0 <= k < i ==> (#[trigger] attrs[k])@ == (name@.0, name@.1.push(info.attrs[k]@)),
            decreases info.attrs.len() - i,
        {
            attrs.push(name.clone().extend(info.attrs[i].clone()));
            i = i + 1;
        }
        let mut inputs: Vec<(String, InputId)> = Vec::new();
        let mut j: usize = 0;
        while j < info.inputs.len()
            invariant
                j <= info.inputs.len(),
                input_pair_views(inputs@) == string_pair_views(info.inputs@).take(j as int),
            decreases info.inputs.len() - j,
        {
            let ghost prev = inputs@;
            assert(prev.len() == j) by {
                assert(input_pair_views(prev).len() == j);
            }
            inputs.push((info.inputs[j].0.clone(), InputId::from_string(info.inputs[j].1.clone())));
            assert(input_pair_views(inputs@) =~= string_pair_views(info.inputs@).take(j + 1)) by {
                assert(inputs@ == prev.push(inputs@.last()));
            }
            j = j + 1;
        }
        assert(string_pair_views(info.inputs@).take(info.inputs.len() as int) == string_pair_views(info.inputs@));
        Attr { name, kind: info.kind, value_type: info.value_type, attrs, inputs }
    }

    /// The attribute to ask for as the child `name` of this one: none unless
    /// the attribute has it below it.
    pub fn attr_id(&self, name: &str) -> (res: Option<AttrId>)
        ensures
            match res {
                Some(id) => id@ == (self.name@.0, self.name@.1.push(name@)) && self.has_attr(id@),
                None => !self.has_attr((self.name@.0, self.name@.1.push(name@))),
            },
    {
        let attr = self.name.clone().extend(crate::text::owned(name));
        if contains_attr(&self.attrs, &attr) {
            Some(attr)
        } else {
            None
        }
    }

    /// The input to ask for under `key`, if the attribute has one.
    pub fn input_id(&self, key: &str) -> (res: Option<InputId>)
        ensures
            match res {
                Some(id) => self.input_map().contains_key(key@) && id@ == self.input_map()[key@],
                None => !self.input_map().contains_key(key@),
            },
    {
        let mut i = self.inputs.len();
        while i > 0
            invariant
                i <= self.inputs.len(),
                forall|j: int| i <= j < self.inputs.len() ==> (#[trigger] self.inputs[j]).0@ != key@,
            decreases i,
        {
            i = i - 1;
            if str_eq(self.inputs[i].0.as_str(), key) {
                proof {
                    lookup_last(input_pair_views(self.inputs@), key@, i as int);
                }
                return Some(self.inputs[i].1.clone());
            }
        }
        proof {
            lookup_last(input_pair_views(self.inputs@), key@, -1);
        }
        None
    }
}

/// Every attribute that a description lists below an attribute is found as
/// its child under its own name.
pub proof fn lemma_listed_children_are_found(attr: Attr, names: Seq<Seq<char>>, i: int)
    requires
        0 <= i < names.len(),
        attr.attrs.len() == names.len(),
        forall|k: int| 0 <= k < names.len() ==> (#[trigger] attr.attrs[k])@ == (attr.name@.0, attr.name@.1.push(names[k])),
    ensures
        attr.has_attr((attr.name@.0, attr.name@.1.push(names[i]))),
{
    assert(attr.attrs[i]@ == (attr.name@.0, attr.name@.1.push(names[i])));
}

} // verus!
