use vstd::prelude::*;

use crate::grpc_client::values::{value_type_text, ValueType};
use crate::introspection::{first_input_named, first_node_named, AttrInfo, InputInfo, Introspection, NodeInfo, NodeRef};
use crate::text::{owned, str_eq, string_views};

verus! {

/// The words into which `shlex::split` cuts a line, or none where the line
/// is not well quoted.
pub uninterp spec fn shlex_split(line: Seq<char>) -> Option<Seq<Seq<char>>>;

/// `shlex::split`: cuts a command line into words by the quoting rules of
/// a POSIX shell; the words are a function of the line alone.
#[verifier::external_body]
fn split_words(line: &str) -> (res: Option<Vec<String>>)
    ensures
        match res {
            Some(words) => shlex_split(line@) == Some(string_views(words@)),
            None => shlex_split(line@) is None,
        },
{
    shlex::split(line)
}

/// What the command line does after a line.
pub enum CliAction {
    /// Prompts for the next line.
    Continue,
    /// Ends the session.
    Exit,
    /// Sends the text `value` to the input at position `input`, read as a
    /// value of the input's type, then prompts for the next line.
    Send { input: usize, value: String },
}

/// The answer to one line: text to show, and what to do next.
pub struct CliStep {
    pub output: String,
    pub action: CliAction,
}

/// The listing of all nodes: one line `name = [kind]` each.
pub open spec fn node_list_text(nodes: Seq<NodeInfo>) -> Seq<char>
    decreases nodes.len(),
{
    if nodes.len() == 0 {
        seq![]
    } else {
        let n = nodes.last();
        node_list_text(nodes.drop_last()) + n.name@ + " = ["@ + n.kind@ + "]\n"@
    }
}

/// The child nodes of a node: one line `    key = [kind]` each.
pub open spec fn child_list_text(nodes: Seq<NodeRef>) -> Seq<char>
    decreases nodes.len(),
{
    if nodes.len() == 0 {
        seq![]
    } else {
        let n = nodes.last();
        child_list_text(nodes.drop_last()) + "    "@ + n.key@ + " = ["@ + n.kind@ + "]\n"@
    }
}

/// The attributes directly below a node: one line
/// `    name : value type = [kind]` each.
pub open spec fn attr_list_text(attrs: Seq<AttrInfo>) -> Seq<char>
    decreases attrs.len(),
{
    if attrs.len() == 0 {
        seq![]
    } else {
        let a = attrs.last();
        let rest = attr_list_text(attrs.drop_last());
        if a.path.len() == 1 {
            rest + "    "@ + a.path@[0]@ + " : "@ + a.value_type@ + " = ["@ + a.kind@ + "]\n"@
        } else {
            rest
        }
    }
}

/// The description of a node. (The lines that head the lists of nodes and
/// attributes repeat the node's kind.)
pub open spec fn node_detail_text(node: NodeInfo) -> Seq<char> {
    "Node '"@ + node.name@ + "':\n"@ + "  Kind: "@ + node.kind@ + "\n"@ + "  Nodes: "@ + node.kind@ + "\n"@
        + child_list_text(node.nodes@) + "  Attributes: "@ + node.kind@ + "\n"@ + attr_list_text(node.attrs@)
}

/// The listing of all inputs: one line `name : value type` each.
pub open spec fn input_list_text(inputs: Seq<InputInfo>) -> Seq<char>
    decreases inputs.len(),
{
    if inputs.len() == 0 {
        seq![]
    } else {
        let i = inputs.last();
        input_list_text(inputs.drop_last()) + i.name@ + " : "@ + value_type_text(i.value_type) + "\n"@
    }
}

/// The description of an input.
pub open spec fn input_detail_text(input: InputInfo) -> Seq<char> {
    "Input '"@ + input.name@ + "':\n"@ + "  Value: "@ + value_type_text(input.value_type) + "\n"@
}

fn node_list(nodes: &Vec<NodeInfo>) -> (res: String)
    ensures
        res@ == node_list_text(nodes@),
{
    let mut res = String::new();
    let mut i: usize = 0;
    while i < nodes.len()
        invariant
            i <= nodes.len(),
            res@ == node_list_text(nodes@.take(i as int)),
        decreases nodes.len() - i,
    {
        assert(nodes@.take(i + 1).drop_last() == nodes@.take(i as int));
        res.append(nodes[i].name.as_str());
        res.append(" = [");
        res.append(nodes[i].kind.as_str());
        res.append("]\n");
        i = i + 1;
    }
    assert(nodes@.take(nodes.len() as int) == nodes@);
    res
}

fn child_list(nodes: &Vec<NodeRef>, res: &mut String)
    ensures
        final(res)@ == old(res)@ + child_list_text(nodes@),
{
    let ghost start = res@;
    let mut i: usize = 0;
    while i < nodes.len()
        invariant
            i <= nodes.len(),
            res@ == start + child_list_text(nodes@.take(i as int)),
        decreases nodes.len() - i,
    {
        assert(nodes@.take(i + 1).drop_last() == nodes@.take(i as int));
        res.append("    ");
        res.append(nodes[i].key.as_str());
        res.append(" = [");
        res.append(nodes[i].kind.as_str());
        res.append("]\n");
        i = i + 1;
    }
    assert(nodes@.take(nodes.len() as int) == nodes@);
}

fn attr_list(attrs: &Vec<AttrInfo>, res: &mut String)
    ensures
        final(res)@ == old(res)@ + attr_list_text(attrs@),
{
    let ghost start = res@;
    let mut i: usize = 0;
    while i < attrs.len()
        invariant
            i <= attrs.len(),
            res@ == start + attr_list_text(attrs@.take(i as int)),
        decreases attrs.len() - i,
    {
        assert(attrs@.take(i + 1).drop_last() == attrs@.take(i as int));
        let a = &attrs[i];
        if a.path.len() == 1 {
            res.append("    ");
            res.append(a.path[0].as_str());
            res.append(" : ");
            res.append(a.value_type.as_str());
            res.append(" = [");
            res.append(a.kind.as_str());
            res.append("]\n");
        }
        i = i + 1;
    }
    assert(attrs@.take(attrs.len() as int) == attrs@);
}

fn node_detail(node: &NodeInfo) -> (res: String)
    ensures
        res@ == node_detail_text(*node),
{
    let mut res = owned("Node '");
    res.append(node.name.as_str());
    res.append("':\n");
    res.append("  Kind: ");
    res.append(node.kind.as_str());
    res.append("\n");
    res.append("  Nodes: ");
    res.append(node.kind.as_str());
    res.append("\n");
    child_list(&node.nodes, &mut res);
    res.append("  Attributes: ");
    res.append(node.kind.as_str());
    res.append("\n");
    attr_list(&node.attrs, &mut res);
    res
}

fn input_list(inputs: &Vec<InputInfo>) -> (res: String)
    ensures
        res@ == input_list_text(inputs@),
{
    let mut res = String::new();
    let mut i: usize = 0;
    while i < inputs.len()
        invariant
            i <= inputs.len(),
            res@ == input_list_text(inputs@.take(i as int)),
        decreases inputs.len() - i,
    {
        assert(inputs@.take(i + 1).drop_last() == inputs@.take(i as int));
        res.append(inputs[i].name.as_str());
        res.append(" : ");
        res.append(inputs[i].value_type.name());
        res.append("\n");
        i = i + 1;
    }
    assert(inputs@.take(inputs.len() as int) == inputs@);
    res
}

fn input_detail(input: &InputInfo) -> (res: String)
    ensures
        res@ == input_detail_text(*input),
{
    let mut res = owned("Input '");
    res.append(input.name.as_str());
    res.append("':\n");
    res.append("  Value: ");
    res.append(input.value_type.name());
    res.append("\n");
    res
}

/// The reply to a value that the input does not take: the text given, the
/// input's value type and the reason, with no line break after it.
pub open spec fn invalid_value_text(value: Seq<char>, t: ValueType, reason: Seq<char>) -> Seq<char> {
    "Invalid value: '"@ + value + "' for "@ + value_type_text(t) + ": "@ + reason
}

/// Writes the reply to a value that the input of type `t` did not take,
/// for the reason `reason`; the session then goes on with the next line.
pub fn invalid_value_reply(value: &str, t: ValueType, reason: &str) -> (res: String)
    ensures
        res@ == invalid_value_text(value@, t, reason@),
{
    let mut res = owned("Invalid value: '");
    res.append(value);
    res.append("' for ");
    res.append(t.name());
    res.append(": ");
    res.append(reason);
    res
}

/// `prefix`, then `name`, then `'` and a line break.
fn quoted_line(prefix: &str, name: &str) -> (res: String)
    ensures
        res@ == prefix@ + name@ + "'\n"@,
{
    let mut res = owned(prefix);
    res.append(name);
    res.append("'\n");
    res
}

fn step(output: String, action: CliAction) -> (res: CliStep)
    ensures
        res.output == output,
        res.action == action,
{
    CliStep { output, action }
}

/// The answer to a line cut into `words`, or to a line that could not be
/// cut (`None`).
pub fn respond_words(introspection: &Introspection, words: Option<Vec<String>>) -> (res: CliStep)
    ensures
        match words {
            None => res.output@ == "Invalid input\n"@ && res.action is Continue,
            Some(w) => {
                let w = string_views(w@);
                if w.len() == 0 {
                    res.output@ == Seq::<char>::empty() && res.action is Continue
                } else if w[0] == "exit"@ {
                    res.output@ == Seq::<char>::empty() && res.action is Exit
                } else if w[0] == "node"@ {
                    &&& res.action is Continue
                    &&& if w.len() == 1 {
                        res.output@ == node_list_text(introspection.nodes@)
                    } else if first_node_named(introspection.nodes@, w[1], None) {
                        res.output@ == "No such node: '"@ + w[1] + "'\n"@
                    } else {
                        exists|i: usize|
                            first_node_named(introspection.nodes@, w[1], Some(i)) && res.output@ == node_detail_text(
                                #[trigger] introspection.nodes@[i as int],
                            )
                    }
                } else if w[0] == "input"@ {
                    if w.len() == 1 {
                        res.output@ == input_list_text(introspection.inputs@) && res.action is Continue
                    } else if first_input_named(introspection.inputs@, w[1], None) {
                        res.output@ == "No such input: '"@ + w[1] + "'\n"@ && res.action is Continue
                    } else if w.len() == 2 {
                        &&& res.action is Continue
                        &&& exists|i: usize|
                            first_input_named(introspection.inputs@, w[1], Some(i)) && res.output@
                                == input_detail_text(#[trigger] introspection.inputs@[i as int])
                    } else {
                        &&& res.output@ == Seq::<char>::empty()
                        &&& res.action matches CliAction::Send { input, value } && first_input_named(
                            introspection.inputs@,
                            w[1],
                            Some(input),
                        ) && value@ == w[2]
                    }
                } else {
                    res.output@ == "Unknown command: '"@ + w[0] + "'\n"@ && res.action is Continue
                }
            },
        },
{
    let words = match words {
        None => return step(owned("Invalid input\n"), CliAction::Continue),
        Some(w) => w,
    };
    let ghost w = string_views(words@);
    if words.len() == 0 {
        return step(String::new(), CliAction::Continue);
    }
    assert(w[0] == words@[0]@);
    let command = words[0].as_str();
    if str_eq(command, "exit") {
        return step(String::new(), CliAction::Exit);
    }
    if str_eq(command, "node") {
        if words.len() == 1 {
            return step(node_list(&introspection.nodes), CliAction::Continue);
        }
        assert(w[1] == words@[1]@);
        return match introspection.find_node(words[1].as_str()) {
            Some(i) => step(node_detail(&introspection.nodes[i]), CliAction::Continue),
            None => step(quoted_line("No such node: '", words[1].as_str()), CliAction::Continue),
        };
    }
    if str_eq(command, "input") {
        if words.len() == 1 {
            return step(input_list(&introspection.inputs), CliAction::Continue);
        }
        assert(w[1] == words@[1]@);
        return match introspection.find_input(words[1].as_str()) {
            Some(i) => if words.len() == 2 {
                step(input_detail(&introspection.inputs[i]), CliAction::Continue)
            } else {
                assert(w[2] == words@[2]@);
                step(String::new(), CliAction::Send { input: i, value: words[2].clone() })
            },
            None => step(quoted_line("No such input: '", words[1].as_str()), CliAction::Continue),
        };
    }
    step(quoted_line("Unknown command: '", command), CliAction::Continue)
}

/// The answer to one line typed at the command line: the line is cut into
/// words as a shell would, then answered as [`respond_words`] says.
pub fn respond(introspection: &Introspection, line: &str) -> (res: CliStep)
    ensures
        exists|words: Option<Vec<String>>|
            {
                &&& match words {
                    Some(w) => shlex_split(line@) == Some(string_views(w@)),
                    None => shlex_split(line@) is None,
                }
                &&& respond_words.ensures((introspection, words), res)
            },
{
    let words = split_words(line);
    respond_words(introspection, words)
}

/// The listing of nodes has one line per node, in order: its name, ` = [`,
/// its kind and `]`.
pub proof fn lemma_node_list_lines(nodes: Seq<NodeInfo>, n: NodeInfo)
    ensures
        node_list_text(Seq::empty()) == Seq::<char>::empty(),
        node_list_text(nodes.push(n)) == node_list_text(nodes) + n.name@ + " = ["@ + n.kind@ + "]\n"@,
{
    assert(nodes.push(n).drop_last() =~= nodes);
}

/// In a node's description, each child node has a line of its own, in
/// order: four spaces, the key under which the node holds it, ` = [`, the
/// child's kind and `]`.
pub proof fn lemma_child_list_lines(nodes: Seq<NodeRef>, n: NodeRef)
    ensures
        child_list_text(Seq::empty()) == Seq::<char>::empty(),
        child_list_text(nodes.push(n)) == child_list_text(nodes) + "    "@ + n.key@ + " = ["@ + n.kind@ + "]\n"@,
{
    assert(nodes.push(n).drop_last() =~= nodes);
}

/// In a node's description, each attribute directly below the node has a
/// line of its own, in order: four spaces, its name, ` : `, its value type,
/// ` = [`, its kind and `]`; nested attributes have none.
pub proof fn lemma_attr_list_lines(attrs: Seq<AttrInfo>, a: AttrInfo)
    ensures
        attr_list_text(Seq::empty()) == Seq::<char>::empty(),
        a.path.len() == 1 ==> attr_list_text(attrs.push(a)) == attr_list_text(attrs) + "    "@ + a.path@[0]@
            + " : "@ + a.value_type@ + " = ["@ + a.kind@ + "]\n"@,
        a.path.len() != 1 ==> attr_list_text(attrs.push(a)) == attr_list_text(attrs),
{
    assert(attrs.push(a).drop_last() =~= attrs);
}

/// The listing of inputs has one line per input, in order: its name, ` : `
/// and the name of its value type.
pub proof fn lemma_input_list_lines(inputs: Seq<InputInfo>, i: InputInfo)
    ensures
        input_list_text(Seq::empty()) == Seq::<char>::empty(),
        input_list_text(inputs.push(i)) == input_list_text(inputs) + i.name@ + " : "@ + value_type_text(
            i.value_type,
        ) + "\n"@,
{
    assert(inputs.push(i).drop_last() =~= inputs);
}

/// The description of a node: its name in quotes, its kind, then the lines
/// of its child nodes and of its attributes, each list headed by a line
/// that repeats the node's kind.
pub proof fn lemma_node_detail_lines(node: NodeInfo)
    ensures
        node_detail_text(node) == "Node '"@ + node.name@ + "':\n"@ + "  Kind: "@ + node.kind@ + "\n"@
            + "  Nodes: "@ + node.kind@ + "\n"@ + child_list_text(node.nodes@) + "  Attributes: "@ + node.kind@
            + "\n"@ + attr_list_text(node.attrs@),
{
}

/// The description of an input: its name in quotes and the name of its
/// value type.
pub proof fn lemma_input_detail_lines(input: InputInfo)
    ensures
        input_detail_text(input) == "Input '"@ + input.name@ + "':\n"@ + "  Value: "@ + value_type_text(
            input.value_type,
        ) + "\n"@,
{
}

} // verus!
