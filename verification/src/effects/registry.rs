use vstd::prelude::*;

use crate::text::str_eq;

verus! {

/// The kinds of nodes that a configuration can name.
#[derive(Clone, Copy, Debug, PartialEq, Eq, Structural)]
pub enum NodeKind {
    Alert,
    Blackout,
    Brightness,
    ColorWheel,
    Larson,
    Noise,
    Overlay,
    Raindrops,
    Select,
    Solid,
    Splice,
    Switch,
}

/// The kinds of attributes that a configuration can name.
#[derive(Clone, Copy, Debug, PartialEq, Eq, Structural)]
pub enum AttrKind {
    Button,
    Switch,
    Fader,
    Looper,
    Noise,
    Random,
    Sequence,
    Peak,
}

/// The color spaces in which a color attribute can be assembled from
/// channel attributes.
#[derive(Clone, Copy, Debug, PartialEq, Eq, Structural)]
pub enum ColorSpace {
    Rgb,
    Rgbw,
    Hsl,
    HslLuv,
    Hsv,
    Hwb,
    Lab,
    Lch,
    LchUv,
    Luv,
    OkHsl,
    OkHsv,
    OkHwb,
    OkLab,
    OkLch,
    Xyz,
    Yxy,
}

/// The node kinds that the effect registry offers, by name.
pub open spec fn registry_node_kind(kind: Seq<char>) -> Option<NodeKind> {
    if kind == "alert"@ {
        Some(NodeKind::Alert)
    } else if kind == "blackout"@ {
        Some(NodeKind::Blackout)
    } else if kind == "brightness"@ {
        Some(NodeKind::Brightness)
    } else if kind == "color-wheel"@ {
        Some(NodeKind::ColorWheel)
    } else if kind == "larson"@ {
        Some(NodeKind::Larson)
    } else if kind == "noise"@ {
        Some(NodeKind::Noise)
    } else if kind == "overlay"@ {
        Some(NodeKind::Overlay)
    } else if kind == "raindrops"@ {
        Some(NodeKind::Raindrops)
    } else if kind == "select"@ {
        Some(NodeKind::Select)
    } else if kind == "solid"@ {
        Some(NodeKind::Solid)
    } else if kind == "splice"@ {
        Some(NodeKind::Splice)
    } else {
        None
    }
}

/// The node kinds that the node registry offers, by name.
pub open spec fn lookup_node_kind(kind: Seq<char>) -> Option<NodeKind> {
    if kind == "alert"@ {
        Some(NodeKind::Alert)
    } else if kind == "blackout"@ {
        Some(NodeKind::Blackout)
    } else if kind == "brightness"@ {
        Some(NodeKind::Brightness)
    } else if kind == "color-wheel"@ {
        Some(NodeKind::ColorWheel)
    } else if kind == "larson"@ {
        Some(NodeKind::Larson)
    } else if kind == "noise"@ {
        Some(NodeKind::Noise)
    } else if kind == "overlay"@ {
        Some(NodeKind::Overlay)
    } else if kind == "raindrops"@ {
        Some(NodeKind::Raindrops)
    } else if kind == "solid"@ {
        Some(NodeKind::Solid)
    } else if kind == "splice"@ {
        Some(NodeKind::Splice)
    } else if kind == "switch"@ {
        Some(NodeKind::Switch)
    } else {
        None
    }
}

/// The attribute kinds that can stand without bounds, by name.
pub open spec fn free_attr_kind(kind: Seq<char>) -> Option<AttrKind> {
    if kind == "button"@ {
        Some(AttrKind::Button)
    } else if kind == "switch"@ {
        Some(AttrKind::Switch)
    } else if kind == "fader"@ {
        Some(AttrKind::Fader)
    } else if kind == "sequence"@ {
        Some(AttrKind::Sequence)
    } else if kind == "peak"@ {
        Some(AttrKind::Peak)
    } else {
        None
    }
}

/// The attribute kinds that can stand inside bounds, by name.
pub open spec fn bound_attr_kind(kind: Seq<char>) -> Option<AttrKind> {
    if kind == "button"@ {
        Some(AttrKind::Button)
    } else if kind == "switch"@ {
        Some(AttrKind::Switch)
    } else if kind == "fader"@ {
        Some(AttrKind::Fader)
    } else if kind == "looper"@ {
        Some(AttrKind::Looper)
    } else if kind == "noise"@ {
        Some(AttrKind::Noise)
    } else if kind == "random"@ {
        Some(AttrKind::Random)
    } else if kind == "sequence"@ {
        Some(AttrKind::Sequence)
    } else if kind == "peak"@ {
        Some(AttrKind::Peak)
    } else {
        None
    }
}

/// The color attributes, by name.
pub open spec fn color_attr_space(kind: Seq<char>) -> Option<ColorSpace> {
    if kind == "color:rgb"@ {
        Some(ColorSpace::Rgb)
    } else if kind == "color:rgbw"@ {
        Some(ColorSpace::Rgbw)
    } else if kind == "color:hsl"@ {
        Some(ColorSpace::Hsl)
    } else if kind == "color:hsl_luv"@ {
        Some(ColorSpace::HslLuv)
    } else if kind == "color:hsv"@ {
        Some(ColorSpace::Hsv)
    } else if kind == "color:hwb"@ {
        Some(ColorSpace::Hwb)
    } else if kind == "color:lab"@ {
        Some(ColorSpace::Lab)
    } else if kind == "color:lch"@ {
        Some(ColorSpace::Lch)
    } else if kind == "color:lch_uv"@ {
        Some(ColorSpace::LchUv)
    } else if kind == "color:luv"@ {
        Some(ColorSpace::Luv)
    } else if kind == "color:ok_hsl"@ {
        Some(ColorSpace::OkHsl)
    } else if kind == "color:ok_hsv"@ {
        Some(ColorSpace::OkHsv)
    } else if kind == "color:ok_hwb"@ {
        Some(ColorSpace::OkHwb)
    } else if kind == "color:ok_lab"@ {
        Some(ColorSpace::OkLab)
    } else if kind == "color:ok_lch"@ {
        Some(ColorSpace::OkLch)
    } else if kind == "color:xyz"@ {
        Some(ColorSpace::Xyz)
    } else if kind == "color:yxy"@ {
        Some(ColorSpace::Yxy)
    } else {
        None
    }
}

/// The registry of the effects: resolves the names of node and attribute
/// kinds.
pub struct Registry;

impl Registry {
    /// The node kind called `kind`, if the registry offers one.
    pub fn node(kind: &str) -> (res: Option<NodeKind>)
        ensures
            res == registry_node_kind(kind@),
    {
        if str_eq(kind, "alert") {
            return Some(NodeKind::Alert);
        }
        if str_eq(kind, "blackout") {
            return Some(NodeKind::Blackout);
        }
        if str_eq(kind, "brightness") {
            return Some(NodeKind::Brightness);
        }
        if str_eq(kind, "color-wheel") {
            return Some(NodeKind::ColorWheel);
        }
        if str_eq(kind, "larson") {
            return Some(NodeKind::Larson);
        }
        if str_eq(kind, "noise") {
            return Some(NodeKind::Noise);
        }
        if str_eq(kind, "overlay") {
            return Some(NodeKind::Overlay);
        }
        if str_eq(kind, "raindrops") {
            return Some(NodeKind::Raindrops);
        }
        if str_eq(kind, "select") {
            return Some(NodeKind::Select);
        }
        if str_eq(kind, "solid") {
            return Some(NodeKind::Solid);
        }
        if str_eq(kind, "splice") {
            return Some(NodeKind::Splice);
        }
        None
    }

    /// The attribute kind called `kind` that can stand without bounds.
    pub fn free_attr(kind: &str) -> (res: Option<AttrKind>)
        ensures
            res == free_attr_kind(kind@),
    {
        if str_eq(kind, "button") {
            return Some(AttrKind::Button);
        }
        if str_eq(kind, "switch") {
            return Some(AttrKind::Switch);
        }
        if str_eq(kind, "fader") {
            return Some(AttrKind::Fader);
        }
        if str_eq(kind, "sequence") {
            return Some(AttrKind::Sequence);
        }
        if str_eq(kind, "peak") {
            return Some(AttrKind::Peak);
        }
        None
    }

    /// The attribute kind called `kind` that can stand inside bounds.
    pub fn bound_attr(kind: &str) -> (res: Option<AttrKind>)
        ensures
            res == bound_attr_kind(kind@),
    {
        if str_eq(kind, "button") {
            return Some(AttrKind::Button);
        }
        if str_eq(kind, "switch") {
            return Some(AttrKind::Switch);
        }
        if str_eq(kind, "fader") {
            return Some(AttrKind::Fader);
        }
        if str_eq(kind, "looper") {
            return Some(AttrKind::Looper);
        }
        if str_eq(kind, "noise") {
            return Some(AttrKind::Noise);
        }
        if str_eq(kind, "random") {
            return Some(AttrKind::Random);
        }
        if str_eq(kind, "sequence") {
            return Some(AttrKind::Sequence);
        }
        if str_eq(kind, "peak") {
            return Some(AttrKind::Peak);
        }
        None
    }
}

/// The registry of the nodes.
pub struct NodeRegistry;

impl NodeRegistry {
    /// The node kind called `kind`, if the registry offers one.
    pub fn lookup(kind: &str) -> (res: Option<NodeKind>)
        ensures
            res == lookup_node_kind(kind@),
    {
        if str_eq(kind, "alert") {
            return Some(NodeKind::Alert);
        }
        if str_eq(kind, "blackout") {
            return Some(NodeKind::Blackout);
        }
        if str_eq(kind, "brightness") {
            return Some(NodeKind::Brightness);
        }
        if str_eq(kind, "color-wheel") {
            return Some(NodeKind::ColorWheel);
        }
        if str_eq(kind, "larson") {
            return Some(NodeKind::Larson);
        }
        if str_eq(kind, "noise") {
            return Some(NodeKind::Noise);
        }
        if str_eq(kind, "overlay") {
            return Some(NodeKind::Overlay);
        }
        if str_eq(kind, "raindrops") {
            return Some(NodeKind::Raindrops);
        }
        if str_eq(kind, "solid") {
            return Some(NodeKind::Solid);
        }
        if str_eq(kind, "splice") {
            return Some(NodeKind::Splice);
        }
        if str_eq(kind, "switch") {
            return Some(NodeKind::Switch);
        }
        None
    }
}

/// The color attribute called `kind` (`color:` and the name of the space).
pub fn color_free_attr(kind: &str) -> (res: Option<ColorSpace>)
    ensures
        res == color_attr_space(kind@),
{
    if str_eq(kind, "color:rgb") {
        return Some(ColorSpace::Rgb);
    }
    if str_eq(kind, "color:rgbw") {
        return Some(ColorSpace::Rgbw);
    }
    if str_eq(kind, "color:hsl") {
        return Some(ColorSpace::Hsl);
    }
    if str_eq(kind, "color:hsl_luv") {
        return Some(ColorSpace::HslLuv);
    }
    if str_eq(kind, "color:hsv") {
        return Some(ColorSpace::Hsv);
    }
    if str_eq(kind, "color:hwb") {
        return Some(ColorSpace::Hwb);
    }
    if str_eq(kind, "color:lab") {
        return Some(ColorSpace::Lab);
    }
    if str_eq(kind, "color:lch") {
        return Some(ColorSpace::Lch);
    }
    if str_eq(kind, "color:lch_uv") {
        return Some(ColorSpace::LchUv);
    }
    if str_eq(kind, "color:luv") {
        return Some(ColorSpace::Luv);
    }
    if str_eq(kind, "color:ok_hsl") {
        return Some(ColorSpace::OkHsl);
    }
    if str_eq(kind, "color:ok_hsv") {
        return Some(ColorSpace::OkHsv);
    }
    if str_eq(kind, "color:ok_hwb") {
        return Some(ColorSpace::OkHwb);
    }
    if str_eq(kind, "color:ok_lab") {
        return Some(ColorSpace::OkLab);
    }
    if str_eq(kind, "color:ok_lch") {
        return Some(ColorSpace::OkLch);
    }
    if str_eq(kind, "color:xyz") {
        return Some(ColorSpace::Xyz);
    }
    if str_eq(kind, "color:yxy") {
        return Some(ColorSpace::Yxy);
    }
    None
}

/// The name under which configurations write each node kind.
pub open spec fn node_kind_name(k: NodeKind) -> Seq<char> {
    match k {
        NodeKind::Alert => "alert"@,
        NodeKind::Blackout => "blackout"@,
        NodeKind::Brightness => "brightness"@,
        NodeKind::ColorWheel => "color-wheel"@,
        NodeKind::Larson => "larson"@,
        NodeKind::Noise => "noise"@,
        NodeKind::Overlay => "overlay"@,
        NodeKind::Raindrops => "raindrops"@,
        NodeKind::Select => "select"@,
        NodeKind::Solid => "solid"@,
        NodeKind::Splice => "splice"@,
        NodeKind::Switch => "switch"@,
    }
}

/// The name under which configurations write each attribute kind.
pub open spec fn attr_kind_name(k: AttrKind) -> Seq<char> {
    match k {
        AttrKind::Button => "button"@,
        AttrKind::Switch => "switch"@,
        AttrKind::Fader => "fader"@,
        AttrKind::Looper => "looper"@,
        AttrKind::Noise => "noise"@,
        AttrKind::Random => "random"@,
        AttrKind::Sequence => "sequence"@,
        AttrKind::Peak => "peak"@,
    }
}

/// The name under which configurations write the color attribute of each
/// color space.
pub open spec fn color_space_name(k: ColorSpace) -> Seq<char> {
    match k {
        ColorSpace::Rgb => "color:rgb"@,
        ColorSpace::Rgbw => "color:rgbw"@,
        ColorSpace::Hsl => "color:hsl"@,
        ColorSpace::HslLuv => "color:hsl_luv"@,
        ColorSpace::Hsv => "color:hsv"@,
        ColorSpace::Hwb => "color:hwb"@,
        ColorSpace::Lab => "color:lab"@,
        ColorSpace::Lch => "color:lch"@,
        ColorSpace::LchUv => "color:lch_uv"@,
        ColorSpace::Luv => "color:luv"@,
        ColorSpace::OkHsl => "color:ok_hsl"@,
        ColorSpace::OkHsv => "color:ok_hsv"@,
        ColorSpace::OkHwb => "color:ok_hwb"@,
        ColorSpace::OkLab => "color:ok_lab"@,
        ColorSpace::OkLch => "color:ok_lch"@,
        ColorSpace::Xyz => "color:xyz"@,
        ColorSpace::Yxy => "color:yxy"@,
    }
}

/// The effect registry resolves a name to a node kind exactly when the name
/// is that kind's own name, and it offers every node kind but the switch;
/// the node registry offers every node kind but the select.
pub proof fn lemma_node_registries_resolve_names(name: Seq<char>, k: NodeKind)
    ensures
        registry_node_kind(name) == Some(k) ==> node_kind_name(k) == name,
        k != NodeKind::Switch ==> registry_node_kind(node_kind_name(k)) == Some(k),
        registry_node_kind(node_kind_name(NodeKind::Switch)) is None,
        lookup_node_kind(name) == Some(k) ==> node_kind_name(k) == name,
        k != NodeKind::Select ==> lookup_node_kind(node_kind_name(k)) == Some(k),
        lookup_node_kind(node_kind_name(NodeKind::Select)) is None,
{
    reveal_strlit("alert");
    reveal_strlit("blackout");
    reveal_strlit("brightness");
    reveal_strlit("color-wheel");
    reveal_strlit("larson");
    reveal_strlit("noise");
    reveal_strlit("overlay");
    reveal_strlit("raindrops");
    reveal_strlit("select");
    reveal_strlit("solid");
    reveal_strlit("splice");
    reveal_strlit("switch");
    assert("alert"@.len() == 5);
    assert("blackout"@.len() == 8);
    assert("brightness"@.len() == 10);
    assert("color-wheel"@.len() == 11);
    assert("larson"@.len() == 6);
    assert("noise"@.len() == 5);
    assert("overlay"@.len() == 7);
    assert("raindrops"@.len() == 9);
    assert("select"@.len() == 6);
    assert("solid"@.len() == 5);
    assert("splice"@.len() == 6);
    assert("switch"@.len() == 6);
    assert("alert"@[0] == 'a');
    assert("larson"@[0] == 'l');
    assert("noise"@[0] == 'n');
    assert("select"@[0] == 's');
    assert("select"@[1] == 'e');
    assert("solid"@[0] == 's');
    assert("splice"@[0] == 's');
    assert("splice"@[1] == 'p');
    assert("switch"@[0] == 's');
    assert("switch"@[1] == 'w');
}

/// The attribute registries resolve a name to an attribute kind exactly
/// when the name is that kind's own name: inside bounds every kind is
/// offered, without bounds all but the looper, noise and random ones.
pub proof fn lemma_attr_registries_resolve_names(name: Seq<char>, k: AttrKind)
    ensures
        bound_attr_kind(name) == Some(k) ==> attr_kind_name(k) == name,
        bound_attr_kind(attr_kind_name(k)) == Some(k),
        free_attr_kind(name) == Some(k) ==> attr_kind_name(k) == name,
        !(k is Looper || k is Noise || k is Random) ==> free_attr_kind(attr_kind_name(k)) == Some(k),
        (k is Looper || k is Noise || k is Random) ==> free_attr_kind(attr_kind_name(k)) is None,
{
    reveal_strlit("button");
    reveal_strlit("switch");
    reveal_strlit("fader");
    reveal_strlit("looper");
    reveal_strlit("noise");
    reveal_strlit("random");
    reveal_strlit("sequence");
    reveal_strlit("peak");
    assert("button"@.len() == 6);
    assert("switch"@.len() == 6);
    assert("fader"@.len() == 5);
    assert("looper"@.len() == 6);
    assert("noise"@.len() == 5);
    assert("random"@.len() == 6);
    assert("sequence"@.len() == 8);
    assert("peak"@.len() == 4);
    assert("button"@[0] == 'b');
    assert("fader"@[0] == 'f');
    assert("looper"@[0] == 'l');
    assert("noise"@[0] == 'n');
    assert("random"@[0] == 'r');
    assert("switch"@[0] == 's');
}

/// A color attribute name resolves to a color space exactly when it is that
/// space's own name, and every color space is offered.
pub proof fn lemma_color_attrs_resolve_names(name: Seq<char>, c: ColorSpace)
    ensures
        color_attr_space(name) == Some(c) ==> color_space_name(c) == name,
        color_attr_space(color_space_name(c)) == Some(c),
{
    reveal_strlit("color:rgb");
    reveal_strlit("color:rgbw");
    reveal_strlit("color:hsl");
    reveal_strlit("color:hsl_luv");
    reveal_strlit("color:hsv");
    reveal_strlit("color:hwb");
    reveal_strlit("color:lab");
    reveal_strlit("color:lch");
    reveal_strlit("color:lch_uv");
    reveal_strlit("color:luv");
    reveal_strlit("color:ok_hsl");
    reveal_strlit("color:ok_hsv");
    reveal_strlit("color:ok_hwb");
    reveal_strlit("color:ok_lab");
    reveal_strlit("color:ok_lch");
    reveal_strlit("color:xyz");
    reveal_strlit("color:yxy");
    assert("color:rgb"@.len() == 9);
    assert("color:rgbw"@.len() == 10);
    assert("color:hsl"@.len() == 9);
    assert("color:hsl_luv"@.len() == 13);
    assert("color:hsv"@.len() == 9);
    assert("color:hwb"@.len() == 9);
    assert("color:lab"@.len() == 9);
    assert("color:lch"@.len() == 9);
    assert("color:lch_uv"@.len() == 12);
    assert("color:luv"@.len() == 9);
    assert("color:ok_hsl"@.len() == 12);
    assert("color:ok_hsv"@.len() == 12);
    assert("color:ok_hwb"@.len() == 12);
    assert("color:ok_lab"@.len() == 12);
    assert("color:ok_lch"@.len() == 12);
    assert("color:xyz"@.len() == 9);
    assert("color:yxy"@.len() == 9);
    assert("color:hsl"@[6] == 'h');
    assert("color:hsl"@[7] == 's');
    assert("color:hsl"@[8] == 'l');
    assert("color:hsv"@[6] == 'h');
    assert("color:hsv"@[7] == 's');
    assert("color:hsv"@[8] == 'v');
    assert("color:hwb"@[6] == 'h');
    assert("color:hwb"@[7] == 'w');
    assert("color:lab"@[6] == 'l');
    assert("color:lab"@[7] == 'a');
    assert("color:lch"@[6] == 'l');
    assert("color:lch"@[7] == 'c');
    assert("color:lch_uv"@[6] == 'l');
    assert("color:luv"@[6] == 'l');
    assert("color:luv"@[7] == 'u');
    assert("color:ok_hsl"@[6] == 'o');
    assert("color:ok_hsl"@[9] == 'h');
    assert("color:ok_hsl"@[10] == 's');
    assert("color:ok_hsl"@[11] == 'l');
    assert("color:ok_hsv"@[6] == 'o');
    assert("color:ok_hsv"@[9] == 'h');
    assert("color:ok_hsv"@[10] == 's');
    assert("color:ok_hsv"@[11] == 'v');
    assert("color:ok_hwb"@[6] == 'o');
    assert("color:ok_hwb"@[9] == 'h');
    assert("color:ok_hwb"@[10] == 'w');
    assert("color:ok_lab"@[6] == 'o');
    assert("color:ok_lab"@[9] == 'l');
    assert("color:ok_lab"@[10] == 'a');
    assert("color:ok_lch"@[6] == 'o');
    assert("color:ok_lch"@[9] == 'l');
    assert("color:ok_lch"@[10] == 'c');
    assert("color:rgb"@[6] == 'r');
    assert("color:xyz"@[6] == 'x');
    assert("color:yxy"@[6] == 'y');
}

/// Every attribute kind that can stand without bounds can stand inside
/// bounds too, under the same name.
pub proof fn lemma_free_kinds_are_bound_kinds(kind: Seq<char>)
    requires
        free_attr_kind(kind) is Some,
    ensures
        bound_attr_kind(kind) == free_attr_kind(kind),
{
    reveal_strlit("button");
    reveal_strlit("switch");
    reveal_strlit("fader");
    reveal_strlit("looper");
    reveal_strlit("noise");
    reveal_strlit("random");
    reveal_strlit("sequence");
    reveal_strlit("peak");
    // The names differ in their length, but for `button` and `switch`,
    // which differ in their first letter.
    assert("button"@.len() == 6 && "switch"@.len() == 6 && "looper"@.len() == 6 && "random"@.len() == 6);
    assert("fader"@.len() == 5 && "noise"@.len() == 5 && "sequence"@.len() == 8 && "peak"@.len() == 4);
    assert("switch"@[0] != "button"@[0]);
}

} // verus!
