use vstd::prelude::*;

verus! {

/// The declaration of a node driven by a Lua module: the module's `update`
/// method computes every frame; the settings become globals of the script.
pub struct Lua {
    pub path: String,
    /// The settings: name and value. A list of pairs, not a `HashMap`: vstd
    /// specifies a `HashMap` only for keys whose hashing it models (integers
    /// and `bool`); for `String` keys it would take an `assume`.
    pub settings: Vec<(String, String)>,
}

impl Lua {
    /// The node for the module at `path`, without settings.
    pub fn with_path(path: String) -> (res: Self)
        ensures
            res.path@ == path@,
            res.settings@ == Seq::<(String, String)>::empty(),
    {
        Lua { path, settings: Vec::new() }
    }
}

} // verus!
