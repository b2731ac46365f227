//! The setting that says which executable a run starts.

use vstd::prelude::*;

verus! {

/// The executable that is started while no other was set: a bare name,
/// which the operating system looks up on its search path.
pub open spec fn default_bin_path() -> Seq<char> {
    "pygmentize"@
}

/// The path or name of the highlighter's executable. A run reads it once,
/// when it starts; nothing checks it before that.
#[derive(Clone, Debug, PartialEq, Eq)]
pub struct BinPath {
    path: String,
}

impl View for BinPath {
    type V = Seq<char>;

    closed spec fn view(&self) -> Seq<char> {
        self.path@
    }
}

impl BinPath {
    /// The setting with which every process begins.
    pub fn new() -> (setting: BinPath)
        ensures
            setting@ == default_bin_path(),
    {
        BinPath { path: "pygmentize".to_owned() }
    }

    /// The executable that a run started now would use.
    pub fn as_str(&self) -> (path: &str)
        ensures
            path@ == self@,
    {
        self.path.as_str()
    }
}

impl Default for BinPath {
    fn default() -> (setting: BinPath)
        ensures
            setting@ == default_bin_path(),
    {
        BinPath::new()
    }
}

/// Replaces the executable that later runs start. The new value is taken
/// as it is: a path that names nothing shows only when a run tries it.
pub fn set_bin_path(setting: &mut BinPath, pygmentize: &str)
    ensures
        final(setting)@ == pygmentize@,
{
    setting.path = pygmentize.to_owned();
}

} // verus!
