//! State of the shader-source preprocessor: the root directory that file
//! references inside shader sources are resolved against. The substitution
//! itself reads files, so it lives with the application; the library holds
//! the configuration and the error vocabulary.

use vstd::prelude::*;

verus! {

pub struct WgslPreProcessor {
    root: String,
}

#[derive(Debug)]
pub enum PreProcessError {
    FileNotFound(String),
    FileReadError(String),
    Other(String),
}

impl WgslPreProcessor {
    pub closed spec fn spec_root(self) -> Seq<char> {
        self.root@
    }

    /// A preprocessor resolving shader file references against `root`.
    pub fn new(root: &str) -> (p: WgslPreProcessor)
        ensures
            p.spec_root() == root@,
    {
        WgslPreProcessor { root: root.to_owned() }
    }

    pub fn root(&self) -> (s: &String)
        ensures
            s@ == self.spec_root(),
    {
        &self.root
    }
}

} // verus!
