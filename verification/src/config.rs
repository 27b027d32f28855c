//! Where the shader source comes from.

use vstd::prelude::*;

verus! {

/// The path of the shader source when none is given.
pub const DEFAULT_SHADER_PATH: &'static str = "./src/shader.wgsl";

/// The viewer's settings: the path of the file that holds the shader
/// source. The file is read anew whenever a pipeline is built.
#[derive(Debug)]
pub struct Config {
    pub path: String,
}

impl Config {
    /// Settings that point at the given shader source.
    pub fn new(path: String) -> (config: Self)
        ensures
            config.path@ == path@,
    {
        Config { path }
    }

    /// The path of the shader source.
    pub fn path(&self) -> (path: &str)
        ensures
            path@ == self.path@,
    {
        self.path.as_str()
    }
}

impl Default for Config {
    /// Settings that point at the bundled shader source.
    fn default() -> (config: Self)
        ensures
            config.path@ == DEFAULT_SHADER_PATH@,
    {
        Config { path: DEFAULT_SHADER_PATH.to_owned() }
    }
}

} // verus!
