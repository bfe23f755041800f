//! Describes a shader before it is compiled: which file holds its source.
use vstd::prelude::*;

verus! {

/// A shader to be built from a file of the shader folder.
pub struct ShaderBuilder {
    shader_file: Option<String>,
}

impl View for ShaderBuilder {
    type V = Option<Seq<char>>;

    closed spec fn view(&self) -> Option<Seq<char>> {
        match self.shader_file {
            Some(f) => Some(f@),
            None => None,
        }
    }
}

impl ShaderBuilder {
    /// A builder for the shader whose source is the file `filename`.
    pub fn from_file(filename: String) -> (r: ShaderBuilder)
        ensures
            r@ == Some(filename@),
    {
        ShaderBuilder { shader_file: Some(filename) }
    }

    /// The file that holds the shader's source, if one was given.
    pub fn shader_file(&self) -> (r: Option<&String>)
        ensures
            self@ is None ==> r is None,
            self@ matches Some(f) ==> r matches Some(s) && s@ == f,
    {
        match &self.shader_file {
            Some(f) => Some(f),
            None => None,
        }
    }
}

} // verus!
