//! Where assets live on disk, and how a shader's source is assembled from the
//! shared shader libraries and the shader's own file.
use vstd::prelude::*;
use vstd::string::StringExecFns;

verus! {

/// Root of every asset folder.
pub const DEFAULT_PATH: &'static str = "./assets";

/// Folder of images, below the root.
pub const IMAGES: &'static str = "images";

/// Folder of Wavefront OBJ files, below the root.
pub const OBJECTS: &'static str = "obj";

/// Folder of shaders, below the root.
pub const SHADERS: &'static str = "shaders";

/// Folder of shader libraries, below the shader folder.
pub const SHADER_LIB: &'static str = "shader_lib";

/// Text that follows every shader library in an assembled shader.
pub const LIBRARY_SEPARATOR: &'static str = "\n// hi\n";

/// The kind of an asset, which decides the folder it is read from.
#[derive(Clone, Copy, Debug, PartialEq, Eq, Structural)]
pub enum FileType {
    Image,
    Obj,
    Shader,
    ShaderLib,
}

/// `path` followed by one more path segment.
pub open spec fn joined(path: Seq<char>, segment: Seq<char>) -> Seq<char> {
    path + "/"@ + segment
}

/// The folder that holds the assets of kind `filetype`.
pub open spec fn folder_of(filetype: FileType) -> Seq<char> {
    match filetype {
        FileType::Image => joined(DEFAULT_PATH@, IMAGES@),
        FileType::Obj => joined(DEFAULT_PATH@, OBJECTS@),
        FileType::Shader => joined(DEFAULT_PATH@, SHADERS@),
        FileType::ShaderLib => joined(joined(DEFAULT_PATH@, SHADERS@), SHADER_LIB@),
    }
}

/// The shader libraries, each followed by the separator, in order.
pub open spec fn library_prelude(libraries: Seq<Seq<char>>) -> Seq<char>
    decreases libraries.len(),
{
    if libraries.len() == 0 {
        Seq::empty()
    } else {
        library_prelude(libraries.drop_last()) + libraries.last() + LIBRARY_SEPARATOR@
    }
}

/// Appends one path segment to `path`.
pub fn add_directory(path: &mut String, concat: &str)
    ensures
        final(path)@ == joined(old(path)@, concat@),
{
    path.append("/");
    path.append(concat);
}

/// The folder that holds the assets of kind `filetype`.
pub fn get_path(filetype: FileType) -> (path: String)
    ensures
        path@ == folder_of(filetype),
{
    let mut path = String::new();
    path.append(DEFAULT_PATH);
    match filetype {
        FileType::Image => add_directory(&mut path, IMAGES),
        FileType::Obj => add_directory(&mut path, OBJECTS),
        FileType::Shader => add_directory(&mut path, SHADERS),
        FileType::ShaderLib => {
            add_directory(&mut path, SHADERS);
            add_directory(&mut path, SHADER_LIB);
        },
    }
    path
}

/// The path of the asset `filename` of kind `filetype`.
pub fn get_file_path(filetype: FileType, filename: &str) -> (path: String)
    ensures
        path@ == joined(folder_of(filetype), filename@),
{
    let mut path = get_path(filetype);
    add_directory(&mut path, filename);
    path
}

/// The views of a list of strings.
pub open spec fn texts(strings: Seq<String>) -> Seq<Seq<char>> {
    strings.map_values(|s: String| s@)
}

/// Concatenates the shader libraries, each followed by the separator, in the
/// order given.
pub fn format_shader_libraries(shader_libs: &Vec<String>) -> (formatted: String)
    ensures
        formatted@ == library_prelude(texts(shader_libs@)),
{
    let mut formatted = String::new();
    let mut i: usize = 0;
    while i < shader_libs.len()
        invariant
            i <= shader_libs@.len(),
            formatted@ == library_prelude(texts(shader_libs@.take(i as int))),
        decreases shader_libs@.len() - i,
    {
        proof {
            let next = texts(shader_libs@.take(i as int + 1));
            assert(next.drop_last() =~= texts(shader_libs@.take(i as int)));
            assert(next.last() == shader_libs@[i as int]@);
        }
        formatted.append(shader_libs[i].as_str());
        formatted.append(LIBRARY_SEPARATOR);
        i = i + 1;
    }
    assert(shader_libs@.take(i as int) =~= shader_libs@);
    formatted
}

/// The source handed to the shader compiler: every shader library, as
/// `format_shader_libraries` lays them out, then the shader's own text.
pub fn load_shader_str(shader_libs: &Vec<String>, shader_data: &str) -> (shader: String)
    ensures
        shader@ == library_prelude(texts(shader_libs@)) + shader_data@,
{
    let mut shader = format_shader_libraries(shader_libs);
    shader.append(shader_data);
    shader
}

} // verus!
