//! The shader files to compile, taken from the command line.
use vstd::prelude::*;

verus! {

/// Vertex shader used when the command line names none.
pub const DEFAULT_VERTEX_SHADER: &'static str = "src/shaders/hello-gl.vertex.glsl";

/// Fragment shader used when the command line names none.
pub const DEFAULT_FRAGMENT_SHADER: &'static str = "src/shaders/hello-gl.fragment.glsl";

/// The path at position `i` of the arguments, or `default` when there are
/// not that many.
pub open spec fn arg_or(args: Seq<String>, i: int, default: Seq<char>) -> Seq<char> {
    if i < args.len() {
        args[i]@
    } else {
        default
    }
}

/// Vertex and fragment shader paths from the program's arguments (the
/// program's own name first): the first two positional arguments, each
/// replaced by its default when it is absent.
pub fn shader_paths(args: &Vec<String>) -> (r: (String, String))
    ensures
        r.0@ == arg_or(args@, 1, DEFAULT_VERTEX_SHADER@),
        r.1@ == arg_or(args@, 2, DEFAULT_FRAGMENT_SHADER@),
{
    let vertex = if args.len() > 1 {
        args[1].clone()
    } else {
        DEFAULT_VERTEX_SHADER.to_string()
    };
    let fragment = if args.len() > 2 {
        args[2].clone()
    } else {
        DEFAULT_FRAGMENT_SHADER.to_string()
    };
    (vertex, fragment)
}

} // verus!
