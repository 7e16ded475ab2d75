use vstd::prelude::*;

verus! {

/// The fixed vertex shader paired with every fragment shader: it places the
/// quad's corners and hands their texture coordinates on unchanged.
pub const VERTEX_SHADER: &'static str = "#version 140

in vec2 position;
in vec2 tex_coords;
out vec2 v_tex_coords;

void main() {
    v_tex_coords = tex_coords;
    gl_Position = vec4(position, 0.0, 1.0);
}
";

/// The name of the one uniform a fragment shader receives: the image's texture.
pub const TEXTURE_UNIFORM: &'static str = "tex";

/// A complete set of GPU resources for one session: every part is present.
pub struct ResourceSet<T, P, G> {
    pub texture: T,
    pub program: P,
    pub geometry: G,
}

/// The parts of a resource set gathered so far during a build.
pub struct PartialResources<T, P, G> {
    pub texture: Option<T>,
    pub program: Option<P>,
    pub geometry: Option<G>,
}

impl<T, P, G> PartialResources<T, P, G> {
    /// A build that has produced nothing yet.
    pub fn new() -> (r: Self)
        ensures
            r.texture is None,
            r.program is None,
            r.geometry is None,
    {
        PartialResources { texture: None, program: None, geometry: None }
    }

    /// The complete set, where every part was built; nothing otherwise, and
    /// the parts that were built are dropped.
    pub fn finish(self) -> (r: Option<ResourceSet<T, P, G>>)
        ensures
            r is Some <==> (self.texture is Some && self.program is Some && self.geometry is Some),
            r matches Some(s) ==> (Some(s.texture) == self.texture && Some(s.program)
                == self.program && Some(s.geometry) == self.geometry),
    {
        match (self.texture, self.program, self.geometry) {
            (Some(texture), Some(program), Some(geometry)) => Some(
                ResourceSet { texture, program, geometry },
            ),
            _ => None,
        }
    }
}

} // verus!
