//! Shader bookkeeping: the shader stage types, the driver ids of compiled
//! shaders and linked shader programs, and the handling of the driver's
//! NUL-terminated info logs.

use vstd::prelude::*;

verus! {

/// Enum storing the type of a shader stage.
#[derive(Clone, Copy, Debug, PartialEq, Eq, Structural)]
pub enum ShaderType {
    /// `Vertex` shaders alter the *position* of vertices.
    Vertex,

    /// `Fragment` shaders determine the *color of each pixel* on the
    /// screen.
    Fragment,
}

/// A wrapper around a compiled shader stage. It stores only the reference
/// id that the graphics driver handed out for the shader.
pub struct Shader {
    /// The driver's reference id for the shader.
    pub gl_id: u32,
}

/// A wrapper around a linked shader *program*. It stores only the
/// reference id that the graphics driver handed out for the program.
pub struct ShaderProgram {
    /// The driver's reference id for the shader program.
    pub gl_id: u32,
}

/// When compiling or linking a shader fails, the graphics driver fills a
/// fixed-size buffer with an error message that ends at the first NUL
/// byte. `info_log_message` extracts that message: the bytes before the
/// first NUL, or `None` for a malformed log that holds no NUL at all.
pub fn info_log_message(log: &[u8]) -> (r: Option<Vec<u8>>)
    ensures
        r is Some <==> log@.contains(0u8),
        r matches Some(msg) ==> ({
            &&& msg@.len() < log@.len()
            &&& msg@ == log@.take(msg@.len() as int)
            &&& forall|i: int| 0 <= i < msg@.len() ==> log@[i] != 0
            &&& log@[msg@.len() as int] == 0
        }),
{
    let n: usize = log.len();
    let mut i: usize = 0;
    while i < n
        invariant
            i <= n,
            n == log@.len(),
            forall|j: int| 0 <= j < i ==> log@[j] != 0,
        decreases n - i,
    {
        if log[i] == 0 {
            let mut msg: Vec<u8> = Vec::new();
            let mut j: usize = 0;
            while j < i
                invariant
                    j <= i,
                    i < n,
                    n == log@.len(),
                    msg@.len() == j,
                    forall|k: int| 0 <= k < j ==> msg@[k] == log@[k],
                decreases i - j,
            {
                msg.push(log[j]);
                j = j + 1;
            }
            proof {
                assert(log@.contains(0u8)) by {
                    assert(log@[i as int] == 0u8);
                }
                assert(msg@ =~= log@.take(msg@.len() as int));
            }
            return Some(msg);
        }
        i = i + 1;
    }
    None
}

} // verus!
