use vstd::prelude::*;

use crate::error::RenderError;

verus! {

/// Name of the extension that lets a debugger subscribe to driver diagnostics.
pub open spec fn debug_utils_name() -> Seq<char> {
    seq!['V', 'K', '_', 'E', 'X', 'T', '_', 'd', 'e', 'b', 'u', 'g', '_', 'u', 't', 'i', 'l', 's']
}

/// The API version every connection asks for: 1.3, packed as major << 22 | minor << 12.
pub const API_VERSION_1_3: u32 = 0x40_3000;

/// The connection to the graphics driver, root of the ownership tree.
#[derive(Debug)]
pub struct Instance {
    handle: u64,
    extension_names: Vec<String>,
}

/// The extensions a connection asks for: those the display requires, then the
/// debug extension.
pub fn with_debug_extension(required: Vec<String>) -> (r: Vec<String>)
    ensures
        r@.len() == required@.len() + 1,
        forall|i: int| 0 <= i < required@.len() ==> r@[i]@ == required@[i]@,
        r@[required@.len() as int]@ == debug_utils_name(),
{
    let mut names = required;
    let debug = String::from_str("VK_EXT_debug_utils");
    proof {
        reveal_strlit("VK_EXT_debug_utils");
        assert(debug@ =~= debug_utils_name());
    }
    names.push(debug);
    names
}

impl Instance {
    /// The connection the driver made with `names` enabled: its native handle, or the
    /// driver's error code, which fails with `InitializationError`.
    pub fn from_extensions(names: Vec<String>, connection: Result<u64, i32>) -> (r: Result<
        Instance,
        RenderError,
    >)
        ensures
            match connection {
                Ok(handle) => r matches Ok(i) && i.handle() == handle && i.extension_names()
                    == names@.map_values(|s: String| s@),
                Err(_) => r == Err::<Instance, RenderError>(RenderError::InitializationError),
            },
    {
        match connection {
            Ok(handle) => Ok(Instance { handle, extension_names: names }),
            Err(_) => Err(RenderError::InitializationError),
        }
    }

    /// A connection with only the debug extension enabled.
    pub fn new(connection: Result<u64, i32>) -> (r: Result<Instance, RenderError>)
        ensures
            match connection {
                Ok(handle) => r matches Ok(i) && i.handle() == handle && i.extension_names()
                    == seq![debug_utils_name()],
                Err(_) => r == Err::<Instance, RenderError>(RenderError::InitializationError),
            },
    {
        let names = with_debug_extension(Vec::new());
        let r = Instance::from_extensions(names, connection);
        proof {
            if r is Ok {
                assert(r->Ok_0.extension_names() =~= seq![debug_utils_name()]);
            }
        }
        r
    }

    /// A connection able to present to a display whose required extensions are given.
    pub fn from_display_handle(required: Vec<String>, connection: Result<u64, i32>) -> (r: Result<
        Instance,
        RenderError,
    >)
        ensures
            match connection {
                Ok(handle) => r matches Ok(i) && i.handle() == handle && i.extension_names()
                    == required@.map_values(|s: String| s@).push(debug_utils_name()),
                Err(_) => r == Err::<Instance, RenderError>(RenderError::InitializationError),
            },
    {
        let ghost req = required@;
        let names = with_debug_extension(required);
        let r = Instance::from_extensions(names, connection);
        proof {
            if r is Ok {
                assert(r->Ok_0.extension_names() =~= req.map_values(|s: String| s@).push(
                    debug_utils_name(),
                ));
            }
        }
        r
    }

    pub closed spec fn handle(&self) -> u64 {
        self.handle
    }

    pub closed spec fn extension_names(&self) -> Seq<Seq<char>> {
        self.extension_names@.map_values(|s: String| s@)
    }

    pub fn as_raw(&self) -> (r: u64)
        ensures
            r == self.handle(),
    {
        self.handle
    }

    pub fn enabled_extensions(&self) -> (r: &Vec<String>)
        ensures
            r@.map_values(|s: String| s@) == self.extension_names(),
    {
        &self.extension_names
    }
}

} // verus!
