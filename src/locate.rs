use vstd::prelude::*;
use vstd::string::StringExecFns;

verus! {

/// The renderer to run and the font configuration directory it is given.
#[derive(Clone, Debug)]
pub struct Executable {
    pub binary: String,
    pub fontconfig: String,
}

/// Where a pre-provisioned layer puts the renderer.
pub open spec fn layer_binary() -> Seq<char> {
    "/opt/bin/wkhtmltopdf"@
}

/// The renderer's path relative to the task root of a bundled deployment.
pub open spec fn bundled_suffix() -> Seq<char> {
    "/bin/wkhtmltopdf"@
}

/// The choice of renderer: the layer's when it exists; else the bundled one
/// when the task root is known and the renderer exists under it; else the
/// system's.
pub open spec fn executable_choice(
    layer_exists: bool,
    task_root: Option<Seq<char>>,
    bundled_exists: bool,
) -> (Seq<char>, Seq<char>) {
    if layer_exists {
        (layer_binary(), "/opt/fonts"@)
    } else if task_root is Some && bundled_exists {
        (task_root->Some_0 + bundled_suffix(), task_root->Some_0 + "/fonts"@)
    } else {
        ("/usr/bin/wkhtmltopdf"@, "/usr/share/fonts"@)
    }
}

/// The path at which a layer provides the renderer.
pub fn layer_binary_path() -> (r: String)
    ensures
        r@ == layer_binary(),
{
    String::from_str("/opt/bin/wkhtmltopdf")
}

/// The path of the renderer bundled under a task root.
pub fn bundled_binary_path(task_root: &String) -> (r: String)
    ensures
        r@ == task_root@ + bundled_suffix(),
{
    task_root.clone().concat("/bin/wkhtmltopdf")
}

/// Picks the renderer and its fonts directory. `layer_exists` says whether
/// the layer's renderer exists, `task_root` is the task root if one is set,
/// and `bundled_exists` whether the renderer exists at the bundled path
/// under it.
pub fn select_executable(layer_exists: bool, task_root: &Option<String>, bundled_exists: bool) -> (r:
    Executable)
    ensures
        (r.binary@, r.fontconfig@) == executable_choice(
            layer_exists,
            match task_root {
                Some(t) => Some(t@),
                None => None,
            },
            bundled_exists,
        ),
{
    if layer_exists {
        Executable {
            binary: String::from_str("/opt/bin/wkhtmltopdf"),
            fontconfig: String::from_str("/opt/fonts"),
        }
    } else {
        match task_root {
            Some(root) if bundled_exists => Executable {
                binary: bundled_binary_path(root),
                fontconfig: root.clone().concat("/fonts"),
            },
            _ => Executable {
                binary: String::from_str("/usr/bin/wkhtmltopdf"),
                fontconfig: String::from_str("/usr/share/fonts"),
            },
        }
    }
}

} // verus!
