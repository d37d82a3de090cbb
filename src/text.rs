use vstd::prelude::*;
use vstd::string::*;

verus! {

/// Compares two strings character by character.
pub fn same_text(a: &str, b: &str) -> (r: bool)
    ensures
        r == (a@ == b@),
{
    let n = a.unicode_len();
    if n != b.unicode_len() {
        return false;
    }
    let mut i: usize = 0;
    while i < n
        invariant
            n == a@.len(),
            n == b@.len(),
            i <= n,
            forall|j: int| 0 <= j < i ==> a@[j] == b@[j],
        decreases n - i,
    {
        if a.get_char(i) != b.get_char(i) {
            return false;
        }
        i = i + 1;
    }
    assert(a@ =~= b@);
    true
}

/// Origin of the shell's own pages: the dev server in development builds,
/// the bundled app protocol otherwise.
pub open spec fn frontend_base(dev: bool) -> Seq<char> {
    if dev {
        "http://localhost:1420"@
    } else {
        "tauri://localhost"@
    }
}

/// Path of the settings view inside the shell's own pages.
pub open spec fn settings_path() -> Seq<char> {
    "/?settings"@
}

/// Path of the landing view inside the shell's own pages.
pub open spec fn landing_path() -> Seq<char> {
    "/"@
}

/// Address of one of the shell's own pages.
pub fn frontend_url(dev: bool, path: &str) -> (r: String)
    ensures
        r@ == frontend_base(dev) + path@,
{
    let base = if dev {
        "http://localhost:1420"
    } else {
        "tauri://localhost"
    };
    String::from_str(base).concat(path)
}

/// Address of the settings view.
pub fn settings_url(dev: bool) -> (r: String)
    ensures
        r@ == frontend_base(dev) + settings_path(),
{
    frontend_url(dev, "/?settings")
}

/// Address of the landing view.
pub fn landing_url(dev: bool) -> (r: String)
    ensures
        r@ == frontend_base(dev) + landing_path(),
{
    frontend_url(dev, "/")
}

} // verus!
