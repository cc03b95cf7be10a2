use crate::text::chars_of;
use vstd::prelude::*;
use vstd::string::StrSliceExecFns;
use vstd::string::StringExecFns;

verus! {

/// The arguments of the installer.
#[derive(Debug)]
pub struct Args {
    /// The plugin's crate name. Must be relative to the working directory.
    pub package: String,
    /// The user's local host directory; a platform default when absent.
    pub bakkesmod: Option<String>,
    /// Build the release profile (debug by default).
    pub release: bool,
}

/// `s` with each hyphen turned into an underscore.
pub open spec fn underscored(s: Seq<char>) -> Seq<char> {
    s.map_values(|c: char| if c == '-' { '_' } else { c })
}

/// The name under which the host knows the plugin of crate `package`.
pub fn plugin_name(package: &str) -> (r: String)
    ensures
        r@ == underscored(package@),
{
    let cs = chars_of(package);
    let mut r = String::new();
    let mut i: usize = 0;
    while i < cs.len()
        invariant
            cs@ == package@,
            i <= cs.len(),
            r@ == underscored(package@).take(i as int),
        decreases cs.len() - i,
    {
        if cs[i] == '-' {
            r.append("_");
        } else {
            r.append(package.substring_char(i, i + 1));
        }
        proof {
            reveal_strlit("_");
            assert(r@ =~= underscored(package@).take(i + 1));
        }
        i = i + 1;
    }
    assert(r@ =~= underscored(package@));
    r
}

/// The directory under the build output that holds a profile's artifacts.
pub fn profile_dir(release: bool) -> (r: &'static str)
    ensures
        r@ == (if release {
            "release"@
        } else {
            "debug"@
        }),
{
    if release {
        "release"
    } else {
        "debug"
    }
}

/// The file name of the built plugin `plugin`.
pub fn artifact_file(plugin: &str) -> (r: String)
    ensures
        r@ == plugin@ + ".dll"@,
{
    let mut r = String::from_str(plugin);
    r.append(".dll");
    r
}

} // verus!
