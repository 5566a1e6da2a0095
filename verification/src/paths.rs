//! On-disk layout. Every location is a pure function of the data root and
//! of the object's identity, so re-running a retrieval touches the same
//! paths. Paths are built with `/` separators, as the wire-compatible
//! layout prescribes.

use vstd::prelude::*;
use vstd::string::StrSliceExecFns;
use vstd::string::StringExecFns;

verus! {

/// The per-OS data root: the launcher directory under the platform's
/// conventional application-data (Windows) or home (macOS, others)
/// location. `data_dir` and `home_dir` are supplied by the caller.
pub fn get_minecraft_dir(os_name: &str, data_dir: &str, home_dir: &str) -> (r: String)
    ensures
        os_name@ == "windows"@ ==> r@ == data_dir@ + "/PaletheaLauncher"@,
        os_name@ == "osx"@ && os_name@ != "windows"@ ==> r@ == home_dir@
            + "/Library/Application Support/PaletheaLauncher"@,
        os_name@ != "windows"@ && os_name@ != "osx"@ ==> r@ == home_dir@
            + "/.palethealauncher"@,
{
    if str_eq(os_name, "windows") {
        data_dir.to_owned().concat("/PaletheaLauncher")
    } else if str_eq(os_name, "osx") {
        home_dir.to_owned().concat("/Library/Application Support/PaletheaLauncher")
    } else {
        home_dir.to_owned().concat("/.palethealauncher")
    }
}

/// The instances directory under the data root.
pub fn get_instances_dir(root: &str) -> (r: String)
    ensures
        r@ == root@ + "/instances"@,
{
    root.to_owned().concat("/instances")
}

/// The libraries directory under the data root.
pub fn get_libraries_dir(root: &str) -> (r: String)
    ensures
        r@ == root@ + "/libraries"@,
{
    root.to_owned().concat("/libraries")
}

/// The assets directory under the data root.
pub fn get_assets_dir(root: &str) -> (r: String)
    ensures
        r@ == root@ + "/assets"@,
{
    root.to_owned().concat("/assets")
}

/// The versions directory under the data root.
pub fn get_versions_dir(root: &str) -> (r: String)
    ensures
        r@ == root@ + "/versions"@,
{
    root.to_owned().concat("/versions")
}

/// The instance-logos directory under the data root.
pub fn get_instance_logos_dir(root: &str) -> (r: String)
    ensures
        r@ == root@ + "/instance_logos"@,
{
    root.to_owned().concat("/instance_logos")
}

/// The skin-collection directory under the data root.
pub fn get_skins_dir(root: &str) -> (r: String)
    ensures
        r@ == root@ + "/skin_collection"@,
{
    root.to_owned().concat("/skin_collection")
}

/// Where the client object of version `id` is stored:
/// `<root>/versions/<id>/<id>.jar`.
pub fn client_jar_path(root: &str, id: &str) -> (r: String)
    ensures
        r@ == root@ + "/versions/"@ + id@ + "/"@ + id@ + ".jar"@,
{
    root.to_owned().concat("/versions/").concat(id).concat("/").concat(id).concat(".jar")
}

/// Where the version description document of version `id` is persisted:
/// `<root>/versions/<id>/<id>.json`.
pub fn version_json_path(root: &str, id: &str) -> (r: String)
    ensures
        r@ == root@ + "/versions/"@ + id@ + "/"@ + id@ + ".json"@,
{
    root.to_owned().concat("/versions/").concat(id).concat("/").concat(id).concat(".json")
}

/// Where the asset index document `index_id` is stored:
/// `<root>/assets/indexes/<index_id>.json`.
pub fn asset_index_path(root: &str, index_id: &str) -> (r: String)
    ensures
        r@ == root@ + "/assets/indexes/"@ + index_id@ + ".json"@,
{
    root.to_owned().concat("/assets/indexes/").concat(index_id).concat(".json")
}

/// Compare two strings character by character.
pub fn str_eq(a: &str, b: &str) -> (r: bool)
    ensures
        r == (a@ == b@),
{
    let a_len = a.unicode_len();
    let b_len = b.unicode_len();
    if a_len != b_len {
        assert(a@ != b@) by {
            assert(a@.len() != b@.len());
        }
        return false;
    }
    let mut i: usize = 0;
    while i < a_len
        invariant
            i <= a_len,
            a_len == a@.len(),
            b_len == b@.len(),
            a_len == b_len,
            forall|j: int| 0 <= j < i ==> a@[j] == b@[j],
        decreases a_len - i,
    {
        if a.get_char(i) != b.get_char(i) {
            assert(a@ != b@);
            return false;
        }
        i += 1;
    }
    assert(a@ =~= b@);
    true
}

} // verus!
