// Profile persistence — where profiles live on disk, and name-conflict rules.
use crate::domain::profile::ClickProfile;
use crate::text::{lowercase, text_eq, to_lowercase};
use std::path::PathBuf;
use vstd::prelude::*;
use vstd::string::StringExecFns;

verus! {

/// Declares `std::path::PathBuf`, the directory and file paths of the store.
#[verifier::external_type_specification]
#[verifier::external_body]
pub struct ExPathBuf(PathBuf);

/// What `std::path::Path::join` returns for `base` and a relative file name.
pub uninterp spec fn joined_path(base: PathBuf, name: Seq<char>) -> PathBuf;

/// Calls `std::path::Path::join` with a file name; the result is named.
#[verifier::external_body]
fn join_path(base: &PathBuf, name: &str) -> (p: PathBuf)
    ensures
        p == joined_path(*base, name@),
{
    base.join(name)
}

/// File-per-profile TOML-based storage rooted at one directory.
pub struct ProfileStore {
    pub base_dir: PathBuf,
}

/// The file name under which the profile with id `id` is stored.
pub open spec fn profile_file_name(id: Seq<char>) -> Seq<char> {
    id + ".toml"@
}

/// Whether some listed profile other than the one with id `exclude_id` has
/// the same name as `name`, ignoring case.
pub open spec fn name_conflict(all: Seq<ClickProfile>, name: Seq<char>, exclude_id: Seq<char>) -> bool {
    exists|i: int|
        0 <= i < all.len() && #[trigger] all[i].id@ != exclude_id && lowercase(all[i].name@)
            == lowercase(name)
}

impl ProfileStore {
    /// Create a new store rooted at the given directory.
    pub fn new(base_dir: PathBuf) -> (s: Self)
        ensures
            s.base_dir == base_dir,
    {
        ProfileStore { base_dir }
    }

    /// Path to a profile file: `<base_dir>/<id>.toml`.
    pub fn profile_path(&self, id: &str) -> (p: PathBuf)
        ensures
            p == joined_path(self.base_dir, profile_file_name(id@)),
    {
        let mut name = String::from_str(id);
        name.append(".toml");
        join_path(&self.base_dir, name.as_str())
    }

    /// Path to the last-active marker file: `<base_dir>/_last_active.txt`.
    pub fn last_active_path(&self) -> (p: PathBuf)
        ensures
            p == joined_path(self.base_dir, "_last_active.txt"@),
    {
        join_path(&self.base_dir, "_last_active.txt")
    }

    /// Check, among the stored profiles `all`, whether a profile name already
    /// exists (case-insensitively), excluding the profile with id `exclude_id`.
    pub fn has_name_conflict(all: &[ClickProfile], name: &str, exclude_id: &str) -> (r: bool)
        ensures
            r == name_conflict(all@, name@, exclude_id@),
    {
        let lower = to_lowercase(name);
        let n = all.len();
        let mut lowered: Vec<String> = Vec::new();
        let mut i: usize = 0;
        while i < n
            invariant
                n == all@.len(),
                i <= n,
                lowered@.len() == i,
                forall|j: int| 0 <= j < i ==> #[trigger] lowered@[j]@ == lowercase(all@[j].name@),
            decreases n - i,
        {
            let other = to_lowercase(all[i].name.as_str());
            lowered.push(other);
            i = i + 1;
        }
        let r = Self::lowered_name_conflict(all, lowered.as_slice(), lower.as_str(), exclude_id);
        proof {
            if r {
                let j = choose|j: int|
                    0 <= j < all@.len() && #[trigger] all@[j].id@ != exclude_id@
                        && lowered@[j]@ == lower@;
                assert(all@[j].id@ != exclude_id@ && lowercase(all@[j].name@) == lowercase(name@));
            } else {
                assert forall|j: int|
                    0 <= j < all@.len() && #[trigger] all@[j].id@ != exclude_id@ implies lowercase(
                        all@[j].name@,
                    ) != lowercase(name@) by {
                    assert(lowered@[j]@ == lowercase(all@[j].name@));
                }
            }
        }
        r
    }

    /// Given the stored profiles `all` and their names already lower-cased
    /// (`lowered[i]` for `all[i]`), whether some profile other than the one
    /// with id `exclude_id` has the lower-cased name `lowered_name`.
    pub fn lowered_name_conflict(
        all: &[ClickProfile],
        lowered: &[String],
        lowered_name: &str,
        exclude_id: &str,
    ) -> (r: bool)
        requires
            lowered@.len() == all@.len(),
        ensures
            r == exists|i: int|
                0 <= i < all@.len() && #[trigger] all@[i].id@ != exclude_id@ && lowered@[i]@
                    == lowered_name@,
    {
        let n = all.len();
        let mut i: usize = 0;
        while i < n
            invariant
                n == all@.len(),
                lowered@.len() == n,
                i <= n,
                forall|j: int|
                    0 <= j < i ==> !(#[trigger] all@[j].id@ != exclude_id@ && lowered@[j]@
                        == lowered_name@),
            decreases n - i,
        {
            if !text_eq(&all[i].id, exclude_id) && text_eq(&lowered[i], lowered_name) {
                assert(all@[i as int].id@ != exclude_id@);
                return true;
            }
            i = i + 1;
        }
        false
    }

    /// The last-active profile id held by the marker file's `content`: the
    /// trimmed text, or none when nothing is left.
    pub fn last_active_from_content(content: &str) -> (r: Option<String>)
        ensures
            match r {
                Some(id) => id@ == crate::text::trim_spec(content@) && id@.len() > 0,
                None => crate::text::trim_spec(content@).len() == 0,
            },
    {
        let trimmed = crate::text::trim(content);
        if trimmed.as_str().is_empty() {
            None
        } else {
            Some(trimmed)
        }
    }
}

} // verus!
