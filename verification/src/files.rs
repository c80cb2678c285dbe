//! Names of the application's files inside its configuration directory.
//! Locating that directory, and all reading and writing, is the caller's
//! business; these functions only form the paths.

use vstd::prelude::*;
use vstd::string::StrSliceExecFns;

verus! {

/// What lowercasing a string yields; the mapping is Unicode's and depends
/// on the characters alone.
pub uninterp spec fn lower_of(s: Seq<char>) -> Seq<char>;

/// Relies on `str::to_lowercase`: the result depends on the characters
/// alone, and an empty string stays empty.
#[verifier::external_body]
fn lowercase(s: &str) -> (r: String)
    ensures
        r@ == lower_of(s@),
        s@.len() == 0 ==> r@.len() == 0,
{
    s.to_lowercase()
}

/// Whether the needle occurs somewhere in the haystack.
pub open spec fn contains_seq(hay: Seq<char>, needle: Seq<char>) -> bool {
    exists|i: int|
        0 <= i && i + needle.len() <= hay.len() && (#[trigger] hay.subrange(i, i + needle.len()))
            == needle
}

/// Substring search by characters.
pub fn str_contains(hay: &str, needle: &str) -> (r: bool)
    ensures
        r == contains_seq(hay@, needle@),
{
    let hay_len = hay.unicode_len();
    let needle_len = needle.unicode_len();
    if needle_len > hay_len {
        proof {
            assert(!contains_seq(hay@, needle@)) by {
                if contains_seq(hay@, needle@) {
                    let i = choose|i: int|
                        0 <= i && i + needle@.len() <= hay@.len() && (#[trigger] hay@.subrange(
                            i,
                            i + needle@.len(),
                        )) == needle@;
                    assert(i >= 0 && i + needle@.len() <= hay@.len());
                }
            }
        }
        return false;
    }
    if needle_len == 0 {
        proof {
            assert(hay@.subrange(0, 0 + needle@.len() as int) =~= needle@);
        }
        return true;
    }
    let mut i: usize = 0;
    while i <= hay_len - needle_len
        invariant
            0 < needle_len <= hay_len,
            hay_len == hay@.len(),
            needle_len == needle@.len(),
            i <= hay_len - needle_len + 1,
            forall|ii: int|
                0 <= ii < i ==> (#[trigger] hay@.subrange(ii, ii + needle@.len())) != needle@,
        decreases hay_len - i,
    {
        let mut j: usize = 0;
        let mut matched = true;
        while j < needle_len && matched
            invariant
                needle_len <= hay_len,
                hay_len == hay@.len(),
                needle_len == needle@.len(),
                i + needle_len <= hay_len,
                j <= needle_len,
                matched ==> forall|jj: int|
                    0 <= jj < j ==> hay@[i + jj] == needle@[jj],
                !matched ==> hay@.subrange(i as int, i + needle@.len()) != needle@,
            decreases needle_len - j + (if matched { 1int } else { 0int }),
        {
            if hay.get_char(i + j) != needle.get_char(j) {
                proof {
                    assert(hay@.subrange(i as int, i + needle@.len())[j as int] == hay@[i + j]);
                }
                matched = false;
            } else {
                j += 1;
            }
        }
        if matched {
            proof {
                assert(j == needle_len);
                assert forall|k: int|
                    0 <= k < needle@.len() implies hay@.subrange(i as int, i + needle@.len())[k]
                    == needle@[k] by {
                    assert(hay@[i + k] == needle@[k]);
                }
                assert(hay@.subrange(i as int, i + needle@.len()) =~= needle@);
            }
            return true;
        }
        i += 1;
    }
    proof {
        assert(!contains_seq(hay@, needle@)) by {
            if contains_seq(hay@, needle@) {
                let w = choose|w: int|
                    0 <= w && w + needle@.len() <= hay@.len() && (#[trigger] hay@.subrange(
                        w,
                        w + needle@.len(),
                    )) == needle@;
                assert(w < i);
            }
        }
    }
    false
}

/// A directory entry a listing passes over: hidden files, and names that
/// belong to the system or the recycle bin in any letter case.
pub open spec fn is_skipped_name(name: Seq<char>) -> bool {
    ||| (name.len() > 0 && name[0] == '.')
    ||| contains_seq(lower_of(name), "system"@)
    ||| contains_seq(lower_of(name), "$recycle"@)
    ||| contains_seq(lower_of(name), "windows"@)
}

/// Decides `is_skipped_name` for a directory entry's name.
pub fn is_hidden_or_system_name(name: &str) -> (r: bool)
    ensures
        r == is_skipped_name(name@),
{
    if name.unicode_len() > 0 && name.get_char(0) == '.' {
        return true;
    }
    let lower = lowercase(name);
    str_contains(lower.as_str(), "system") || str_contains(lower.as_str(), "$recycle")
        || str_contains(lower.as_str(), "windows")
}

/// One entry of a directory listing handed to the caller.
pub struct FileEntry {
    pub name: String,
    pub path: String,
    pub is_directory: bool,
}

impl Clone for FileEntry {
    fn clone(&self) -> (r: Self)
        ensures
            r == *self,
    {
        FileEntry {
            name: self.name.clone(),
            path: self.path.clone(),
            is_directory: self.is_directory,
        }
    }
}

/// The configuration file's path under the given configuration directory.
pub fn get_config_json_path(config_dir: &str) -> (r: String)
    ensures
        r@ == config_dir@ + "/config.json"@,
{
    let mut p = config_dir.to_owned();
    p.append("/config.json");
    p
}

/// The legacy configuration file's path under the given configuration
/// directory.
pub fn get_config_yaml_path(config_dir: &str) -> (r: String)
    ensures
        r@ == config_dir@ + "/config.yaml"@,
{
    let mut p = config_dir.to_owned();
    p.append("/config.yaml");
    p
}

} // verus!
