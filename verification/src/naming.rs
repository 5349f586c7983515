//! Names for the files that hold content spilled to disk.

use vstd::prelude::*;
use vstd::string::*;

verus! {

/// Whether `c` is a hexadecimal digit in lower case.
pub open spec fn is_lower_hex(c: char) -> bool {
    ('0' <= c <= '9') || ('a' <= c <= 'f')
}

/// The shape of an identifier: 36 characters, hyphens at positions 8, 13,
/// 18 and 23, lower-case hexadecimal digits everywhere else.
pub open spec fn is_identifier(id: Seq<char>) -> bool {
    &&& id.len() == 36
    &&& forall|i: int|
        0 <= i < 36 ==> if i == 8 || i == 13 || i == 18 || i == 23 {
            #[trigger] id[i] == '-'
        } else {
            is_lower_hex(id[i])
        }
}

/// The extension of every file that the downloader writes.
pub open spec fn extension() -> Seq<char> {
    seq!['.', 'd', 'a', 't']
}

/// The shape of a file name: an identifier followed by the extension.
pub open spec fn is_file_name(name: Seq<char>) -> bool {
    &&& name.len() == 40
    &&& is_identifier(name.take(36))
    &&& name.skip(36) == extension()
}

/// The path of the file `name` directly under the directory `dir`.
pub open spec fn path_under(dir: Seq<char>, name: Seq<char>) -> Seq<char> {
    dir + seq!['/'] + name
}

/// Whether `path` names a file of the downloader directly under `dir`.
pub open spec fn is_destination(dir: Seq<char>, path: Seq<char>) -> bool {
    exists|name: Seq<char>| is_file_name(name) && path == #[trigger] path_under(dir, name)
}

/// A file name holds no path separator, so the file lies in the download
/// directory itself and in no directory below it.
pub proof fn lemma_file_name_is_flat(name: Seq<char>)
    requires
        is_file_name(name),
    ensures
        forall|i: int| 0 <= i < name.len() ==> #[trigger] name[i] != '/',
{
    assert forall|i: int| 0 <= i < name.len() implies #[trigger] name[i] != '/' by {
        if i < 36 {
            assert(name.take(36)[i] == name[i]);
        } else {
            assert(name.skip(36)[i - 36] == name[i]);
        }
    }
}

/// Calls `uuid::Uuid::new_v4` and writes the result with `to_string`: a
/// random version-4 UUID in its hyphenated lower-case form. The contract
/// states the form only, which is the same for every UUID; which one comes
/// back is left open, and so is that it differs from those before it. uuid
/// stops the program where the operating system gives it no random bytes.
#[verifier::external_body]
fn fresh_identifier() -> (id: String)
    ensures
        is_identifier(id@),
{
    uuid::Uuid::new_v4().to_string()
}

/// A new file name: a fresh identifier and the extension `.dat`.
pub fn unique_file_name() -> (name: String)
    ensures
        is_file_name(name@),
{
    let mut name = fresh_identifier();
    let ghost id = name@;
    name.append(".dat");
    proof {
        reveal_strlit(".dat");
        assert(".dat"@ =~= extension());
        assert(name@.take(36) =~= id);
        assert(name@.skip(36) =~= extension());
    }
    name
}

/// The path of `name` directly under `dir`.
pub fn destination_path(dir: &str, name: &str) -> (path: String)
    ensures
        path@ == path_under(dir@, name@),
{
    let mut path = String::from_str(dir);
    path.append("/");
    path.append(name);
    proof {
        reveal_strlit("/");
        assert("/"@ =~= seq!['/']);
    }
    path
}

/// One new destination under `dir` for each of the `count` items of a
/// batch.
pub fn batch_destinations(dir: &str, count: usize) -> (paths: Vec<String>)
    ensures
        paths@.len() == count,
        forall|i: int| 0 <= i < count ==> is_destination(dir@, #[trigger] paths@[i]@),
{
    let mut paths: Vec<String> = Vec::new();
    let mut made: usize = 0;
    while made < count
        invariant
            made <= count,
            paths@.len() == made,
            forall|i: int| 0 <= i < made ==> is_destination(dir@, #[trigger] paths@[i]@),
        decreases count - made,
    {
        let name = unique_file_name();
        let path = destination_path(dir, name.as_str());
        assert(path@ == path_under(dir@, name@));
        paths.push(path);
        made = made + 1;
    }
    paths
}

} // verus!
