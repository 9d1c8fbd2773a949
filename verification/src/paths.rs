//! Where the bundled resources lie, relative to the executable.
use vstd::prelude::*;

verus! {

/// The path that `std::path::PathBuf::pop` leaves of `path`: its parent, or
/// `path` itself when it has none.
pub uninterp spec fn path_pop_result(path: Seq<char>) -> Seq<char>;

/// The path that `std::path::PathBuf::push` makes of `path` extended with `tail`.
pub uninterp spec fn path_push_result(path: Seq<char>, tail: Seq<char>) -> Seq<char>;

/// Calls `std::path::PathBuf::pop` on `path`. Claimed: the result is
/// `path_pop_result` of the path, a function of the path alone. The path is
/// built from a `&str` and truncated at a component, so it stays valid UTF-8 and
/// the conversion back loses nothing.
#[verifier::external_body]
fn path_pop(path: &str) -> (r: String)
    ensures
        r@ == path_pop_result(path@),
{
    let mut buf = std::path::PathBuf::from(path);
    buf.pop();
    buf.to_string_lossy().into_owned()
}

/// Calls `std::path::PathBuf::push` on `path` with `tail`. Claimed: the result is
/// `path_push_result` of the two, a function of them alone; and, as the
/// documentation says, an absolute `tail` (on Unix, one that starts with `/`)
/// replaces the path. How a relative `tail` is joined is left unstated: the
/// documentation shows it by example only. Both are `&str`, so the joined path
/// is valid UTF-8 and the conversion back loses nothing.
#[verifier::external_body]
fn path_push(path: &str, tail: &str) -> (r: String)
    ensures
        r@ == path_push_result(path@, tail@),
        tail@.len() > 0 && tail@[0] == '/' ==> r@ == tail@,
{
    let mut buf = std::path::PathBuf::from(path);
    buf.push(tail);
    buf.to_string_lossy().into_owned()
}

/// The path of a resource: the executable's directory, then `../Resources/`,
/// then `sub_path`.
pub open spec fn resource_path_of(exe_path: Seq<char>, sub_path: Seq<char>) -> Seq<char> {
    path_push_result(path_push_result(path_pop_result(exe_path), "../Resources/"@), sub_path)
}

/// The path of the resource `sub_path` of the application whose executable is
/// at `exe_path`.
pub fn get_res_path(exe_path: &str, sub_path: &str) -> (r: String)
    ensures
        r@ == resource_path_of(exe_path@, sub_path@),
        r@ == path_push_result(
            path_push_result(path_pop_result(exe_path@), "../Resources/"@),
            sub_path@,
        ),
        sub_path@.len() > 0 && sub_path@[0] == '/' ==> r@ == sub_path@,
{
    let dir = path_pop(exe_path);
    let res = path_push(dir.as_str(), "../Resources/");
    path_push(res.as_str(), sub_path)
}

/// The path of the data file `sub_path`: the resource `data/` followed by it.
pub fn get_data_path(exe_path: &str, sub_path: &str) -> (r: String)
    ensures
        r@ == resource_path_of(exe_path@, "data/"@ + sub_path@),
        r@ == path_push_result(
            path_push_result(path_pop_result(exe_path@), "../Resources/"@),
            "data/"@ + sub_path@,
        ),
{
    let mut sub = "data/".to_owned();
    sub.append(sub_path);
    get_res_path(exe_path, sub.as_str())
}

/// A resource lies in `../Resources/` beside the running executable: its path
/// is made from the executable's own directory, so two executables in the same
/// directory find the same resources, and one that lies elsewhere finds its
/// resources from where it lies.
pub proof fn lemma_resources_beside_executable(exe_a: Seq<char>, exe_b: Seq<char>, sub_path: Seq<char>)
    ensures
        resource_path_of(exe_a, sub_path) == path_push_result(
            path_push_result(path_pop_result(exe_a), "../Resources/"@),
            sub_path,
        ),
        path_pop_result(exe_a) == path_pop_result(exe_b) ==> resource_path_of(exe_a, sub_path)
            == resource_path_of(exe_b, sub_path),
{
}

} // verus!
