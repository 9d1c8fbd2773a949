//! The audio schemes by name: looking one up, validating the stored
//! preference, and the entry the settings menu selects.
use vstd::prelude::*;

verus! {

/// Whether some scheme has the name `name`.
pub open spec fn has_name(names: Seq<String>, name: Seq<char>) -> bool {
    exists|i: int| 0 <= i < names.len() && #[trigger] names[i]@ == name
}

/// The scheme name the preferences hold after loading: the stored one when a
/// scheme has it, else the first scheme's. With nothing stored (the first run)
/// it is the first scheme's too.
pub open spec fn loaded_scheme_name(stored: Option<Seq<char>>, names: Seq<String>) -> Seq<char> {
    match stored {
        Some(s) => if has_name(names, s) {
            s
        } else {
            names[0]@
        },
        None => names[0]@,
    }
}

/// Whether `a` and `b` hold the same characters.
fn same_name(a: &String, b: &String) -> (r: bool)
    ensures
        r == (a@ == b@),
{
    *a == *b
}

/// The position of the first scheme named `name`; some scheme must have it.
pub fn find_scheme(name: &str, from: &Vec<String>) -> (i: usize)
    requires
        has_name(from@, name@),
    ensures
        i < from@.len(),
        from@[i as int]@ == name@,
        forall|j: int| 0 <= j < i ==> #[trigger] from@[j]@ != name@,
{
    let wanted = name.to_owned();
    let mut i: usize = 0;
    while i < from.len()
        invariant
            i <= from@.len(),
            wanted@ == name@,
            has_name(from@, name@),
            forall|j: int| 0 <= j < i ==> #[trigger] from@[j]@ != name@,
        decreases from@.len() - i,
    {
        if same_name(&from[i], &wanted) {
            return i;
        }
        i = i + 1;
    }
    proof {
        let k = choose|k: int| 0 <= k < from@.len() && #[trigger] from@[k]@ == name@;
        assert(from@[k]@ != name@);
    }
    0
}

/// Whether some scheme is named `name`.
pub fn contains_scheme(name: &str, from: &Vec<String>) -> (r: bool)
    ensures
        r == has_name(from@, name@),
{
    let wanted = name.to_owned();
    let mut i: usize = 0;
    while i < from.len()
        invariant
            i <= from@.len(),
            wanted@ == name@,
            forall|j: int| 0 <= j < i ==> #[trigger] from@[j]@ != name@,
        decreases from@.len() - i,
    {
        if same_name(&from[i], &wanted) {
            return true;
        }
        i = i + 1;
    }
    false
}

/// The audio scheme of the preferences, from the stored name (`None` on the
/// first run) and the schemes there are. Returns the name and whether the
/// preferences are to be saved, which is on the first run only.
pub fn load_scheme_name(stored: Option<&str>, names: &Vec<String>) -> (r: (String, bool))
    requires
        names@.len() > 0,
    ensures
        r.0@ == loaded_scheme_name(
            match stored {
                Some(s) => Some(s@),
                None => None,
            },
            names@,
        ),
        r.1 == (stored is None),
        has_name(names@, r.0@),
        match stored {
            Some(s) => (exists|i: int| 0 <= i < names@.len() && #[trigger] names@[i]@ == s@) ==> r.0@
                == s@,
            None => r.0@ == names@[0]@,
        },
        match stored {
            Some(s) => !(exists|i: int| 0 <= i < names@.len() && #[trigger] names@[i]@ == s@) ==> r.0@
                == names@[0]@,
            None => true,
        },
{
    let default = names[0].clone();
    assert(names@[0]@ == default@);
    match stored {
        None => (default, true),
        Some(s) => {
            if contains_scheme(s, names) {
                (s.to_owned(), false)
            } else {
                (default, false)
            }
        },
    }
}

/// The entry the settings menu ends up selecting for the scheme named
/// `current`: every entry with that name is selected in turn, so the last
/// one stays selected. `None` when no scheme has the name.
pub fn selected_scheme_index(names: &Vec<String>, current: &str) -> (r: Option<usize>)
    ensures
        match r {
            Some(i) => {
                &&& i < names@.len()
                &&& names@[i as int]@ == current@
                &&& forall|j: int| i < j < names@.len() ==> #[trigger] names@[j]@ != current@
            },
            None => !has_name(names@, current@),
        },
{
    let wanted = current.to_owned();
    let mut selected: Option<usize> = None;
    let mut i: usize = 0;
    while i < names.len()
        invariant
            i <= names@.len(),
            wanted@ == current@,
            match selected {
                Some(k) => {
                    &&& k < i
                    &&& names@[k as int]@ == current@
                    &&& forall|j: int| k < j < i ==> #[trigger] names@[j]@ != current@
                },
                None => forall|j: int| 0 <= j < i ==> #[trigger] names@[j]@ != current@,
            },
        decreases names@.len() - i,
    {
        if same_name(&names[i], &wanted) {
            selected = Some(i);
        }
        i = i + 1;
    }
    selected
}

/// The preference that loading yields always names one of the schemes, so the
/// lookup of its scheme succeeds and the settings menu has an entry selected.
pub proof fn lemma_loaded_scheme_is_available(stored: Option<Seq<char>>, names: Seq<String>)
    requires
        names.len() > 0,
    ensures
        has_name(names, loaded_scheme_name(stored, names)),
{
    assert(names[0]@ == names[0]@);
}

/// A stored scheme name that some scheme has is kept, wherever that scheme
/// stands in the list; a stored name that no scheme has, or none at all, gives
/// the first scheme.
pub proof fn lemma_stored_scheme_kept_when_available(stored: Option<Seq<char>>, names: Seq<String>, i: int)
    requires
        0 <= i < names.len(),
    ensures
        match stored {
            Some(s) => {
                &&& names[i]@ == s ==> loaded_scheme_name(stored, names) == s
                &&& (forall|j: int| 0 <= j < names.len() ==> #[trigger] names[j]@ != s)
                    ==> loaded_scheme_name(stored, names) == names[0]@
            },
            None => loaded_scheme_name(stored, names) == names[0]@,
        },
{
}

} // verus!
