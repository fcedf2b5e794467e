use vstd::prelude::*;

use crate::model::{PluginError, PluginResult};

verus! {

/// `base` joined with `rel` as a Unix path: an absolute `rel` replaces
/// `base`, and a separator goes between them unless `base` is empty or
/// already ends with one.
pub open spec fn joined(base: Seq<char>, rel: Seq<char>) -> Seq<char> {
    if rel.len() > 0 && rel[0] == '/' {
        rel
    } else if base.len() == 0 || base.last() == '/' {
        base + rel
    } else {
        base + seq!['/'] + rel
    }
}

/// The file name `name` has extension `ext`: it ends in a dot followed by
/// `ext`, `ext` holds no dot, and something other than the bare `..` precedes
/// that dot.
pub open spec fn has_extension(name: Seq<char>, ext: Seq<char>) -> bool {
    &&& forall|i: int| 0 <= i < ext.len() ==> ext[i] != '.'
    &&& name.len() >= ext.len() + 2
    &&& name[name.len() - ext.len() - 1] == '.'
    &&& name.subrange(name.len() - ext.len(), name.len() as int) == ext
    &&& name != seq!['.', '.']
}

/// The names of a directory listing, as character sequences.
pub open spec fn names_of(names: Seq<String>) -> Seq<Seq<char>> {
    names.map_values(|s: String| s@)
}

/// The names that carry extension `ext`, in listing order.
pub open spec fn names_with_extension(names: Seq<Seq<char>>, ext: Seq<char>) -> Seq<Seq<char>>
    decreases names.len(),
{
    if names.len() == 0 {
        seq![]
    } else {
        let rest = names_with_extension(names.drop_last(), ext);
        if has_extension(names.last(), ext) {
            rest.push(names.last())
        } else {
            rest
        }
    }
}

/// `dir` joined with each name in `names`.
pub open spec fn joined_all(dir: Seq<char>, names: Seq<Seq<char>>) -> Seq<Seq<char>> {
    names.map_values(|n: Seq<char>| joined(dir, n))
}

/// The listing holds the name `name`.
pub open spec fn listing_has(names: Seq<String>, name: Seq<char>) -> bool {
    exists|i: int| 0 <= i < names.len() && #[trigger] names[i]@ == name
}

/// Character-wise equality of two strings.
pub fn str_eq(a: &str, b: &str) -> (r: bool)
    ensures
        r == (a@ == b@),
{
    let n = a.unicode_len();
    if n != b.unicode_len() {
        return false;
    }
    let mut i: usize = 0;
    while i < n
        invariant
            n == a@.len(),
            n == b@.len(),
            i <= n,
            a@.subrange(0, i as int) == b@.subrange(0, i as int),
        decreases n - i,
    {
        if a.get_char(i) != b.get_char(i) {
            assert(a@[i as int] == a@.subrange(0, i + 1)[i as int]);
            return false;
        }
        assert(a@.subrange(0, i + 1) == a@.subrange(0, i as int).push(a@[i as int]));
        assert(b@.subrange(0, i + 1) == b@.subrange(0, i as int).push(b@[i as int]));
        i = i + 1;
    }
    assert(a@ == a@.subrange(0, n as int));
    assert(b@ == b@.subrange(0, n as int));
    true
}

/// Whether `name` carries the extension `ext`.
pub fn name_has_extension(name: &str, ext: &str) -> (r: bool)
    ensures
        r == has_extension(name@, ext@),
{
    let n = name.unicode_len();
    let e = ext.unicode_len();
    let mut k: usize = 0;
    while k < e
        invariant
            e == ext@.len(),
            k <= e,
            forall|i: int| 0 <= i < k ==> ext@[i] != '.',
        decreases e - k,
    {
        if ext.get_char(k) == '.' {
            return false;
        }
        k = k + 1;
    }
    if n < e || n - e < 2 {
        return false;
    }
    if name.get_char(n - e - 1) != '.' {
        return false;
    }
    let tail = name.substring_char(n - e, n);
    if !str_eq(tail, ext) {
        return false;
    }
    if n == 2 && name.get_char(0) == '.' {
        assert(name@ == seq!['.', '.']);
        return false;
    }
    proof {
        if name@ == seq!['.', '.'] {
            assert(name@[0] == '.');
        }
    }
    true
}

/// The names in a listing that carry extension `ext`, in listing order.
pub fn names_with_ext(names: &Vec<String>, ext: &str) -> (r: Vec<String>)
    ensures
        names_of(r@) == names_with_extension(names_of(names@), ext@),
{
    let mut r: Vec<String> = Vec::new();
    let mut i: usize = 0;
    while i < names.len()
        invariant
            i <= names@.len(),
            names_of(r@) == names_with_extension(names_of(names@).take(i as int), ext@),
        decreases names@.len() - i,
    {
        let ghost before = r@;
        let ghost prefix = names_of(names@).take(i + 1);
        assert(prefix.drop_last() == names_of(names@).take(i as int));
        assert(prefix.last() == names@[i as int]@);
        if name_has_extension(names[i].as_str(), ext) {
            r.push(names[i].clone());
            assert(names_of(r@) == names_of(before).push(names@[i as int]@));
        }
        i = i + 1;
    }
    assert(names_of(names@).take(names@.len() as int) == names_of(names@));
    r
}

/// The words joined with single spaces.
pub open spec fn spaced(words: Seq<Seq<char>>) -> Seq<char>
    decreases words.len(),
{
    if words.len() == 0 {
        seq![]
    } else if words.len() == 1 {
        words[0]
    } else {
        spaced(words.drop_last()) + seq![' '] + words.last()
    }
}

/// Runs external programs; the running itself is the host's.
pub struct CommandExecutor;

impl CommandExecutor {
    /// The line shown before a verbose run: `Executing: <cmd> <args>`.
    pub fn describe_command(cmd: &str, args: &Vec<String>) -> (r: String)
        ensures
            r@ == "Executing: "@ + cmd@ + seq![' '] + spaced(names_of(args@)),
    {
        let mut line = String::from_str("Executing: ");
        line.append(cmd);
        line.append(" ");
        let ghost head = line@;
        let mut i: usize = 0;
        while i < args.len()
            invariant
                i <= args@.len(),
                line@ == head + spaced(names_of(args@).take(i as int)),
            decreases args@.len() - i,
        {
            let ghost words = names_of(args@).take(i + 1);
            assert(words.drop_last() == names_of(args@).take(i as int));
            if i > 0 {
                line.append(" ");
            }
            line.append(args[i].as_str());
            proof {
                reveal_strlit(" ");
                if i == 0 {
                    assert(words.len() == 1);
                    assert(spaced(names_of(args@).take(i as int)) =~= Seq::<char>::empty());
                }
            }
            i = i + 1;
        }
        assert(names_of(args@).take(args@.len() as int) == names_of(args@));
        proof {
            reveal_strlit("Executing: ");
            reveal_strlit(" ");
        }
        line
    }
}

pub struct PathResolver;

impl PathResolver {
    /// `base` joined with `rel`.
    pub fn join_paths(base: &str, rel: &str) -> (r: String)
        ensures
            r@ == joined(base@, rel@),
    {
        if rel.unicode_len() > 0 && rel.get_char(0) == '/' {
            return String::from_str(rel);
        }
        let n = base.unicode_len();
        let mut r = String::from_str(base);
        if n > 0 && base.get_char(n - 1) != '/' {
            r.append("/");
        }
        r.append(rel);
        proof {
            reveal_strlit("/");
        }
        r
    }

    /// The paths of the entries of directory `dir`, listed as `names`, that
    /// carry extension `ext`, in listing order.
    pub fn find_files_with_extension(dir: &str, names: &Vec<String>, ext: &str) -> (r: Vec<
        String,
    >)
        ensures
            names_of(r@) == joined_all(dir@, names_with_extension(names_of(names@), ext@)),
    {
        let matching = names_with_ext(names, ext);
        let mut r: Vec<String> = Vec::new();
        let mut i: usize = 0;
        while i < matching.len()
            invariant
                i <= matching@.len(),
                names_of(r@) == joined_all(dir@, names_of(matching@).take(i as int)),
            decreases matching@.len() - i,
        {
            let ghost before = r@;
            let p = PathResolver::join_paths(dir, matching[i].as_str());
            r.push(p);
            assert(names_of(matching@).take(i + 1) == names_of(matching@).take(i as int).push(
                matching@[i as int]@,
            ));
            assert(names_of(r@) == names_of(before).push(p@));
            i = i + 1;
        }
        assert(names_of(matching@).take(matching@.len() as int) == names_of(matching@));
        r
    }

    /// Succeeds when `path` names a directory (`is_dir`, as the filesystem
    /// reported it), and otherwise reports the project structure as invalid.
    pub fn validate_directory_exists(path: &str, is_dir: bool) -> (r: PluginResult<()>)
        ensures
            is_dir ==> r is Ok,
            !is_dir ==> match r {
                Err(PluginError::InvalidProjectStructure { reason }) => reason@
                    == "Directory does not exist: "@ + path@,
                _ => false,
            },
    {
        if !is_dir {
            let mut reason = String::from_str("Directory does not exist: ");
            reason.append(path);
            return Err(PluginError::InvalidProjectStructure { reason });
        }
        Ok(())
    }
}

} // verus!
