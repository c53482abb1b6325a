use vstd::prelude::*;

verus! {

/// The directory `dir` with every trailing `/` removed.
pub open spec fn trim_trailing_slashes(dir: Seq<char>) -> Seq<char>
    decreases dir.len(),
{
    if dir.len() > 0 && dir.last() == '/' {
        trim_trailing_slashes(dir.drop_last())
    } else {
        dir
    }
}

/// `dir` and `name` joined by exactly one `/`, whatever number of `/` ends `dir`.
pub open spec fn join_path(dir: Seq<char>, name: Seq<char>) -> Seq<char> {
    trim_trailing_slashes(dir) + seq!['/'] + name
}

/// Length of `dir` once its trailing `/` are removed.
fn trimmed_len(dir: &str) -> (n: usize)
    ensures
        n <= dir@.len(),
        dir@.subrange(0, n as int) == trim_trailing_slashes(dir@),
{
    let mut n: usize = dir.unicode_len();
    proof {
        assert(dir@.subrange(0, n as int) =~= dir@);
    }
    while n > 0 && dir.get_char(n - 1) == '/'
        invariant
            n <= dir@.len(),
            trim_trailing_slashes(dir@.subrange(0, n as int)) == trim_trailing_slashes(dir@),
        decreases n,
    {
        proof {
            assert(dir@.subrange(0, n as int).drop_last() =~= dir@.subrange(0, n - 1));
        }
        n = n - 1;
    }
    n
}

/// Joins a directory and a file name with exactly one `/` between them.
///
/// Trailing `/` of `dir` collapse into the one separator: `"/etc/"` and
/// `"/etc"` give the same path. An empty `dir` gives `"/" + name`.
pub fn join_path_exec(dir: &str, name: &str) -> (r: String)
    ensures
        r@ == join_path(dir@, name@),
{
    let n = trimmed_len(dir);
    let head = dir.substring_char(0, n);
    let mut r = String::from_str(head);
    r.append("/");
    r.append(name);
    proof {
        reveal_strlit("/");
        assert(r@ =~= join_path(dir@, name@));
    }
    r
}

/// A directory that does not end in `/` is joined to a name by exactly one
/// added `/`.
pub proof fn lemma_join_path_plain(dir: Seq<char>, name: Seq<char>)
    requires
        dir.len() == 0 || dir.last() != '/',
    ensures
        join_path(dir, name) == dir + seq!['/'] + name,
{
}

/// A trailing `/` on the directory does not change the joined path.
pub proof fn lemma_join_path_trailing_slash(dir: Seq<char>, name: Seq<char>)
    ensures
        join_path(dir.push('/'), name) == join_path(dir, name),
{
    assert(dir.push('/').drop_last() =~= dir);
}

} // verus!
