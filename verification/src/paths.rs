use vstd::prelude::*;

verus! {

/// `project_dir` with every trailing `/` removed.
pub open spec fn trim_trailing_slashes(s: Seq<char>) -> Seq<char>
    decreases s.len(),
{
    if s.len() > 0 && s.last() == '/' {
        trim_trailing_slashes(s.drop_last())
    } else {
        s
    }
}

/// The suffix of `s` after its last `/` (all of `s` when it has none).
pub open spec fn last_path_component(s: Seq<char>) -> Seq<char>
    decreases s.len(),
{
    if s.len() == 0 || s.last() == '/' {
        Seq::empty()
    } else {
        last_path_component(s.drop_last()).push(s.last())
    }
}

/// The mount path derived from a project directory: `/workspace/<name>` where
/// `<name>` is the directory's last path component, or `/workspace` when the
/// path has no component (empty, or only slashes).
pub open spec fn spec_mount_path(project_dir: Seq<char>) -> Seq<char> {
    let trimmed = trim_trailing_slashes(project_dir);
    if trimmed.len() == 0 {
        "/workspace"@
    } else {
        "/workspace/"@ + last_path_component(trimmed)
    }
}

/// Derive the container mount path for a project directory.
pub fn derive_mount_path(project_dir: &str) -> (r: String)
    ensures
        r@ == spec_mount_path(project_dir@),
{
    let n = project_dir.unicode_len();
    let mut end: usize = n;
    proof {
        assert(project_dir@.subrange(0, n as int) =~= project_dir@);
    }
    while end > 0 && project_dir.get_char(end - 1) == '/'
        invariant
            end <= n,
            n == project_dir@.len(),
            trim_trailing_slashes(project_dir@) == trim_trailing_slashes(
                project_dir@.subrange(0, end as int),
            ),
        decreases end,
    {
        proof {
            assert(project_dir@.subrange(0, end as int).drop_last() =~= project_dir@.subrange(
                0,
                end as int - 1,
            ));
        }
        end = end - 1;
    }
    proof {
        // the remaining prefix ends in a character other than '/', so it is its own trim
        assert(trim_trailing_slashes(project_dir@.subrange(0, end as int)) == project_dir@.subrange(
            0,
            end as int,
        ));
    }
    if end == 0 {
        proof {
            assert(trim_trailing_slashes(project_dir@).len() == 0);
        }
        return String::from_str("/workspace");
    }
    let mut start: usize = end;
    while start > 0 && project_dir.get_char(start - 1) != '/'
        invariant
            start <= end <= n,
            n == project_dir@.len(),
            last_path_component(project_dir@.subrange(0, end as int)) =~= last_path_component(
                project_dir@.subrange(0, start as int),
            ) + project_dir@.subrange(start as int, end as int),
        decreases start,
    {
        proof {
            assert(project_dir@.subrange(0, start as int).drop_last() =~= project_dir@.subrange(
                0,
                start as int - 1,
            ));
            assert(seq![project_dir@[start as int - 1]] + project_dir@.subrange(
                start as int,
                end as int,
            ) =~= project_dir@.subrange(start as int - 1, end as int));
        }
        start = start - 1;
    }
    proof {
        if start > 0 {
            // the character before `start` is a '/', so nothing earlier contributes
            assert(last_path_component(project_dir@.subrange(0, start as int)) =~= Seq::empty());
        }
        assert(last_path_component(project_dir@.subrange(0, end as int)) =~= project_dir@.subrange(
            start as int,
            end as int,
        ));
    }
    let name = project_dir.substring_char(start, end);
    let mut r = String::from_str("/workspace/");
    r.append(name);
    r
}

} // verus!
