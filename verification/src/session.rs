use vstd::prelude::*;
use crate::config::BoxConfig;
use crate::paths::{derive_mount_path, spec_mount_path};
use crate::text::str_eq;

verus! {

/// A session's stored description.
#[derive(Debug, Clone)]
pub struct Session {
    pub name: String,
    pub project_dir: String,
    pub image: String,
    pub mount_path: String,
    pub command: Vec<String>,
    pub env: Vec<String>,
    pub ssh: bool,
}

/// The spec-level image of a session built from a resolved configuration.
pub open spec fn session_of_config(cfg: BoxConfig) -> Session {
    Session {
        name: cfg.name,
        project_dir: cfg.project_dir,
        image: cfg.image,
        mount_path: cfg.mount_path,
        command: cfg.command,
        env: cfg.env,
        ssh: cfg.ssh,
    }
}

impl From<BoxConfig> for Session {
    fn from(cfg: BoxConfig) -> (r: Session) {
        Session {
            name: cfg.name,
            project_dir: cfg.project_dir,
            image: cfg.image,
            mount_path: cfg.mount_path,
            command: cfg.command,
            env: cfg.env,
            ssh: cfg.ssh,
        }
    }
}

impl vstd::std_specs::convert::FromSpecImpl<BoxConfig> for Session {
    open spec fn obeys_from_spec() -> bool {
        true
    }

    open spec fn from_spec(cfg: BoxConfig) -> Session {
        session_of_config(cfg)
    }
}

/// One row of the session list.
#[derive(Debug, Clone)]
pub struct SessionSummary {
    pub name: String,
    pub project_dir: String,
    pub image: String,
    pub created_at: String,
    pub running: bool,
}

/// The directory that session metadata lives under, for a given home
/// directory.
pub fn sessions_dir(home: &str) -> (r: String)
    ensures
        r@ == home@ + "/.realm/sessions"@,
{
    let mut r = home.to_owned();
    r.append("/.realm/sessions");
    r
}

/// True for the characters a session name may hold: ASCII letters, digits,
/// hyphens and underscores.
pub open spec fn is_name_char(c: char) -> bool {
    let u = c as u32;
    (48 <= u <= 57) || (97 <= u <= 122) || (65 <= u <= 90) || c == '-' || c == '_'
}

/// A valid session name: non-empty, not the reserved word `upgrade`, and
/// made only of letters, digits, hyphens and underscores.
pub open spec fn valid_session_name(s: Seq<char>) -> bool {
    &&& s.len() > 0
    &&& s != "upgrade"@
    &&& forall|i: int| 0 <= i < s.len() ==> is_name_char(#[trigger] s[i])
}

/// Why a session name was rejected.
#[derive(Debug, Clone)]
pub enum NameError {
    /// The name is empty.
    Empty,
    /// The name is a reserved word.
    Reserved(String),
    /// The name holds a character outside the allowed set.
    InvalidChars(String),
}

impl NameError {
    /// A human-readable description of the rejection.
    pub fn message(&self) -> (r: String)
        ensures
            self is Empty ==> r@ == "Session name is required."@,
            self matches NameError::Reserved(n) ==> r@ == "'"@ + n@
                + "' is a reserved name and cannot be used as a session name."@,
            self matches NameError::InvalidChars(n) ==> r@ == "Invalid session name '"@ + n@
                + "'. Use only letters, digits, hyphens, and underscores."@,
    {
        match self {
            NameError::Empty => String::from_str("Session name is required."),
            NameError::Reserved(n) => {
                let mut r = String::from_str("'");
                r.append(n.as_str());
                r.append("' is a reserved name and cannot be used as a session name.");
                r
            },
            NameError::InvalidChars(n) => {
                let mut r = String::from_str("Invalid session name '");
                r.append(n.as_str());
                r.append("'. Use only letters, digits, hyphens, and underscores.");
                r
            },
        }
    }
}

/// Check a session name: empty names, the reserved word, and names with
/// characters outside letters, digits, hyphens and underscores are rejected,
/// in that order of precedence.
pub fn validate_name(name: &str) -> (r: Result<(), NameError>)
    ensures
        (r is Ok) == valid_session_name(name@),
        name@.len() == 0 ==> (r matches Err(e) && e is Empty),
        name@.len() > 0 && name@ == "upgrade"@ ==> (r matches Err(e) && (
        e matches NameError::Reserved(n) && n@ == name@)),
        name@.len() > 0 && name@ != "upgrade"@ && !valid_session_name(name@) ==> (r matches Err(e)
            && (e matches NameError::InvalidChars(n) && n@ == name@)),
{
    let n = name.unicode_len();
    if n == 0 {
        return Err(NameError::Empty);
    }
    if str_eq(name, "upgrade") {
        return Err(NameError::Reserved(name.to_owned()));
    }
    let mut i: usize = 0;
    while i < n
        invariant
            n == name@.len(),
            n > 0,
            name@ != "upgrade"@,
            i <= n,
            forall|k: int| 0 <= k < i ==> is_name_char(#[trigger] name@[k]),
        decreases n - i,
    {
        let c = name.get_char(i);
        let u = c as u32;
        let ok = (u >= 48 && u <= 57) || (u >= 97 && u <= 122) || (u >= 65 && u <= 90) || c == '-'
            || c == '_';
        if !ok {
            return Err(NameError::InvalidChars(name.to_owned()));
        }
        i = i + 1;
    }
    Ok(())
}

/// True for the ASCII whitespace characters trimmed from stored metadata.
pub open spec fn is_ascii_space(c: char) -> bool {
    c == ' ' || c == '\t' || c == '\n' || c == '\r' || c == '\u{b}' || c == '\u{c}'
}

/// `s` without trailing ASCII whitespace.
pub open spec fn trim_back(s: Seq<char>) -> Seq<char>
    decreases s.len(),
{
    if s.len() > 0 && is_ascii_space(s.last()) {
        trim_back(s.drop_last())
    } else {
        s
    }
}

/// `s` without leading ASCII whitespace.
pub open spec fn trim_front(s: Seq<char>) -> Seq<char>
    decreases s.len(),
{
    if s.len() > 0 && is_ascii_space(s.first()) {
        trim_front(s.drop_first())
    } else {
        s
    }
}

/// `s` without leading or trailing ASCII whitespace.
pub open spec fn trim_spaces(s: Seq<char>) -> Seq<char> {
    trim_front(trim_back(s))
}

fn is_space_char(c: char) -> (r: bool)
    ensures
        r == is_ascii_space(c),
{
    c == ' ' || c == '\t' || c == '\n' || c == '\r' || c == '\u{b}' || c == '\u{c}'
}

/// `s` with leading and trailing ASCII whitespace removed.
pub fn trim_ascii(s: &str) -> (r: String)
    ensures
        r@ == trim_spaces(s@),
{
    let n = s.unicode_len();
    let mut end: usize = n;
    proof {
        assert(s@.subrange(0, n as int) =~= s@);
    }
    while end > 0 && is_space_char(s.get_char(end - 1))
        invariant
            end <= n,
            n == s@.len(),
            trim_back(s@) == trim_back(s@.subrange(0, end as int)),
        decreases end,
    {
        proof {
            assert(s@.subrange(0, end as int).drop_last() =~= s@.subrange(0, end as int - 1));
        }
        end = end - 1;
    }
    proof {
        assert(trim_back(s@.subrange(0, end as int)) == s@.subrange(0, end as int));
    }
    let mut start: usize = 0;
    while start < end && is_space_char(s.get_char(start))
        invariant
            start <= end <= n,
            n == s@.len(),
            trim_front(s@.subrange(0, end as int)) == trim_front(
                s@.subrange(start as int, end as int),
            ),
        decreases end - start,
    {
        proof {
            assert(s@.subrange(start as int, end as int).drop_first() =~= s@.subrange(
                start as int + 1,
                end as int,
            ));
        }
        start = start + 1;
    }
    proof {
        assert(trim_front(s@.subrange(start as int, end as int)) == s@.subrange(
            start as int,
            end as int,
        ));
    }
    let piece = s.substring_char(start, end);
    piece.to_owned()
}

/// The single string that stores a list of words: the words joined by NUL
/// bytes.
pub open spec fn nul_join(items: Seq<Seq<char>>) -> Seq<char>
    decreases items.len(),
{
    if items.len() == 0 {
        Seq::empty()
    } else if items.len() == 1 {
        items[0]
    } else {
        nul_join(items.drop_last()) + seq!['\0'] + items.last()
    }
}

/// Helper for [`nul_split`]: splits what is left of `s`, with the piece read
/// so far and the pieces already produced.
pub open spec fn nul_split_acc(s: Seq<char>, cur: Seq<char>, acc: Seq<Seq<char>>) -> Seq<
    Seq<char>,
>
    decreases s.len(),
{
    if s.len() == 0 {
        if cur.len() > 0 {
            acc.push(cur)
        } else {
            acc
        }
    } else if s.first() == '\0' {
        nul_split_acc(
            s.drop_first(),
            Seq::empty(),
            if cur.len() > 0 {
                acc.push(cur)
            } else {
                acc
            },
        )
    } else {
        nul_split_acc(s.drop_first(), cur.push(s.first()), acc)
    }
}

/// The words stored in a NUL-joined string: the NUL-separated pieces, with
/// empty pieces dropped.
pub open spec fn nul_split(s: Seq<char>) -> Seq<Seq<char>> {
    nul_split_acc(s, Seq::empty(), Seq::empty())
}

/// Join words with NUL bytes for storage.
pub fn join_nul(items: &Vec<String>) -> (r: String)
    ensures
        r@ == nul_join(items.deep_view()),
{
    let n = items.len();
    let mut r = String::new();
    let mut i: usize = 0;
    while i < n
        invariant
            n == items@.len(),
            i <= n,
            r@ == nul_join(items.deep_view().take(i as int)),
        decreases n - i,
    {
        if i > 0 {
            crate::text::push_char(&mut r, '\0');
        }
        r.append(items[i].as_str());
        proof {
            let dv = items.deep_view();
            assert(dv[i as int] == items@[i as int]@);
            assert(dv.take(i as int + 1).drop_last() =~= dv.take(i as int));
            assert(dv.take(i as int + 1).last() == dv[i as int]);
            if i == 0 {
                assert(r@ =~= nul_join(dv.take(1)));
            } else {
                assert(r@ =~= nul_join(dv.take(i as int)) + seq!['\0'] + dv[i as int]);
            }
        }
        i = i + 1;
    }
    proof {
        assert(items.deep_view().take(n as int) =~= items.deep_view());
    }
    r
}

/// Split a stored NUL-joined string back into words, dropping empty pieces.
pub fn split_nul(s: &str) -> (r: Vec<String>)
    ensures
        r.deep_view() == nul_split(s@),
{
    let n = s.unicode_len();
    let mut acc: Vec<String> = Vec::new();
    let mut cur = String::new();
    let mut i: usize = 0;
    proof {
        assert(s@.skip(0) =~= s@);
        assert(acc.deep_view() =~= Seq::<Seq<char>>::empty());
    }
    while i < n
        invariant
            n == s@.len(),
            i <= n,
            nul_split(s@) == nul_split_acc(s@.skip(i as int), cur@, acc.deep_view()),
        decreases n - i,
    {
        let c = s.get_char(i);
        proof {
            assert(s@.skip(i as int).first() == s@[i as int]);
            assert(s@.skip(i as int).drop_first() =~= s@.skip(i as int + 1));
        }
        let ghost pre_rest = s@.skip(i as int);
        let ghost pre_cur = cur@;
        let ghost pre_acc = acc.deep_view();
        if c == '\0' {
            if cur.as_str().unicode_len() > 0 {
                let ghost old_acc = acc.deep_view();
                let ghost old_cur = cur@;
                acc.push(cur);
                cur = String::new();
                proof {
                    assert(acc.deep_view() =~= old_acc.push(old_cur));
                    assert(nul_split_acc(pre_rest, pre_cur, pre_acc) == nul_split_acc(
                        s@.skip(i as int + 1),
                        cur@,
                        acc.deep_view(),
                    ));
                }
            } else {
                proof {
                    assert(cur@ =~= Seq::<char>::empty());
                    assert(nul_split_acc(pre_rest, pre_cur, pre_acc) == nul_split_acc(
                        s@.skip(i as int + 1),
                        cur@,
                        acc.deep_view(),
                    ));
                }
            }
        } else {
            crate::text::push_char(&mut cur, c);
            proof {
                assert(nul_split_acc(pre_rest, pre_cur, pre_acc) == nul_split_acc(
                    s@.skip(i as int + 1),
                    cur@,
                    acc.deep_view(),
                ));
            }
        }
        i = i + 1;
    }
    proof {
        assert(s@.skip(n as int) =~= Seq::<char>::empty());
    }
    if cur.as_str().unicode_len() > 0 {
        let ghost old_acc = acc.deep_view();
        let ghost old_cur = cur@;
        acc.push(cur);
        proof {
            assert(acc.deep_view() =~= old_acc.push(old_cur));
        }
    }
    acc
}

/// Assemble a session from its stored metadata files, applying the
/// documented defaults: the project directory and image are trimmed; a
/// missing image falls back to the default; a missing mount path is derived
/// from the project directory; command and environment are NUL-split with
/// empty entries dropped.
pub fn assemble_session(
    name: &str,
    project_dir_raw: &str,
    image_raw: Option<&str>,
    mount_raw: Option<&str>,
    command_raw: Option<&str>,
    env_raw: Option<&str>,
    ssh: bool,
) -> (r: Session)
    ensures
        r.name@ == name@,
        r.project_dir@ == trim_spaces(project_dir_raw@),
        r.image@ == (match image_raw {
            Some(s) => trim_spaces(s@),
            None => "alpine:latest"@,
        }),
        r.mount_path@ == (match mount_raw {
            Some(s) => trim_spaces(s@),
            None => spec_mount_path(trim_spaces(project_dir_raw@)),
        }),
        r.command.deep_view() == (match command_raw {
            Some(s) => nul_split(s@),
            None => Seq::<Seq<char>>::empty(),
        }),
        r.env.deep_view() == (match env_raw {
            Some(s) => nul_split(s@),
            None => Seq::<Seq<char>>::empty(),
        }),
        r.ssh == ssh,
{
    let project_dir = trim_ascii(project_dir_raw);
    let image = match image_raw {
        Some(s) => trim_ascii(s),
        None => String::from_str(crate::config::default_image()),
    };
    let mount_path = match mount_raw {
        Some(s) => trim_ascii(s),
        None => derive_mount_path(project_dir.as_str()),
    };
    let command = match command_raw {
        Some(s) => split_nul(s),
        None => Vec::new(),
    };
    let env = match env_raw {
        Some(s) => split_nul(s),
        None => Vec::new(),
    };
    proof {
        if command@.len() == 0 {
            assert(command.deep_view() =~= Seq::<Seq<char>>::empty());
        }
        if env@.len() == 0 {
            assert(env.deep_view() =~= Seq::<Seq<char>>::empty());
        }
    }
    Session { name: name.to_owned(), project_dir, image, mount_path, command, env, ssh }
}

proof fn lemma_split_acc_prefix(s: Seq<char>, cur: Seq<char>, acc: Seq<Seq<char>>)
    ensures
        nul_split_acc(s, cur, acc) == acc + nul_split_acc(s, cur, Seq::empty()),
    decreases s.len(),
{
    if s.len() == 0 {
        if cur.len() > 0 {
            assert(acc.push(cur) =~= acc + Seq::<Seq<char>>::empty().push(cur));
        } else {
            assert(acc =~= acc + Seq::<Seq<char>>::empty());
        }
    } else if s.first() == '\0' {
        if cur.len() > 0 {
            lemma_split_acc_prefix(s.drop_first(), Seq::empty(), acc.push(cur));
            lemma_split_acc_prefix(s.drop_first(), Seq::empty(), Seq::<Seq<char>>::empty().push(cur));
            assert(acc.push(cur) =~= acc + Seq::<Seq<char>>::empty().push(cur));
            assert((acc + Seq::<Seq<char>>::empty().push(cur)) + nul_split_acc(
                s.drop_first(),
                Seq::empty(),
                Seq::empty(),
            ) =~= acc + (Seq::<Seq<char>>::empty().push(cur) + nul_split_acc(
                s.drop_first(),
                Seq::empty(),
                Seq::empty(),
            )));
        } else {
            lemma_split_acc_prefix(s.drop_first(), Seq::empty(), acc);
        }
    } else {
        lemma_split_acc_prefix(s.drop_first(), cur.push(s.first()), acc);
    }
}

proof fn lemma_split_acc_no_nul(s: Seq<char>, cur: Seq<char>, acc: Seq<Seq<char>>)
    requires
        forall|i: int| 0 <= i < s.len() ==> #[trigger] s[i] != '\0',
    ensures
        nul_split_acc(s, cur, acc) == if cur.len() + s.len() > 0 {
            acc.push(cur + s)
        } else {
            acc
        },
    decreases s.len(),
{
    if s.len() == 0 {
        if cur.len() > 0 {
            assert(cur + s =~= cur);
        }
    } else {
        lemma_split_acc_no_nul(s.drop_first(), cur.push(s.first()), acc);
        assert(cur.push(s.first()) + s.drop_first() =~= cur + s);
    }
}

proof fn lemma_split_acc_seg(s1: Seq<char>, s2: Seq<char>, cur: Seq<char>, acc: Seq<Seq<char>>)
    requires
        forall|i: int| 0 <= i < s1.len() ==> #[trigger] s1[i] != '\0',
    ensures
        nul_split_acc(s1 + seq!['\0'] + s2, cur, acc) == nul_split_acc(
            s2,
            Seq::empty(),
            if (cur + s1).len() > 0 {
                acc.push(cur + s1)
            } else {
                acc
            },
        ),
    decreases s1.len(),
{
    let whole = s1 + seq!['\0'] + s2;
    if s1.len() == 0 {
        assert(whole.first() == '\0');
        assert(whole.drop_first() =~= s2);
        assert(cur + s1 =~= cur);
    } else {
        assert(whole.first() == s1[0]);
        assert(whole.drop_first() =~= s1.drop_first() + seq!['\0'] + s2);
        lemma_split_acc_seg(s1.drop_first(), s2, cur.push(s1[0]), acc);
        assert(cur.push(s1[0]) + s1.drop_first() =~= cur + s1);
    }
}

proof fn lemma_join_front(items: Seq<Seq<char>>)
    requires
        items.len() >= 2,
    ensures
        nul_join(items) == items.first() + seq!['\0'] + nul_join(items.drop_first()),
    decreases items.len(),
{
    if items.len() == 2 {
        assert(items.drop_last().len() == 1);
        assert(items.drop_last()[0] == items[0]);
        assert(items.drop_first().len() == 1);
        assert(items.drop_first()[0] == items[1]);
        assert(nul_join(items) == nul_join(items.drop_last()) + seq!['\0'] + items.last());
        assert(nul_join(items.drop_last()) == items.drop_last()[0]);
        assert(nul_join(items.drop_first()) == items.drop_first()[0]);
        assert(nul_join(items) =~= items.first() + seq!['\0'] + nul_join(items.drop_first()));
    } else {
        let dl = items.drop_last();
        let df = items.drop_first();
        lemma_join_front(dl);
        assert(dl.first() == items.first());
        assert(dl.drop_first() =~= df.drop_last());
        assert(df.last() == items.last());
        assert(df.len() >= 2);
        assert(nul_join(items) == nul_join(dl) + seq!['\0'] + items.last());
        assert(nul_join(dl) == dl.first() + seq!['\0'] + nul_join(dl.drop_first()));
        assert(nul_join(df) == nul_join(df.drop_last()) + seq!['\0'] + df.last());
        assert(nul_join(dl.drop_first()) == nul_join(df.drop_last()));
        assert((dl.first() + seq!['\0'] + nul_join(dl.drop_first())) + seq!['\0'] + items.last()
            =~= items.first() + seq!['\0'] + (nul_join(df.drop_last()) + seq!['\0'] + df.last()));
    }
}

/// Words joined for storage are recovered exactly by splitting: the NUL
/// codec loses nothing, for any list of non-empty words that hold no NUL
/// byte themselves.
pub proof fn lemma_nul_round_trip(items: Seq<Seq<char>>)
    requires
        forall|i: int| 0 <= i < items.len() ==> (#[trigger] items[i]).len() > 0,
        forall|i: int, j: int|
            0 <= i < items.len() && 0 <= j < items[i].len() ==> #[trigger] items[i][j] != '\0',
    ensures
        nul_split(nul_join(items)) == items,
    decreases items.len(),
{
    if items.len() == 0 {
        assert(nul_split(nul_join(items)) =~= items);
    } else if items.len() == 1 {
        assert(nul_join(items) == items[0]);
        assert(forall|j: int| 0 <= j < items[0].len() ==> #[trigger] items[0][j] != '\0');
        lemma_split_acc_no_nul(items[0], Seq::empty(), Seq::empty());
        assert(Seq::<char>::empty() + items[0] =~= items[0]);
        assert(Seq::<Seq<char>>::empty().push(items[0]) =~= items);
    } else {
        let rest = items.drop_first();
        lemma_join_front(items);
        lemma_split_acc_seg(items[0], nul_join(rest), Seq::empty(), Seq::empty());
        assert(Seq::<char>::empty() + items[0] =~= items[0]);
        lemma_split_acc_prefix(
            nul_join(rest),
            Seq::empty(),
            Seq::<Seq<char>>::empty().push(items[0]),
        );
        assert(forall|i: int| 0 <= i < rest.len() ==> (#[trigger] rest[i]).len() > 0) by {
            assert(forall|i: int| 0 <= i < rest.len() ==> rest[i] == items[i + 1]);
        }
        assert(forall|i: int, j: int|
            0 <= i < rest.len() && 0 <= j < rest[i].len() ==> #[trigger] rest[i][j] != '\0') by {
            assert(forall|i: int| 0 <= i < rest.len() ==> rest[i] == items[i + 1]);
        }
        lemma_nul_round_trip(rest);
        assert(Seq::<Seq<char>>::empty().push(items[0]) + rest =~= items);
    }
}

} // verus!
