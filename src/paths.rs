//! Locating the configuration document.
use vstd::prelude::*;

verus! {

/// The path with a leading `~` replaced by the home directory; `None` when
/// the path needs a home directory and none is known.
pub open spec fn expanded(path: Seq<char>, home: Option<Seq<char>>) -> Option<Seq<char>> {
    if path.len() > 0 && path[0] == '~' {
        match home {
            Some(h) => Some(h + path.drop_first()),
            None => None,
        }
    } else {
        Some(path)
    }
}

/// Replaces a leading `~` of `path` by `home`. Fails only where the path
/// starts with `~` and no home directory is known.
pub fn expand_home(path: &str, home: &Option<String>) -> (r: Option<String>)
    ensures
        r.deep_view() == expanded(path@, home.deep_view()),
{
    let n = path.unicode_len();
    if n > 0 && path.get_char(0) == '~' {
        match home {
            Some(h) => {
                let rest = path.substring_char(1, n);
                let joined = h.clone().concat(rest);
                assert(rest@ == path@.drop_first());
                Some(joined)
            },
            None => None,
        }
    } else {
        Some(path.to_owned())
    }
}

/// The search list used when neither an override nor an explicit path is
/// given, in the order in which it is tried.
pub open spec fn default_config_paths_spec() -> Seq<Seq<char>> {
    seq![
        "./discorder.yml"@,
        "./discorder.yaml"@,
        "~/.config/discorder/discorder.yml"@,
        "~/.config/discorder/discorder.yaml"@,
    ]
}

/// The default search list, as owned strings.
pub fn default_config_paths() -> (r: Vec<String>)
    ensures
        r.deep_view() == default_config_paths_spec(),
{
    let r = vec![
        String::from_str("./discorder.yml"),
        String::from_str("./discorder.yaml"),
        String::from_str("~/.config/discorder/discorder.yml"),
        String::from_str("~/.config/discorder/discorder.yaml"),
    ];
    assert(r.deep_view() =~= default_config_paths_spec());
    r
}

/// Each path of the search list with `~` expanded; `None` where expansion
/// fails. These are the paths whose existence is checked.
pub fn expand_candidates(paths: &Vec<String>, home: &Option<String>) -> (r: Vec<Option<String>>)
    ensures
        r.len() == paths.len(),
        forall|i: int|
            0 <= i < paths.len() ==> #[trigger] r@[i].deep_view() == expanded(
                paths@[i]@,
                home.deep_view(),
            ),
{
    let mut r: Vec<Option<String>> = Vec::new();
    let mut i: usize = 0;
    while i < paths.len()
        invariant
            i <= paths.len(),
            r.len() == i,
            forall|j: int|
                0 <= j < i ==> #[trigger] r@[j].deep_view() == expanded(
                    paths@[j]@,
                    home.deep_view(),
                ),
        decreases paths.len() - i,
    {
        let e = expand_home(paths[i].as_str(), home);
        r.push(e);
        i = i + 1;
    }
    r
}

/// Whether candidate `i` was found on disk.
pub open spec fn is_hit(cands: Seq<Option<Seq<char>>>, exists: Seq<bool>, i: int) -> bool {
    &&& 0 <= i < cands.len()
    &&& i < exists.len()
    &&& exists[i]
    &&& cands[i] is Some
}

/// The first candidate at index `i` or later that was found on disk.
pub open spec fn first_existing_from(
    cands: Seq<Option<Seq<char>>>,
    exists: Seq<bool>,
    i: int,
) -> Option<Seq<char>>
    decreases cands.len() - i,
{
    if i < 0 || i >= cands.len() {
        None
    } else if is_hit(cands, exists, i) {
        cands[i]
    } else {
        first_existing_from(cands, exists, i + 1)
    }
}

/// The first candidate that was found on disk.
pub open spec fn first_existing(cands: Seq<Option<Seq<char>>>, exists: Seq<bool>) -> Option<
    Seq<char>,
> {
    first_existing_from(cands, exists, 0)
}

/// A `~` path was chosen for the configuration document, but no home
/// directory is known.
#[derive(Debug, Clone, Copy, PartialEq, Eq, Structural)]
pub enum PathError {
    NoHomeDirectory,
}

/// The path of the configuration document: the override from the
/// environment if set, else the explicit path if given, else the first
/// candidate found. `None` inside when nothing was found; `None` outside when
/// the chosen path cannot be expanded.
pub open spec fn chosen_config_path(
    env_override: Option<Seq<char>>,
    explicit: Option<Seq<char>>,
    home: Option<Seq<char>>,
    found: Option<Seq<char>>,
) -> Option<Option<Seq<char>>> {
    match env_override {
        Some(e) => match expanded(e, home) {
            Some(p) => Some(Some(p)),
            None => None,
        },
        None => match explicit {
            Some(x) => match expanded(x, home) {
                Some(p) => Some(Some(p)),
                None => None,
            },
            None => Some(found),
        },
    }
}

/// The first of `candidates` that `exists` marks as found.
pub fn first_found(candidates: &Vec<Option<String>>, exists: &Vec<bool>) -> (r: Option<String>)
    ensures
        r.deep_view() == first_existing(candidates.deep_view(), exists@),
{
    let ghost cands = candidates.deep_view();
    let mut i: usize = 0;
    while i < candidates.len()
        invariant
            i <= candidates.len(),
            cands == candidates.deep_view(),
            first_existing(cands, exists@) == first_existing_from(cands, exists@, i as int),
        decreases candidates.len() - i,
    {
        if i < exists.len() && exists[i] {
            match &candidates[i] {
                Some(c) => {
                    assert(is_hit(cands, exists@, i as int));
                    return Some(c.clone());
                },
                None => {},
            }
        }
        i = i + 1;
    }
    None
}

/// Decides which file, if any, holds the configuration document.
/// `candidates` are the expanded search list and `exists` tells, at the same
/// index, which of them is on disk.
pub fn select_config_path(
    env_override: &Option<String>,
    explicit: &Option<String>,
    home: &Option<String>,
    candidates: &Vec<Option<String>>,
    exists: &Vec<bool>,
) -> (r: Result<Option<String>, PathError>)
    ensures
        match r {
            Ok(p) => chosen_config_path(
                env_override.deep_view(),
                explicit.deep_view(),
                home.deep_view(),
                first_existing(candidates.deep_view(), exists@),
            ) == Some(p.deep_view()),
            Err(_) => chosen_config_path(
                env_override.deep_view(),
                explicit.deep_view(),
                home.deep_view(),
                first_existing(candidates.deep_view(), exists@),
            ) is None,
        },
{
    let given = match env_override {
        Some(e) => Some(e),
        None => explicit.as_ref(),
    };
    match given {
        Some(g) => match expand_home(g.as_str(), home) {
            Some(p) => Ok(Some(p)),
            None => Err(PathError::NoHomeDirectory),
        },
        None => Ok(first_found(candidates, exists)),
    }
}

proof fn lemma_no_hit_from(cands: Seq<Option<Seq<char>>>, exists: Seq<bool>, i: int)
    requires
        0 <= i,
        forall|j: int| i <= j ==> !#[trigger] is_hit(cands, exists, j),
    ensures
        first_existing_from(cands, exists, i) is None,
    decreases cands.len() - i,
{
    if i < cands.len() {
        lemma_no_hit_from(cands, exists, i + 1);
    }
}

/// With no override, no explicit path and no candidate on disk, there is no
/// configuration document, and that is no error.
pub proof fn nothing_found_means_no_document(
    home: Option<Seq<char>>,
    cands: Seq<Option<Seq<char>>>,
    exists: Seq<bool>,
)
    requires
        forall|i: int| !#[trigger] is_hit(cands, exists, i),
    ensures
        chosen_config_path(None, None, home, first_existing(cands, exists)) == Some(
            None::<Seq<char>>,
        ),
{
    lemma_no_hit_from(cands, exists, 0);
}

/// The override from the environment is chosen over an explicit path and
/// over the search list; an explicit path is chosen over the search list.
pub proof fn override_then_explicit_then_search(
    env_override: Option<Seq<char>>,
    explicit: Option<Seq<char>>,
    home: Option<Seq<char>>,
    found: Option<Seq<char>>,
)
    ensures
        env_override matches Some(e) ==> chosen_config_path(env_override, explicit, home, found)
            == chosen_config_path(Some(e), None, home, None),
        env_override is None && explicit is Some ==> chosen_config_path(
            env_override,
            explicit,
            home,
            found,
        ) == chosen_config_path(None, explicit, home, None),
        env_override is None && explicit is None ==> chosen_config_path(
            env_override,
            explicit,
            home,
            found,
        ) == Some(found),
{
}

/// A chosen path that starts with `~` is the home directory followed by the
/// rest of the path; the search list is expanded the same way before its
/// entries are looked for on disk.
pub proof fn tilde_becomes_home(path: Seq<char>, home: Seq<char>, found: Option<Seq<char>>)
    requires
        path.len() > 0,
        path[0] == '~',
    ensures
        expanded(path, Some(home)) == Some(home + path.drop_first()),
        chosen_config_path(Some(path), None, Some(home), found) == Some(
            Some(home + path.drop_first()),
        ),
        chosen_config_path(None, Some(path), Some(home), found) == Some(
            Some(home + path.drop_first()),
        ),
{
}

} // verus!
