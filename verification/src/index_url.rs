//! The address of the registry's index repository.
//!
//! An index address names a repository on GitHub:
//! an optional scheme (`https://` or `http://`), the host `github.com`, the
//! owner, the repository, an optional `.git` and an optional final `/`.

use vstd::prelude::*;
use vstd::string::StrSliceExecFns;
use crate::text::chars_of;
use crate::text::matches_at;

verus! {

/// An owner or a repository: at least one character, none of them a `/`.
pub open spec fn is_name(s: Seq<char>) -> bool {
    s.len() > 0 && !s.contains('/')
}

/// `url` without the scheme it starts with, if it starts with one.
pub open spec fn without_scheme(url: Seq<char>) -> Seq<char> {
    if "https://"@.is_prefix_of(url) {
        url.skip("https://"@.len() as int)
    } else if "http://"@.is_prefix_of(url) {
        url.skip("http://"@.len() as int)
    } else {
        url
    }
}

/// `s` without `suffix` at its end, once, if it ends with it.
pub open spec fn without_suffix(s: Seq<char>, suffix: Seq<char>) -> Seq<char> {
    if suffix.is_suffix_of(s) {
        s.take(s.len() - suffix.len())
    } else {
        s
    }
}

/// What is left of `url` once the scheme, one final `/` and then one final
/// `.git` are taken off, each where it is there.
pub open spec fn repository_path(url: Seq<char>) -> Seq<char> {
    without_suffix(without_suffix(without_scheme(url), "/"@), ".git"@)
}

/// The index of the first `/` in `s`, or the length of `s` if it holds none.
pub open spec fn first_slash(s: Seq<char>) -> int
    decreases s.len(),
{
    if s.len() == 0 || s[0] == '/' {
        0
    } else {
        1 + first_slash(s.drop_first())
    }
}

/// Splits `owner/repository` at its only `/`.
pub open spec fn split_names(names: Seq<char>) -> Option<(Seq<char>, Seq<char>)> {
    let at = first_slash(names);
    let owner = names.take(at);
    let repo = names.skip(at + 1);
    if at < names.len() && is_name(owner) && is_name(repo) {
        Some((owner, repo))
    } else {
        None
    }
}

/// The owner and the repository that an index address names, if it is one.
pub open spec fn spec_owner_repo(url: Seq<char>) -> Option<(Seq<char>, Seq<char>)> {
    let path = repository_path(url);
    if "github.com/"@.is_prefix_of(path) {
        split_names(path.skip("github.com/"@.len() as int))
    } else {
        None
    }
}

/// The characters of an optional pair of strings.
pub open spec fn owner_repo_view(parsed: Option<(String, String)>) -> Option<
    (Seq<char>, Seq<char>),
> {
    match parsed {
        Some((owner, repo)) => Some((owner@, repo@)),
        None => None,
    }
}

/// `first_slash` finds a `/`, and none stands before it.
pub proof fn lemma_first_slash(s: Seq<char>)
    ensures
        0 <= first_slash(s) <= s.len(),
        first_slash(s) < s.len() ==> s[first_slash(s)] == '/',
        forall|j: int| 0 <= j < first_slash(s) ==> s[j] != '/',
    decreases s.len(),
{
    if s.len() == 0 || s[0] == '/' {
    } else {
        let rest = s.drop_first();
        lemma_first_slash(rest);
        assert forall|j: int| 0 <= j < first_slash(s) implies s[j] != '/' by {
            if j > 0 {
                assert(s[j] == rest[j - 1]);
            }
        }
    }
}

/// An index at which a `/` stands, with none before it, is `first_slash`.
pub proof fn lemma_first_slash_is(s: Seq<char>, at: int)
    requires
        0 <= at <= s.len(),
        at < s.len() ==> s[at] == '/',
        forall|j: int| 0 <= j < at ==> s[j] != '/',
    ensures
        first_slash(s) == at,
{
    lemma_first_slash(s);
    let found = first_slash(s);
    if found < at {
        assert(s[found] == '/');
    } else if at < found {
        assert(s[at] == '/');
    }
}

/// The part of `chars` that is its repository path: where it starts and ends.
fn path_bounds(chars: &Vec<char>) -> (bounds: (usize, usize))
    ensures
        bounds.0 <= bounds.1 <= chars@.len(),
        repository_path(chars@) == chars@.subrange(bounds.0 as int, bounds.1 as int),
{
    let n: usize = chars.len();
    let https = chars_of("https://");
    let http = chars_of("http://");
    let slash = chars_of("/");
    let git = chars_of(".git");
    proof {
        reveal_strlit("https://");
        reveal_strlit("http://");
        reveal_strlit("/");
        reveal_strlit(".git");
    }
    let start: usize = if matches_at(chars, 0, &https) {
        8
    } else if matches_at(chars, 0, &http) {
        7
    } else {
        0
    };
    let ghost rest = chars@.skip(start as int);
    assert(without_scheme(chars@) == rest);
    let mid: usize = if n - start >= 1 && matches_at(chars, n - 1, &slash) {
        n - 1
    } else {
        n
    };
    let ghost trimmed = chars@.subrange(start as int, mid as int);
    assert(without_suffix(rest, "/"@) =~= trimmed) by {
        if n - start >= 1 {
            assert(rest.subrange(rest.len() - 1, rest.len() as int) =~= chars@.subrange(
                n - 1,
                n as int,
            ));
        }
    }
    let end: usize = if mid - start >= 4 && matches_at(chars, mid - 4, &git) {
        mid - 4
    } else {
        mid
    };
    assert(without_suffix(trimmed, ".git"@) =~= chars@.subrange(start as int, end as int)) by {
        if mid - start >= 4 {
            assert(trimmed.subrange(trimmed.len() - 4, trimmed.len() as int) =~= chars@.subrange(
                mid - 4,
                mid as int,
            ));
        }
    }
    (start, end)
}

/// The index of the first `/` of `chars` at or after `from` and before `end`,
/// or `end` if there is none.
fn find_slash(chars: &Vec<char>, from: usize, end: usize) -> (at: usize)
    requires
        from <= end <= chars@.len(),
    ensures
        from <= at <= end,
        at - from == first_slash(chars@.subrange(from as int, end as int)),
{
    let mut at: usize = from;
    while at < end && chars[at] != '/'
        invariant
            from <= at <= end <= chars@.len(),
            forall|j: int| from <= j < at ==> chars@[j] != '/',
        decreases end - at,
    {
        at = at + 1;
    }
    proof {
        lemma_first_slash_is(chars@.subrange(from as int, end as int), at - from);
    }
    at
}

/// Where the `/` between owner and repository stands in `chars[from..end]`,
/// if that range is an owner, a `/` and a repository.
fn find_names(chars: &Vec<char>, from: usize, end: usize) -> (at: Option<usize>)
    requires
        from <= end <= chars@.len(),
    ensures
        match at {
            Some(at) => from < at && at + 1 < end && split_names(
                chars@.subrange(from as int, end as int),
            ) == Some(
                (chars@.subrange(from as int, at as int), chars@.subrange(at + 1, end as int)),
            ),
            None => split_names(chars@.subrange(from as int, end as int)) is None,
        },
{
    let ghost names = chars@.subrange(from as int, end as int);
    let at = find_slash(chars, from, end);
    if at == end || at == from || at + 1 == end {
        return None;
    }
    let ghost owner = names.take(at - from);
    let ghost repo = names.skip(at - from + 1);
    assert(owner =~= chars@.subrange(from as int, at as int));
    assert(repo =~= chars@.subrange(at + 1, end as int));
    assert(is_name(owner)) by {
        lemma_first_slash(names);
    }
    let next = find_slash(chars, at + 1, end);
    proof {
        lemma_first_slash(repo);
    }
    if next < end {
        None
    } else {
        Some(at)
    }
}

/// Reads the owner and the repository out of the address of the index.
pub fn extract_github_owner_repo(url: &str) -> (parsed: Option<(String, String)>)
    ensures
        owner_repo_view(parsed) == spec_owner_repo(url@),
{
    let chars = chars_of(url);
    let host = chars_of("github.com/");
    proof {
        reveal_strlit("github.com/");
    }
    let (start, end) = path_bounds(&chars);
    let ghost path = repository_path(url@);
    if !(end - start >= 11 && matches_at(&chars, start, &host)) {
        assert(!"github.com/"@.is_prefix_of(path)) by {
            if end - start >= 11 {
                assert(path.subrange(0, 11) =~= url@.subrange(start as int, start + 11));
            }
        }
        return None;
    }
    assert("github.com/"@.is_prefix_of(path)) by {
        assert(path.subrange(0, 11) =~= url@.subrange(start as int, start + 11));
    }
    let first: usize = start + 11;
    assert(path.skip(11) =~= url@.subrange(first as int, end as int));
    match find_names(&chars, first, end) {
        None => None,
        Some(at) => {
            let owner = url.substring_char(first, at).to_owned();
            let repo = url.substring_char(at + 1, end).to_owned();
            Some((owner, repo))
        },
    }
}

/// An address that is understood is made of the host, an owner, a `/` and
/// a repository, once its scheme and its optional endings are taken off.
pub proof fn lemma_understood_address(url: Seq<char>)
    requires
        spec_owner_repo(url) is Some,
    ensures
        ({
            let (owner, repo) = spec_owner_repo(url)->0;
            &&& is_name(owner)
            &&& is_name(repo)
            &&& repository_path(url) == "github.com/"@ + owner + "/"@ + repo
        }),
{
    reveal_strlit("github.com/");
    reveal_strlit("/");
    let path = repository_path(url);
    let names = path.skip(11);
    let (owner, repo) = spec_owner_repo(url)->0;
    lemma_first_slash(names);
    assert(path =~= "github.com/"@ + owner + "/"@ + repo);
}

/// An owner, a `/` and a repository are split into that owner and that
/// repository.
pub proof fn lemma_split_names(owner: Seq<char>, repo: Seq<char>)
    requires
        is_name(owner),
        is_name(repo),
    ensures
        split_names(owner + "/"@ + repo) == Some((owner, repo)),
{
    reveal_strlit("/");
    let names = owner + "/"@ + repo;
    assert forall|j: int| 0 <= j < owner.len() implies names[j] != '/' by {
        assert(names[j] == owner[j]);
    }
    lemma_first_slash_is(names, owner.len() as int);
    assert(names.take(owner.len() as int) =~= owner);
    assert(names.skip(owner.len() as int + 1) =~= repo);
}

/// A scheme in front of the host is taken off, and nothing else is.
proof fn lemma_without_scheme(scheme: Seq<char>, rest: Seq<char>)
    requires
        scheme == Seq::<char>::empty() || scheme == "http://"@ || scheme == "https://"@,
        "github.com/"@.is_prefix_of(rest),
    ensures
        without_scheme(scheme + rest) == rest,
{
    reveal_strlit("https://");
    reveal_strlit("http://");
    reveal_strlit("github.com/");
    let url = scheme + rest;
    assert(rest[0] == 'g') by {
        assert(rest.subrange(0, 11)[0] == 'g');
    }
    if scheme.len() == 0 {
        assert(url =~= rest);
        assert(!"https://"@.is_prefix_of(url)) by {
            if "https://"@.is_prefix_of(url) {
                assert(url.subrange(0, 8)[0] == 'h');
            }
        }
        assert(!"http://"@.is_prefix_of(url)) by {
            if "http://"@.is_prefix_of(url) {
                assert(url.subrange(0, 7)[0] == 'h');
            }
        }
    } else if scheme == "http://"@ {
        assert(!"https://"@.is_prefix_of(url)) by {
            if "https://"@.is_prefix_of(url) {
                assert(url.subrange(0, 8)[4] == 's');
                assert(url[4] == scheme[4]);
            }
        }
        assert(url.subrange(0, 7) =~= scheme);
        assert(url.skip(7) =~= rest);
    } else {
        assert(url.subrange(0, 8) =~= scheme);
        assert(url.skip(8) =~= rest);
    }
}

/// The final `/` of an address is taken off, and nothing else is.
proof fn lemma_without_final_slash(body: Seq<char>, slash: Seq<char>)
    requires
        slash == Seq::<char>::empty() || slash == "/"@,
        body.len() > 0,
        body.last() != '/',
    ensures
        without_suffix(body + slash, "/"@) == body,
{
    reveal_strlit("/");
    let s = body + slash;
    if slash.len() == 0 {
        assert(s =~= body);
        assert(!"/"@.is_suffix_of(s)) by {
            if "/"@.is_suffix_of(s) {
                assert(s.subrange(s.len() - 1, s.len() as int)[0] == '/');
            }
        }
    } else {
        assert(s.subrange(s.len() - 1, s.len() as int) =~= "/"@);
        assert(s.take(s.len() - 1) =~= body);
    }
}

/// The `.git` at the end of an address is taken off, and nothing else is.
proof fn lemma_without_git(front: Seq<char>, repo: Seq<char>, git: Seq<char>)
    requires
        git == Seq::<char>::empty() || git == ".git"@,
        is_name(repo),
        front.len() > 0,
        front.last() == '/',
        git.len() == 0 ==> !".git"@.is_suffix_of(repo),
    ensures
        without_suffix(front + repo + git, ".git"@) == front + repo,
{
    reveal_strlit(".git");
    let kept = front + repo;
    let s = kept + git;
    if git.len() == 0 {
        assert(s =~= kept);
        if ".git"@.is_suffix_of(s) {
            let tail = s.subrange(s.len() - 4, s.len() as int);
            if repo.len() >= 4 {
                assert(repo.subrange(repo.len() - 4, repo.len() as int) =~= tail);
            } else {
                let at = 3 - repo.len();
                assert(tail[at] == s[front.len() - 1]);
                assert(tail[at] == '/');
            }
        }
    } else {
        assert(s.subrange(s.len() - 4, s.len() as int) =~= ".git"@);
        assert(s.take(s.len() - 4) =~= kept);
    }
}

/// Every way of writing the address of a repository is understood, and
/// names that repository: with `https://`, with `http://` or with no
/// scheme; with or without `.git`; with or without a final `/`. (A
/// repository whose own name ends in `.git` has to be written with the
/// `.git` ending spelled out after it.)
pub proof fn lemma_address_forms(
    scheme: Seq<char>,
    owner: Seq<char>,
    repo: Seq<char>,
    git: Seq<char>,
    slash: Seq<char>,
)
    requires
        scheme == Seq::<char>::empty() || scheme == "http://"@ || scheme == "https://"@,
        git == Seq::<char>::empty() || git == ".git"@,
        slash == Seq::<char>::empty() || slash == "/"@,
        is_name(owner),
        is_name(repo),
        git.len() == 0 ==> !".git"@.is_suffix_of(repo),
    ensures
        spec_owner_repo(scheme + "github.com/"@ + owner + "/"@ + repo + git + slash) == Some(
            (owner, repo),
        ),
{
    reveal_strlit("github.com/");
    reveal_strlit("/");
    reveal_strlit(".git");
    let front = "github.com/"@ + owner + "/"@;
    let path = front + repo;
    let body = path + git;
    let rest = body + slash;
    let url = scheme + "github.com/"@ + owner + "/"@ + repo + git + slash;
    assert(url =~= scheme + rest);
    assert("github.com/"@.is_prefix_of(rest)) by {
        assert(rest.subrange(0, 11) =~= "github.com/"@);
    }
    lemma_without_scheme(scheme, rest);
    assert(body.last() != '/') by {
        if git.len() == 0 {
            assert(body.last() == repo.last());
            assert(repo.contains(repo.last()));
        } else {
            assert(body.last() == git[3]);
        }
    }
    lemma_without_final_slash(body, slash);
    lemma_without_git(front, repo, git);
    assert(repository_path(url) == path);
    assert("github.com/"@.is_prefix_of(path)) by {
        assert(path.subrange(0, 11) =~= "github.com/"@);
    }
    assert(path.skip(11) =~= owner + "/"@ + repo);
    lemma_split_names(owner, repo);
}

/// An address on another host is not understood.
pub proof fn lemma_other_host_is_refused(url: Seq<char>)
    requires
        !"github.com/"@.is_prefix_of(without_scheme(url)),
    ensures
        spec_owner_repo(url) is None,
{
    let rest = without_scheme(url);
    let path = repository_path(url);
    if "github.com/"@.is_prefix_of(path) {
        let n = "github.com/"@.len() as int;
        assert(rest.subrange(0, n) =~= path.subrange(0, n));
    }
}

} // verus!
