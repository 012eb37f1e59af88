//! Destination-path resolution: the file name a resource locator implies,
//! joined onto the target directory.

use vstd::prelude::*;
use vstd::string::StrSliceExecFns;
use vstd::string::StringExecFns;

verus! {

/// The characters after the last `/` of `s`, or `None` when `s` has no
/// `/` at all.
pub open spec fn tail_after_slash(s: Seq<char>) -> Option<Seq<char>>
    decreases s.len(),
{
    if s.len() == 0 {
        None
    } else if s.last() == '/' {
        Some(Seq::empty())
    } else {
        match tail_after_slash(s.drop_last()) {
            Some(t) => Some(t.push(s.last())),
            None => None,
        }
    }
}

/// The file name a locator implies: what follows its last `/`, or the
/// fallback name `download.bin` when it contains no `/`.
pub open spec fn spec_file_name(url: Seq<char>) -> Seq<char> {
    match tail_after_slash(url) {
        Some(t) => t,
        None => "download.bin"@,
    }
}

/// The resolved destination: inside a directory, the directory joined
/// with the implied file name; otherwise the path itself.
pub open spec fn spec_determine_file_path(
    path: Seq<char>,
    url: Seq<char>,
    path_is_dir: bool,
) -> Seq<char> {
    if path_is_dir {
        if path.len() > 0 && path.last() == '/' {
            path + spec_file_name(url)
        } else {
            path + seq!['/'] + spec_file_name(url)
        }
    } else {
        path
    }
}

/// With a `/` at position `k` and none after it, the tail after the last
/// slash is exactly the suffix that follows position `k`.
proof fn lemma_tail_after_slash_at(s: Seq<char>, k: int)
    requires
        0 <= k < s.len(),
        s[k] == '/',
        forall|j: int| k < j < s.len() ==> s[j] != '/',
    ensures
        tail_after_slash(s) == Some(s.subrange(k + 1, s.len() as int)),
    decreases s.len(),
{
    if k == s.len() - 1 {
        assert(s.subrange(k + 1, s.len() as int) =~= Seq::empty());
    } else {
        lemma_tail_after_slash_at(s.drop_last(), k);
        assert(s.drop_last().subrange(k + 1, s.drop_last().len() as int).push(s.last())
            =~= s.subrange(k + 1, s.len() as int));
    }
}

/// With no `/` anywhere, there is no tail after a slash.
proof fn lemma_tail_after_slash_none(s: Seq<char>)
    requires
        forall|j: int| 0 <= j < s.len() ==> s[j] != '/',
    ensures
        tail_after_slash(s) == None::<Seq<char>>,
    decreases s.len(),
{
    if s.len() > 0 {
        lemma_tail_after_slash_none(s.drop_last());
    }
}

/// The file name implied by `url`: everything after its last `/`, or
/// `download.bin` when it has none.
fn file_name_from_url(url: &str) -> (name: String)
    ensures
        name@ == spec_file_name(url@),
{
    let n: usize = url.unicode_len();
    let mut i: usize = n;
    while i > 0
        invariant
            i <= n,
            n == url@.len(),
            forall|j: int| i <= j < n ==> url@[j] != '/',
        decreases i,
    {
        if url.get_char(i - 1) == '/' {
            let tail = url.substring_char(i, n);
            proof {
                lemma_tail_after_slash_at(url@, i - 1);
            }
            return tail.to_owned();
        }
        i = i - 1;
    }
    proof {
        lemma_tail_after_slash_none(url@);
    }
    "download.bin".to_owned()
}

/// Resolves where the fetched resource is stored: a direct path is kept
/// as it is, and a directory is joined with the file name the locator
/// implies (falling back to `download.bin`).  Whether the path names a
/// directory is established by the caller.
pub fn determine_file_path(path: &str, url: &str, path_is_dir: bool) -> (p: String)
    ensures
        p@ == spec_determine_file_path(path@, url@, path_is_dir),
{
    if !path_is_dir {
        return path.to_owned();
    }
    let filename = file_name_from_url(url);
    let mut p = path.to_owned();
    let n: usize = path.unicode_len();
    let ends_slash = if n > 0 {
        path.get_char(n - 1) == '/'
    } else {
        false
    };
    if !ends_slash {
        p.append("/");
        proof {
            reveal_strlit("/");
            assert(p@ =~= path@ + seq!['/']);
        }
    }
    p.append(filename.as_str());
    proof {
        if ends_slash {
            assert(p@ =~= path@ + spec_file_name(url@));
        } else {
            assert(p@ =~= path@ + seq!['/'] + spec_file_name(url@));
        }
    }
    p
}

} // verus!
