use vstd::prelude::*;
use std::path::PathBuf;

verus! {

/// Trusted: `Path::exists` (std) on the path. Nothing is claimed: the
/// answer depends on what is on disk at the time of the call.
#[verifier::external_body]
pub(crate) fn path_exists(path: &PathBuf) -> (res: bool)
{
    path.exists()
}

/// Trusted: `Path::is_file` (std) on the path. Nothing is claimed: the
/// answer depends on what is on disk at the time of the call.
#[verifier::external_body]
pub(crate) fn path_is_file(path: &PathBuf) -> (res: bool)
{
    path.is_file()
}

/// Whether a path names a regular file, given whether something exists
/// under it and whether that is a regular file.
pub fn is_existing_file(exists: bool, is_file: bool) -> (res: bool)
    ensures
        res == (exists && is_file),
{
    exists && is_file
}

/// Whether `path` names an existing regular file. The disk is asked first
/// whether the path exists, and only then whether it is a regular file.
pub fn file_exists(path: &PathBuf) -> (res: bool) {
    let exists = path_exists(path);
    if !exists {
        return is_existing_file(false, false);
    }
    is_existing_file(true, path_is_file(path))
}

/// The path that joining `relative_path` to `root` gives, as `Path::join`
/// (std) does it on Unix: an absolute `relative_path` (one that starts with
/// `/`) replaces `root`; otherwise it is appended to `root`, with a `/`
/// between the two unless `root` is empty or already ends with one.
pub open spec fn joined_path(root: Seq<char>, relative_path: Seq<char>) -> Seq<char> {
    if relative_path.len() > 0 && relative_path[0] == '/' {
        relative_path
    } else if root.len() == 0 || root.last() == '/' {
        root + relative_path
    } else {
        root + "/"@ + relative_path
    }
}

/// The absolute path of `relative_path` in the project whose root directory
/// is `root`.
pub fn absolute_path(root: &str, relative_path: &str) -> (res: String)
    ensures
        res@ == joined_path(root@, relative_path@),
{
    let relative_len = relative_path.unicode_len();
    if relative_len > 0 && relative_path.get_char(0) == '/' {
        return String::from_str(relative_path);
    }
    let root_len = root.unicode_len();
    let mut path = String::from_str(root);
    if root_len > 0 && root.get_char(root_len - 1) != '/' {
        path.append("/");
    }
    path.append(relative_path);
    proof {
        reveal_strlit("/");
    }
    path
}

/// `i` is the position of the first word of `words` equal to `flag`.
pub open spec fn is_first_occurrence(words: Seq<Seq<char>>, flag: Seq<char>, i: int) -> bool {
    &&& 0 <= i < words.len()
    &&& words[i] == flag
    &&& forall|j: int| 0 <= j < i ==> words[j] != flag
}

/// The message for a flag that is the last word of the command line.
pub open spec fn empty_parameter_message(flag: Seq<char>) -> Seq<char> {
    "Empty paramter for flag "@ + flag
}

/// The message for a flag that does not occur on the command line.
pub open spec fn flag_not_found_message(flag: Seq<char>) -> Seq<char> {
    "Flag "@ + flag + " not found in args."@
}

/// What the command line `words` gives for `flag`: the word that follows its
/// first occurrence, or the message that says why there is none.
pub open spec fn flag_argument(words: Seq<Seq<char>>, flag: Seq<char>) -> Result<Seq<char>, Seq<char>> {
    if exists|i: int| is_first_occurrence(words, flag, i) {
        let i = choose|i: int| is_first_occurrence(words, flag, i);
        if i + 1 < words.len() {
            Ok(words[i + 1])
        } else {
            Err(empty_parameter_message(flag))
        }
    } else {
        Err(flag_not_found_message(flag))
    }
}

/// A word has at most one first occurrence.
pub proof fn lemma_first_occurrence_unique(words: Seq<Seq<char>>, flag: Seq<char>, i: int, k: int)
    requires
        is_first_occurrence(words, flag, i),
        is_first_occurrence(words, flag, k),
    ensures
        i == k,
{
    if i < k {
        assert(words[i] != flag);
    } else if k < i {
        assert(words[k] != flag);
    }
}

/// The argument given after `flag` on the command line `args`.
///
/// Returns the word that follows the first occurrence of `flag`; an error
/// message when `flag` is the last word or does not occur at all.
pub fn get_argument(args: &Vec<String>, flag: &str) -> (res: Result<String, String>)
    ensures
        match res {
            Ok(value) => flag_argument(args.deep_view(), flag@) == Ok::<Seq<char>, Seq<char>>(value@),
            Err(message) => flag_argument(args.deep_view(), flag@) == Err::<Seq<char>, Seq<char>>(message@),
        },
{
    let ghost words = args.deep_view();
    let wanted = String::from_str(flag);
    let mut index: usize = 0;
    while index < args.len()
        invariant
            index <= args.len(),
            words == args.deep_view(),
            wanted@ == flag@,
            forall|j: int| 0 <= j < index ==> words[j] != flag@,
        decreases args.len() - index,
    {
        if args[index] == wanted {
            assert(is_first_occurrence(words, flag@, index as int));
            proof {
                let c = choose|i: int| is_first_occurrence(words, flag@, i);
                lemma_first_occurrence_unique(words, flag@, index as int, c);
            }
            if index + 1 < args.len() {
                return Ok(args[index + 1].clone());
            } else {
                let mut message = String::from_str("Empty paramter for flag ");
                message.append(flag);
                return Err(message);
            }
        }
        index = index + 1;
    }
    assert(!exists|i: int| is_first_occurrence(words, flag@, i));
    let mut message = String::from_str("Flag ");
    message.append(flag);
    message.append(" not found in args.");
    Err(message)
}

/// Where the flag first occurs at position `i` before the last word, the
/// argument is the word right after it, whatever that word is.
pub proof fn lemma_argument_follows_flag(words: Seq<Seq<char>>, flag: Seq<char>, i: int)
    requires
        0 <= i < words.len() - 1,
        words[i] == flag,
        forall|j: int| 0 <= j < i ==> words[j] != flag,
    ensures
        flag_argument(words, flag) == Ok::<Seq<char>, Seq<char>>(words[i + 1]),
{
    assert(is_first_occurrence(words, flag, i));
    let c = choose|k: int| is_first_occurrence(words, flag, k);
    lemma_first_occurrence_unique(words, flag, i, c);
}

/// A word that occurs somewhere has a first occurrence.
proof fn lemma_occurrence_has_first(words: Seq<Seq<char>>, flag: Seq<char>, i: int)
    requires
        0 <= i < words.len(),
        words[i] == flag,
    ensures
        exists|k: int| is_first_occurrence(words, flag, k),
    decreases i,
{
    if forall|j: int| 0 <= j < i ==> words[j] != flag {
        assert(is_first_occurrence(words, flag, i));
    } else {
        let j = choose|j: int| 0 <= j < i && words[j] == flag;
        lemma_occurrence_has_first(words, flag, j);
    }
}

/// The empty-parameter error comes exactly when the first occurrence of the
/// flag is the last word, and the not-found error exactly when the flag
/// does not occur; otherwise the argument is found.
pub proof fn lemma_argument_errors(words: Seq<Seq<char>>, flag: Seq<char>)
    ensures
        words.len() > 0 && words.last() == flag && (forall|j: int| 0 <= j < words.len() - 1 ==> words[j] != flag)
            ==> flag_argument(words, flag) == Err::<Seq<char>, Seq<char>>(empty_parameter_message(flag)),
        (forall|i: int| 0 <= i < words.len() ==> words[i] != flag)
            ==> flag_argument(words, flag) == Err::<Seq<char>, Seq<char>>(flag_not_found_message(flag)),
        (flag_argument(words, flag) is Ok) <==> (exists|i: int| 0 <= i < words.len() - 1 && words[i] == flag),
{
    if exists|i: int| 0 <= i < words.len() && words[i] == flag {
        let w = choose|i: int| 0 <= i < words.len() && words[i] == flag;
        lemma_occurrence_has_first(words, flag, w);
        let i = choose|i: int| is_first_occurrence(words, flag, i);
        assert forall|k: int| is_first_occurrence(words, flag, k) implies k == i by {
            lemma_first_occurrence_unique(words, flag, i, k);
        }
        if exists|k: int| 0 <= k < words.len() - 1 && words[k] == flag {
            let k = choose|k: int| 0 <= k < words.len() - 1 && words[k] == flag;
            assert(i <= k);
        }
        if i + 1 == words.len() {
            assert forall|j: int| 0 <= j < words.len() - 1 implies words[j] != flag by {}
        }
    } else {
        assert(!exists|i: int| is_first_occurrence(words, flag, i));
    }
    if words.len() > 0 && words.last() == flag && (forall|j: int| 0 <= j < words.len() - 1 ==> words[j] != flag) {
        assert(is_first_occurrence(words, flag, words.len() - 1));
        let c = choose|k: int| is_first_occurrence(words, flag, k);
        lemma_first_occurrence_unique(words, flag, words.len() - 1, c);
    }
}

/// Joining a relative path to a root that is not empty and does not end in
/// `/` puts exactly one `/` between them, whatever their lengths.
pub proof fn lemma_relative_path_joined_with_separator(root: Seq<char>, relative_path: Seq<char>)
    requires
        root.len() > 0,
        root.last() != '/',
        relative_path.len() == 0 || relative_path[0] != '/',
    ensures
        joined_path(root, relative_path).len() == root.len() + 1 + relative_path.len(),
        joined_path(root, relative_path).subrange(0, root.len() as int) == root,
        joined_path(root, relative_path)[root.len() as int] == '/',
        joined_path(root, relative_path).subrange(root.len() as int + 1, joined_path(root, relative_path).len() as int)
            == relative_path,
{
    reveal_strlit("/");
    let p = joined_path(root, relative_path);
    assert(p =~= root + "/"@ + relative_path);
    assert(p.subrange(0, root.len() as int) =~= root);
    assert(p.subrange(root.len() as int + 1, p.len() as int) =~= relative_path);
}

/// Joining never loses anything: the joined path always ends with the
/// relative path, an absolute relative path is the whole result, and a
/// relative one keeps the root in front.
pub proof fn lemma_joined_path_keeps_parts(root: Seq<char>, relative_path: Seq<char>)
    ensures
        joined_path(root, relative_path).len() >= relative_path.len(),
        joined_path(root, relative_path).subrange(
            joined_path(root, relative_path).len() - relative_path.len(),
            joined_path(root, relative_path).len() as int,
        ) == relative_path,
        relative_path.len() > 0 && relative_path[0] == '/' ==> joined_path(root, relative_path) == relative_path,
        !(relative_path.len() > 0 && relative_path[0] == '/') ==> joined_path(root, relative_path).subrange(
            0,
            root.len() as int,
        ) == root,
        root.len() > 0 && root.last() == '/' && !(relative_path.len() > 0 && relative_path[0] == '/')
            ==> joined_path(root, relative_path) == root + relative_path,
{
    reveal_strlit("/");
    let p = joined_path(root, relative_path);
    assert(p.subrange(p.len() - relative_path.len(), p.len() as int) =~= relative_path);
    if !(relative_path.len() > 0 && relative_path[0] == '/') {
        assert(p.subrange(0, root.len() as int) =~= root);
    }
}

} // verus!
