//! Serving `res://` resources from the project's files: how the reply is chosen
//! and which file extension names the content type.
use vstd::prelude::*;

verus! {

/// Status code of a reply that serves the file.
pub const STATUS_OK: u16 = 200;

/// Status code of a reply for a file that cannot be opened.
pub const STATUS_NOT_FOUND: u16 = 404;

/// Index of the last occurrence of `c` in `s`, or -1 where `c` does not occur.
pub open spec fn last_index_of(s: Seq<char>, c: char) -> int
    decreases s.len(),
{
    if s.len() == 0 {
        -1
    } else if s.last() == c {
        s.len() - 1
    } else {
        last_index_of(s.drop_last(), c)
    }
}

/// The extension of a file path, as Godot's `String.get_extension` gives it:
/// what follows the last `.`, provided no `/` or `\` follows that `.`;
/// otherwise nothing.
pub open spec fn extension_of(path: Seq<char>) -> Seq<char> {
    let dot = last_index_of(path, '.');
    let slash = last_index_of(path, '/');
    let backslash = last_index_of(path, '\\');
    if dot < 0 || dot < slash || dot < backslash {
        Seq::empty()
    } else {
        path.subrange(dot + 1, path.len() as int)
    }
}

proof fn lemma_last_index_of(s: Seq<char>, c: char)
    ensures
        -1 <= last_index_of(s, c) < s.len(),
        last_index_of(s, c) >= 0 ==> s[last_index_of(s, c)] == c,
        forall|j: int| last_index_of(s, c) < j < s.len() ==> s[j] != c,
    decreases s.len(),
{
    if s.len() > 0 && s.last() != c {
        let t = s.drop_last();
        lemma_last_index_of(t, c);
        assert forall|j: int| last_index_of(s, c) < j < s.len() implies s[j] != c by {
            if j < t.len() {
                assert(s[j] == t[j]);
            }
        }
    }
}

/// Index of the last occurrence of `c` in `s`.
fn last_index(s: &str, len: usize, c: char) -> (found: Option<usize>)
    requires
        len == s@.len(),
    ensures
        match found {
            Some(i) => i == last_index_of(s@, c),
            None => last_index_of(s@, c) == -1,
        },
{
    let mut i = len;
    proof {
        assert(s@.subrange(0, len as int) =~= s@);
    }
    while i > 0
        invariant
            len == s@.len(),
            i <= len,
            last_index_of(s@, c) == last_index_of(s@.subrange(0, i as int), c),
        decreases i,
    {
        let k = i - 1;
        proof {
            assert(s@.subrange(0, i as int).drop_last() =~= s@.subrange(0, k as int));
        }
        if s.get_char(k) == c {
            return Some(k);
        }
        i = k;
    }
    proof {
        assert(s@.subrange(0, 0) =~= Seq::<char>::empty());
    }
    None
}

/// The extension of a file path: what follows its last `.`, unless a `/` or
/// `\` comes after that `.`, in which case it has none.
pub fn file_extension(path: &str) -> (extension: String)
    ensures
        extension@ == extension_of(path@),
{
    let len = path.unicode_len();
    let dot = last_index(path, len, '.');
    let slash = last_index(path, len, '/');
    let backslash = last_index(path, len, '\\');
    match dot {
        None => String::new(),
        Some(d) => {
            let after_slash = match slash {
                Some(p) => d < p,
                None => false,
            };
            let after_backslash = match backslash {
                Some(p) => d < p,
                None => false,
            };
            if after_slash || after_backslash {
                String::new()
            } else {
                proof {
                    lemma_last_index_of(path@, '.');
                }
                path.substring_char(d + 1, len).to_owned()
            }
        },
    }
}

/// An extension holds no `.`, `/` or `\`; where there is one, the path ends
/// with a `.` followed by it.
pub proof fn lemma_extension_is_last_component(path: Seq<char>)
    ensures
        forall|i: int|
            0 <= i < extension_of(path).len() ==> #[trigger] extension_of(path)[i] != '.'
                && extension_of(path)[i] != '/' && extension_of(path)[i] != '\\',
        extension_of(path).len() > 0 ==> path.subrange(
            path.len() - extension_of(path).len() - 1,
            path.len() as int,
        ) == seq!['.'] + extension_of(path),
{
    lemma_last_index_of(path, '.');
    lemma_last_index_of(path, '/');
    lemma_last_index_of(path, '\\');
    let dot = last_index_of(path, '.');
    let ext = extension_of(path);
    if ext.len() > 0 {
        assert(path.subrange(dot, path.len() as int) =~= seq!['.'] + ext);
    }
    assert forall|i: int| 0 <= i < ext.len() implies #[trigger] ext[i] != '.' && ext[i] != '/'
        && ext[i] != '\\' by {
        assert(ext[i] == path[dot + 1 + i]);
    }
}

proof fn lemma_last_index_is(s: Seq<char>, c: char, k: int)
    requires
        0 <= k < s.len(),
        s[k] == c,
        forall|j: int| k < j < s.len() ==> s[j] != c,
    ensures
        last_index_of(s, c) == k,
    decreases s.len(),
{
    if s.last() != c {
        let t = s.drop_last();
        assert forall|j: int| k < j < t.len() implies t[j] != c by {
            assert(t[j] == s[j]);
        }
        lemma_last_index_is(t, c, k);
    }
}

proof fn lemma_last_index_before(s: Seq<char>, c: char, k: int)
    requires
        0 <= k <= s.len(),
        forall|j: int| k <= j < s.len() ==> s[j] != c,
    ensures
        last_index_of(s, c) < k,
    decreases s.len(),
{
    if s.len() > 0 {
        if k == s.len() {
            lemma_last_index_of(s, c);
        } else {
            let t = s.drop_last();
            assert forall|j: int| k <= j < t.len() implies t[j] != c by {
                assert(t[j] == s[j]);
            }
            lemma_last_index_before(t, c, k);
        }
    }
}

/// A path that ends with a `.` followed by a name holding no `.`, `/` or `\`
/// has that name as its extension; with [`lemma_extension_is_last_component`]
/// this fixes the extension of every path.
pub proof fn lemma_extension_of_dotted_name(prefix: Seq<char>, name: Seq<char>)
    requires
        forall|i: int| 0 <= i < name.len() ==> name[i] != '.' && name[i] != '/' && name[i] != '\\',
    ensures
        extension_of(prefix + seq!['.'] + name) == name,
{
    let path = prefix + seq!['.'] + name;
    let k = prefix.len() as int;
    assert(path[k] == '.');
    assert forall|j: int| k < j < path.len() implies path[j] != '.' && path[j] != '/' && path[j]
        != '\\' by {
        assert(path[j] == name[j - k - 1]);
    }
    lemma_last_index_is(path, '.', k);
    lemma_last_index_before(path, '/', k);
    lemma_last_index_before(path, '\\', k);
    assert(path.subrange(k + 1, path.len() as int) =~= name);
}

/// How a request for a `res://` resource is answered.
#[derive(Clone, Copy, Debug, PartialEq, Eq, Structural)]
pub enum ResourceReply {
    /// No such file: the load is left to the browser engine.
    PassThrough,
    /// The file exists but cannot be opened: the load is answered "not found".
    NotFound,
    /// The file is opened: the load is answered with its contents.
    Serve,
}

/// Chooses the reply to a `res://` request from whether the file exists and
/// whether it could be opened for reading.
pub fn resource_reply(file_exists: bool, opened: bool) -> (reply: ResourceReply)
    ensures
        reply == (if !file_exists {
            ResourceReply::PassThrough
        } else if !opened {
            ResourceReply::NotFound
        } else {
            ResourceReply::Serve
        }),
{
    if !file_exists {
        ResourceReply::PassThrough
    } else if !opened {
        ResourceReply::NotFound
    } else {
        ResourceReply::Serve
    }
}

/// The status code sent with a reply; a load left to the engine gets none.
pub fn reply_status(reply: ResourceReply) -> (status: Option<u16>)
    ensures
        status == match reply {
            ResourceReply::PassThrough => None::<u16>,
            ResourceReply::NotFound => Some(STATUS_NOT_FOUND),
            ResourceReply::Serve => Some(STATUS_OK),
        },
{
    match reply {
        ResourceReply::PassThrough => None,
        ResourceReply::NotFound => Some(STATUS_NOT_FOUND),
        ResourceReply::Serve => Some(STATUS_OK),
    }
}

} // verus!
