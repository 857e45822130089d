//! Path arithmetic. A Unix path is a sequence of bytes, as the operating system sees
//! it: joining a file name onto a directory works on bytes, the way a Unix `PathBuf`
//! does. A Windows named-pipe path is text derived from an id.

use vstd::prelude::*;
use vstd::string::*;

verus! {

/// The Unix path separator, `/`, as a byte.
pub const SEPARATOR: u8 = 47;

/// The path obtained by pushing `name` onto `base` on Unix: an absolute `name`
/// replaces `base`; otherwise one separator is put between the two, unless `base`
/// is empty or already ends with a separator.
pub open spec fn joined(base: Seq<u8>, name: Seq<u8>) -> Seq<u8> {
    if name.len() > 0 && name[0] == SEPARATOR {
        name
    } else if base.len() == 0 || base.last() == SEPARATOR {
        base + name
    } else {
        base + seq![SEPARATOR] + name
    }
}

/// Appends the bytes of `tail` to `v`.
pub fn append_bytes(v: &mut Vec<u8>, tail: &[u8])
    ensures
        final(v)@ == old(v)@ + tail@,
{
    let n = tail.len();
    let mut i: usize = 0;
    while i < n
        invariant
            n == tail@.len(),
            i <= n,
            v@ == old(v)@ + tail@.subrange(0, i as int),
        decreases n - i,
    {
        v.push(tail[i]);
        assert(tail@.subrange(0, i + 1) =~= tail@.subrange(0, i as int).push(tail@[i as int]));
        i = i + 1;
    }
    assert(tail@.subrange(0, n as int) =~= tail@);
}

/// The bytes of `s`, in a vector of their own.
pub fn bytes_to_vec(s: &[u8]) -> (r: Vec<u8>)
    ensures
        r@ == s@,
{
    let mut r = Vec::new();
    append_bytes(&mut r, s);
    assert(r@ =~= s@);
    r
}

/// Joins `name` onto the directory `base`.
pub fn join_path(base: &[u8], name: &[u8]) -> (r: Vec<u8>)
    ensures
        r@ == joined(base@, name@),
{
    if name.len() > 0 && name[0] == SEPARATOR {
        return bytes_to_vec(name);
    }
    let mut r = bytes_to_vec(base);
    if base.len() > 0 && base[base.len() - 1] != SEPARATOR {
        r.push(SEPARATOR);
    }
    append_bytes(&mut r, name);
    r
}

/// The fixed beginning of every Windows named-pipe path: `\\.\pipe\`.
pub open spec fn pipe_prefix() -> Seq<char> {
    seq!['\\', '\\', '.', '\\', 'p', 'i', 'p', 'e', '\\']
}

/// How one character of an id appears in a pipe name: forward slashes become
/// backslashes, everything else is kept.
pub open spec fn pipe_char(c: char) -> char {
    if c == '/' {
        '\\'
    } else {
        c
    }
}

/// The named-pipe path of `id`: the pipe prefix followed by `id` with every `/`
/// turned into `\`.
pub open spec fn pipe_name(id: Seq<char>) -> Seq<char> {
    pipe_prefix() + id.map_values(|c: char| pipe_char(c))
}

/// Builds the Windows named-pipe path of `id`.
pub fn pipe_path(id: &str) -> (r: String)
    ensures
        r@ == pipe_name(id@),
{
    let prefix = "\\\\.\\pipe\\";
    proof {
        reveal_strlit("\\\\.\\pipe\\");
    }
    let mut r = String::from_str(prefix);
    let n = id.unicode_len();
    let mut i: usize = 0;
    while i < n
        invariant
            n == id@.len(),
            i <= n,
            r@ == pipe_prefix() + id@.subrange(0, i as int).map_values(|c: char| pipe_char(c)),
        decreases n - i,
    {
        let c = id.get_char(i);
        let ghost before = r@;
        if c == '/' {
            let backslash = "\\";
            r.append(backslash);
            proof {
                reveal_strlit("\\");
            }
            assert(backslash@ =~= seq!['\\']);
            assert(r@ =~= before.push(pipe_char(c)));
        } else {
            let one = id.substring_char(i, i + 1);
            r.append(one);
            assert(one@ =~= seq![c]);
            assert(r@ =~= before.push(pipe_char(c)));
        }
        assert(id@.subrange(0, i + 1).map_values(|c: char| pipe_char(c))
            =~= id@.subrange(0, i as int).map_values(|c: char| pipe_char(c)).push(pipe_char(c)));
        assert(r@ =~= pipe_prefix() + id@.subrange(0, i + 1).map_values(|c: char| pipe_char(c)));
        i = i + 1;
    }
    assert(id@.subrange(0, n as int) =~= id@);
    r
}

/// Joining always ends with the joined name: whatever the directory, the last
/// bytes of the result are `name`.
pub proof fn lemma_joined_ends_with_name(base: Seq<u8>, name: Seq<u8>)
    ensures
        joined(base, name).len() >= name.len(),
        joined(base, name).subrange(joined(base, name).len() - name.len(), joined(base, name).len() as int)
            == name,
{
    let j = joined(base, name);
    assert(j.subrange(j.len() - name.len(), j.len() as int) =~= name);
}

/// A relative name joined onto a non-empty directory that does not end with a
/// separator lands in that directory, behind exactly one separator.
pub proof fn lemma_joined_relative(base: Seq<u8>, name: Seq<u8>)
    requires
        base.len() > 0,
        base.last() != SEPARATOR,
        !(name.len() > 0 && name[0] == SEPARATOR),
    ensures
        joined(base, name) == base + seq![SEPARATOR] + name,
{
}

/// The pipe name of an id without forward slashes is the pipe prefix followed by the
/// id itself.
pub proof fn lemma_pipe_name_of_plain_id(id: Seq<char>)
    requires
        !id.contains('/'),
    ensures
        pipe_name(id) == pipe_prefix() + id,
{
    assert forall|i: int| 0 <= i < id.len() implies pipe_char(id[i]) == id[i] by {
        if id[i] == '/' {
            assert(id.contains('/'));
        }
    }
    assert(id.map_values(|c: char| pipe_char(c)) =~= id);
}

/// A pipe name holds no forward slash, and is the prefix longer than the id: each
/// character of the id gives exactly one character of the name.
pub proof fn lemma_pipe_name_shape(id: Seq<char>)
    ensures
        !pipe_name(id).contains('/'),
        pipe_name(id).len() == pipe_prefix().len() + id.len(),
        pipe_name(id).subrange(0, pipe_prefix().len() as int) == pipe_prefix(),
{
    let n = pipe_name(id);
    assert(n.subrange(0, pipe_prefix().len() as int) =~= pipe_prefix());
    if n.contains('/') {
        let k = choose|k: int| 0 <= k < n.len() && n[k] == '/';
        if k < pipe_prefix().len() {
            assert(n[k] == pipe_prefix()[k]);
        } else {
            assert(n[k] == pipe_char(id[k - pipe_prefix().len()]));
        }
    }
}

/// An absolute name replaces whatever it is joined onto.
pub proof fn lemma_joined_absolute(base: Seq<u8>, name: Seq<u8>)
    requires
        name.len() > 0,
        name[0] == SEPARATOR,
    ensures
        joined(base, name) == name,
{
}

/// A relative name joined onto an empty directory, or onto one that ends with a
/// separator, is simply appended: no separator is added.
pub proof fn lemma_joined_after_separator(base: Seq<u8>, name: Seq<u8>)
    requires
        base.len() == 0 || base.last() == SEPARATOR,
        !(name.len() > 0 && name[0] == SEPARATOR),
    ensures
        joined(base, name) == base + name,
{
}

/// The pipe name of an id is `\\.\pipe\` followed by the id, character for
/// character, with every `/` turned into `\` and every other character kept.
pub proof fn lemma_pipe_name_chars(id: Seq<char>)
    ensures
        pipe_name(id).len() == 9 + id.len(),
        pipe_name(id).subrange(0, 9) == seq!['\\', '\\', '.', '\\', 'p', 'i', 'p', 'e', '\\'],
        forall|i: int|
            0 <= i < id.len() ==> #[trigger] pipe_name(id)[9 + i] == if id[i] == '/' {
                '\\'
            } else {
                id[i]
            },
{
    let n = pipe_name(id);
    assert(n.subrange(0, 9) =~= seq!['\\', '\\', '.', '\\', 'p', 'i', 'p', 'e', '\\']);
    assert forall|i: int| 0 <= i < id.len() implies #[trigger] n[9 + i] == if id[i] == '/' {
        '\\'
    } else {
        id[i]
    } by {
        assert(n[9 + i] == id.map_values(|c: char| pipe_char(c))[i]);
    }
}

} // verus!
