use git_odb::Write;
use vstd::prelude::*;

verus! {

/// The kind of an object held in a pack.
#[derive(PartialEq, Eq, Structural, Clone, Copy, Debug)]
pub enum ObjectKind {
    Tree,
    Blob,
    Commit,
    Tag,
}

/// The content id of the loose encoding of an object of `kind` whose bytes are
/// `content`: the SHA-1 digest of its header and content.
pub uninterp spec fn loose_object_id(kind: ObjectKind, content: Seq<u8>) -> Seq<u8>;

/// Relies on `git_odb::Sink::write_buf` with SHA-1 and compression left off: it
/// hashes the loose header and the content, keeps no bytes, and returns the
/// 20-byte id. Without a compressor its only fallible step is reading exactly
/// `content.len()` bytes back out of `content`, so it always succeeds.
#[verifier::external_body]
pub(crate) fn sink_write(kind: ObjectKind, content: &[u8]) -> (r: Result<Vec<u8>, String>)
    ensures
        r is Ok,
        r matches Ok(id) ==> id@ == loose_object_id(kind, content@) && id@.len() == 20,
{
    let kind = match kind {
        ObjectKind::Tree => git_object::Kind::Tree,
        ObjectKind::Blob => git_object::Kind::Blob,
        ObjectKind::Commit => git_object::Kind::Commit,
        ObjectKind::Tag => git_object::Kind::Tag,
    };
    git_odb::sink(git_hash::Kind::Sha1).write_buf(kind, content)
        .map(|id| id.as_slice().to_vec()).map_err(|e| e.to_string())
}

/// Whether two ids are the same bytes.
pub fn same_id(a: &[u8], b: &[u8]) -> (r: bool)
    ensures
        r == (a@ == b@),
{
    if a.len() != b.len() {
        return false;
    }
    let mut i: usize = 0;
    while i < a.len()
        invariant
            a@.len() == b@.len(),
            i <= a@.len(),
            a@.subrange(0, i as int) == b@.subrange(0, i as int),
        decreases a@.len() - i,
    {
        if a[i] != b[i] {
            assert(a@[i as int] != b@[i as int]);
            return false;
        }
        assert(a@.subrange(0, i + 1) == a@.subrange(0, i as int).push(a@[i as int]));
        assert(b@.subrange(0, i + 1) == b@.subrange(0, i as int).push(b@[i as int]));
        i = i + 1;
    }
    assert(a@ == a@.subrange(0, a@.len() as int));
    assert(b@ == b@.subrange(0, b@.len() as int));
    true
}

} // verus!
