use vstd::prelude::*;

verus! {

/// The name of the directory, below the storage root, that holds uploads.
pub open spec fn uploads_dir() -> Seq<char> {
    seq!['u', 'p', 'l', 'o', 'a', 'd', 's', '/']
}

/// The extension every stored upload carries.
pub open spec fn upload_suffix() -> Seq<char> {
    seq!['.', 'l', 'u', 'm', 'e', 'n']
}

/// The location of upload `id` relative to the storage root.
pub open spec fn upload_entry(id: Seq<char>) -> Seq<char> {
    uploads_dir() + id + upload_suffix()
}

/// Joining a relative path onto a base directory: a separator is put between
/// them unless the base is empty or already ends in one.
pub open spec fn join_path(base: Seq<char>, rel: Seq<char>) -> Seq<char> {
    if base.len() == 0 || base.last() == '/' {
        base + rel
    } else {
        base + seq!['/'] + rel
    }
}

/// The on-disk layout of uploaded files: each upload lives at
/// `<base>/uploads/<id>.lumen`.
pub struct Storage {
    pub base_path: String,
}

impl Storage {
    /// A storage rooted at `base_path`. Creating the directories is left to
    /// the caller, which owns the file system.
    pub fn new(base_path: String) -> (storage: Storage)
        ensures
            storage.base_path@ == base_path@,
    {
        Storage { base_path }
    }

    /// The path of the file that holds upload `id`.
    pub fn get_path(&self, id: &str) -> (path: String)
        ensures
            path@ == join_path(self.base_path@, upload_entry(id@)),
    {
        let base = self.base_path.as_str();
        let n = base.unicode_len();
        let mut path = self.base_path.clone();
        if n != 0 && base.get_char(n - 1) != '/' {
            path.append("/");
        }
        path.append("uploads/");
        path.append(id);
        path.append(".lumen");
        proof {
            reveal_strlit("/");
            reveal_strlit("uploads/");
            reveal_strlit(".lumen");
            assert("/"@ =~= seq!['/']);
            assert("uploads/"@ =~= uploads_dir());
            assert(".lumen"@ =~= upload_suffix());
            assert(path@ =~= join_path(self.base_path@, upload_entry(id@)));
        }
        path
    }
}

/// Two different uploads never share a file: the path of an upload
/// determines its id, for a fixed storage root.
pub proof fn lemma_upload_paths_distinct(base: Seq<char>, a: Seq<char>, b: Seq<char>)
    requires
        a != b,
    ensures
        join_path(base, upload_entry(a)) != join_path(base, upload_entry(b)),
{
    let pa = join_path(base, upload_entry(a));
    let pb = join_path(base, upload_entry(b));
    if pa == pb {
        let start: int = pa.len() - upload_entry(a).len();
        assert(a.len() == b.len());
        assert(pa.subrange(start + 8, start + 8 + a.len()) =~= a);
        assert(pb.subrange(start + 8, start + 8 + b.len()) =~= b);
    }
}

/// Where an upload lives: below the storage root `base`, one separator,
/// then `uploads/`, the id and `.lumen`. The separator is added exactly when
/// the root is not empty and does not already end in one, so the file
/// always lies in `<base>/uploads`.
pub proof fn lemma_upload_path_layout(base: Seq<char>, id: Seq<char>)
    ensures
        ({
            let path = join_path(base, upload_entry(id));
            let tail = seq!['u', 'p', 'l', 'o', 'a', 'd', 's', '/'] + id + seq![
                '.',
                'l',
                'u',
                'm',
                'e',
                'n',
            ];
            &&& base.len() == 0 ==> path == tail
            &&& (base.len() > 0 && base.last() == '/') ==> path == base + tail
            &&& (base.len() > 0 && base.last() != '/') ==> path == base + seq!['/'] + tail
            &&& path.take(base.len() as int) == base
        }),
{
    let path = join_path(base, upload_entry(id));
    let tail = seq!['u', 'p', 'l', 'o', 'a', 'd', 's', '/'] + id + seq!['.', 'l', 'u', 'm', 'e', 'n'];
    assert(upload_entry(id) =~= tail);
    if base.len() == 0 || base.last() == '/' {
        assert(path.take(base.len() as int) =~= base);
    } else {
        assert(path.take(base.len() as int) =~= base);
    }
}

} // verus!
