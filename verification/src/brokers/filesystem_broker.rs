//! Where the layers of images are kept on disk.
use vstd::prelude::*;

use crate::error::DroidError;
use crate::models::Digest;
use crate::paths::{path_join, path_joined};
use crate::text::{
    law_replaced_characters_are_gone, law_replacing_one_character_keeps_the_others, replaced,
};

verus! {

/// What the operating system says of the space on a file system.
#[derive(Debug)]
pub enum SpaceReading {
    /// The number of free blocks, and the size of each.
    Blocks { available: u64, size: u64 },
    /// The space could not be found out.
    Failed(String),
}

/// Keeps the layers of images, each in a directory of its own.
#[derive(Debug)]
pub struct FilesystemBrokerImpl {
    pub layers_root: String,
}

/// The directory of a layer.
pub open spec fn layer_dir(layers_root: Seq<char>, digest: Seq<char>) -> Seq<char> {
    path_joined(layers_root, replaced(digest, ':', "-"@))
}

/// The file in the directory of a layer that holds the layer as it was fetched.
pub const LAYER_FILE: &'static str = "layer.tar.gz";

/// The file of a layer. It is there just when the layer is kept.
pub open spec fn layer_file(layers_root: Seq<char>, digest: Seq<char>) -> Seq<char> {
    path_joined(layer_dir(layers_root, digest), LAYER_FILE@)
}

impl Clone for FilesystemBrokerImpl {
    fn clone(&self) -> (r: Self)
        ensures
            r == *self,
    {
        FilesystemBrokerImpl { layers_root: self.layers_root.clone() }
    }
}

impl FilesystemBrokerImpl {
    pub fn new(layers_root: String) -> (r: Self)
        ensures
            r.layers_root == layers_root,
    {
        FilesystemBrokerImpl { layers_root }
    }

    /// The directory of a layer.
    pub fn layer_path(&self, digest: &Digest) -> (r: String)
        ensures
            r@ == layer_dir(self.layers_root@, digest.0@),
    {
        path_join(self.layers_root.as_str(), digest.as_fs_name().as_str())
    }

    /// The file of a layer.
    pub fn layer_file_path(&self, digest: &Digest) -> (r: String)
        ensures
            r@ == layer_file(self.layers_root@, digest.0@),
    {
        path_join(self.layer_path(digest).as_str(), LAYER_FILE)
    }
}

/// The space that is free on a file system, in bytes.
pub fn available_space(reading: SpaceReading) -> (r: Result<u64, DroidError>)
    requires
        reading matches SpaceReading::Blocks { available, size } ==> available * size <= u64::MAX,
    ensures
        match reading {
            SpaceReading::Blocks { available, size } => r is Ok && r->Ok_0 == available * size,
            SpaceReading::Failed(m) => r == Err::<u64, DroidError>(DroidError::Filesystem(m)),
        },
{
    match reading {
        SpaceReading::Blocks { available, size } => Ok(available * size),
        SpaceReading::Failed(m) => Err(DroidError::Filesystem(m)),
    }
}

// ---------------------------------------------------------------------------

/// A digest as a file name holds no colon.
pub proof fn law_file_names_hold_no_colon(digest: Seq<char>)
    ensures
        !replaced(digest, ':', "-"@).contains(':'),
{
    reveal_strlit("-");
    law_replaced_characters_are_gone(digest, ':', "-"@, ':');
}

/// Layers with different digests are kept in different directories, unless the digests differ
/// only in that one has hyphens where the other has colons, or just one of them is an absolute
/// path.
pub proof fn law_layers_are_kept_apart(layers_root: Seq<char>, a: Seq<char>, b: Seq<char>)
    requires
        forall|i: int|
            0 <= i < a.len() && i < b.len() ==> !((#[trigger] a[i]) == ':' && (#[trigger] b[i])
                == '-') && !(a[i] == '-' && b[i] == ':'),
        (a.len() > 0 && a[0] == '/') == (b.len() > 0 && b[0] == '/'),
        layer_dir(layers_root, a) == layer_dir(layers_root, b),
    ensures
        a == b,
{
    reveal_strlit("-");
    assert("-"@ =~= seq!['-']);
    law_replacing_one_character_keeps_the_others(a, ':', '-');
    law_replacing_one_character_keeps_the_others(b, ':', '-');
    let fa = replaced(a, ':', "-"@);
    let fb = replaced(b, ':', "-"@);
    if !(a.len() > 0 && a[0] == '/') {
        let front = if layers_root.len() > 0 && layers_root.last() != '/' {
            layers_root.push('/')
        } else {
            layers_root
        };
        assert(fa.len() > 0 ==> fa[0] != '/');
        assert(fb.len() > 0 ==> fb[0] != '/');
        assert(layer_dir(layers_root, a) == front + fa);
        assert(layer_dir(layers_root, b) == front + fb);
        assert(fa =~= (front + fa).skip(front.len() as int));
        assert(fb =~= (front + fb).skip(front.len() as int));
    } else {
        assert(fa[0] == '/');
        assert(fb[0] == '/');
    }
    assert(fa == fb);
    assert forall|i: int| 0 <= i < a.len() implies a[i] == b[i] by {
        assert(fa[i] == fb[i]);
    }
    assert(a =~= b);
}

/// A layer has a directory of its own below the directory of the layers, named by its digest with
/// hyphens in the place of colons, and its file in it.
pub proof fn law_layers_are_kept_by_their_digests(
    broker: &FilesystemBrokerImpl,
    digest: &Digest,
    dir: String,
    file: String,
)
    requires
        call_ensures(FilesystemBrokerImpl::layer_path, (broker, digest), dir),
        call_ensures(FilesystemBrokerImpl::layer_file_path, (broker, digest), file),
    ensures
        exists|name: Seq<char>|
            {
                &&& name.len() == digest.0@.len()
                &&& forall|i: int|
                    0 <= i < name.len() ==> #[trigger] name[i] == (if digest.0@[i] == ':' {
                        '-'
                    } else {
                        digest.0@[i]
                    })
                &&& dir@ == #[trigger] path_joined(broker.layers_root@, name)
            },
        file@ == path_joined(dir@, "layer.tar.gz"@),
{
    reveal_strlit("-");
    assert("-"@ =~= seq!['-']);
    let name = replaced(digest.0@, ':', "-"@);
    law_replacing_one_character_keeps_the_others(digest.0@, ':', '-');
    assert(dir@ == path_joined(broker.layers_root@, name));
}

/// The space that is free is as many bytes as there are in the free blocks.
pub proof fn law_free_space_is_counted_in_bytes(reading: SpaceReading, r: Result<u64, DroidError>)
    requires
        call_ensures(available_space, (reading,), r),
    ensures
        match reading {
            SpaceReading::Blocks { available, size } => r is Ok && r->Ok_0 == available * size,
            SpaceReading::Failed(m) => r == Err::<u64, DroidError>(DroidError::Filesystem(m)),
        },
{
}

} // verus!
