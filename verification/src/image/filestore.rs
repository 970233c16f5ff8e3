//! The store of images: what is written for a pulled image, and which images a
//! scan of the store finds.
use crate::image::{FileCommand, ImageInfo, ImageState, PulledImageData, PulledLayer, IMAGE_DIR};
use crate::table::TextMap;
use crate::text;
use vstd::prelude::*;

verus! {

/// The media type of the initial file system of a virtual machine.
pub const INITRAMFS_MEDIA_TYPE: &'static str = "application/vnd.ironcore.image.initramfs.v1alpha1.initramfs";

/// The media type of the kernel of a virtual machine.
pub const VMLINUZ_MEDIA_TYPE: &'static str = "application/vnd.ironcore.image.vmlinuz.v1alpha1.vmlinuz";

/// The media type of the disk of a virtual machine.
pub const ROOTFS_MEDIA_TYPE: &'static str = "application/vnd.ironcore.image.rootfs.v1alpha1.rootfs";

/// `oci_distribution::manifest::IMAGE_LAYER_GZIP_MEDIA_TYPE`, the media type of a
/// compressed file system layer.
#[verifier::external_body]
fn oci_layer_media_type() -> (r: &'static str)
    ensures
        r@ == "application/vnd.oci.image.layer.v1.tar+gzip"@,
{
    oci_distribution::manifest::IMAGE_LAYER_GZIP_MEDIA_TYPE
}

/// `oci_distribution::manifest::IMAGE_DOCKER_LAYER_GZIP_MEDIA_TYPE`, Docker's media
/// type of a compressed file system layer.
#[verifier::external_body]
fn docker_layer_media_type() -> (r: &'static str)
    ensures
        r@ == "application/vnd.docker.image.rootfs.diff.tar.gzip"@,
{
    oci_distribution::manifest::IMAGE_DOCKER_LAYER_GZIP_MEDIA_TYPE
}

/// One change to the file system.
pub enum FileOp {
    /// Create a directory and those above it.
    CreateDir(String),
    /// Create a directory and those above it, unless it exists.
    EnsureDir(String),
    /// Unpack a compressed archive into a directory.
    Unpack { data: Vec<u8>, into: String },
    /// Write a file.
    Write { path: String, data: Vec<u8> },
    /// Write the file that says where an image comes from.
    WriteMetadata { path: String, image_ref: String },
}

/// One change to the file system, in terms of texts and bytes.
pub enum FileOpView {
    CreateDir(Seq<char>),
    EnsureDir(Seq<char>),
    Unpack { data: Seq<u8>, into: Seq<char> },
    Write { path: Seq<char>, data: Seq<u8> },
    WriteMetadata { path: Seq<char>, image_ref: Seq<char> },
}

impl View for FileOp {
    type V = FileOpView;

    open spec fn view(&self) -> FileOpView {
        match *self {
            FileOp::CreateDir(p) => FileOpView::CreateDir(p@),
            FileOp::EnsureDir(p) => FileOpView::EnsureDir(p@),
            FileOp::Unpack { data, into } => FileOpView::Unpack { data: data@, into: into@ },
            FileOp::Write { path, data } => FileOpView::Write { path: path@, data: data@ },
            FileOp::WriteMetadata { path, image_ref } => FileOpView::WriteMetadata {
                path: path@,
                image_ref: image_ref@,
            },
        }
    }
}

/// The views of a list of changes.
pub open spec fn op_views(ops: Seq<FileOp>) -> Seq<FileOpView> {
    ops.map_values(|op: FileOp| op@)
}

/// Whether a layer is part of a file system tree, which is unpacked.
pub open spec fn is_tree_layer(media_type: Seq<char>) -> bool {
    media_type == "application/vnd.oci.image.layer.v1.tar+gzip"@ || media_type
        == "application/vnd.docker.image.rootfs.diff.tar.gzip"@
}

/// What is done with a layer: parts of a file system tree are unpacked, the parts
/// of a virtual machine become files, and anything else is left out.
pub open spec fn layer_plan(dir: Seq<char>, layer: PulledLayer) -> Seq<FileOpView> {
    let media_type = layer.media_type@;
    if is_tree_layer(media_type) {
        seq![
            FileOpView::EnsureDir(text::joined(dir, "rootfs"@)),
            FileOpView::Unpack { data: layer.data@, into: text::joined(dir, "rootfs"@) },
        ]
    } else if media_type == ROOTFS_MEDIA_TYPE@ {
        seq![FileOpView::Write { path: text::joined(dir, "disk.image"@), data: layer.data@ }]
    } else if media_type == INITRAMFS_MEDIA_TYPE@ {
        seq![FileOpView::Write { path: text::joined(dir, "initramfs"@), data: layer.data@ }]
    } else if media_type == VMLINUZ_MEDIA_TYPE@ {
        seq![FileOpView::Write { path: text::joined(dir, "vmlinuz"@), data: layer.data@ }]
    } else {
        Seq::empty()
    }
}

/// What is done with the layers of an image, in order.
pub open spec fn layers_plan(dir: Seq<char>, layers: Seq<PulledLayer>) -> Seq<FileOpView>
    decreases layers.len(),
{
    if layers.len() == 0 {
        Seq::empty()
    } else {
        layers_plan(dir, layers.drop_last()) + layer_plan(dir, layers.last())
    }
}

/// All that is done to store an image.
pub open spec fn store_plan(
    dir: Seq<char>,
    image: PulledImageData,
    image_ref: Seq<char>,
) -> Seq<FileOpView> {
    seq![FileOpView::CreateDir(dir)] + layers_plan(dir, image.layers@) + seq![
        FileOpView::Write { path: text::joined(dir, "config.json"@), data: image.config@ },
        FileOpView::WriteMetadata { path: text::joined(dir, "metadata.json"@), image_ref },
    ]
}

/// What a scan sees of an entry of the store.
pub struct ScanEntry {
    pub is_dir: bool,
    /// The entry's name, where it is valid text.
    pub name: Option<String>,
    pub has_metadata: bool,
    pub has_disk_image: bool,
    pub has_rootfs: bool,
    /// Where the image comes from, as far as its metadata could be read.
    pub image_ref: Option<String>,
}

/// The image that an entry holds: a directory with readable metadata and a disk or
/// a file system tree.
pub open spec fn entry_image(entry: ScanEntry) -> Option<ImageInfo> {
    match (entry.name, entry.image_ref) {
        (Some(name), Some(image_ref)) => if entry.is_dir && entry.has_metadata && (
        entry.has_disk_image || entry.has_rootfs) {
            Some(ImageInfo { image_uuid: name, image_ref, state: ImageState::Ready })
        } else {
            None
        },
        _ => None,
    }
}

/// The images that a scan finds, by identifier.
pub open spec fn scanned(entries: Seq<ScanEntry>) -> Map<Seq<char>, ImageInfo>
    decreases entries.len(),
{
    if entries.len() == 0 {
        Map::empty()
    } else {
        let before = scanned(entries.drop_last());
        match entry_image(entries.last()) {
            Some(info) => before.insert(info.image_uuid@, info),
            None => before,
        }
    }
}

/// What the store is to do for a command.
pub enum FileAction {
    /// Make these changes in order, up to the first that fails.
    Apply(Vec<FileOp>),
    /// Remove a directory with all that is in it.
    RemoveDir(String),
    /// Scan the directory of images.
    Scan,
}

/// The store of images.
pub struct FileStore;

impl FileStore {
    /// The changes that one layer asks for.
    fn layer_ops(dir: &str, layer: PulledLayer, ops: &mut Vec<FileOp>)
        ensures
            op_views(final(ops)@) == op_views(old(ops)@) + layer_plan(dir@, layer),
    {
        let ghost before = ops@;
        let media_type = layer.media_type.as_str();
        if text::same(media_type, oci_layer_media_type()) || text::same(
            media_type,
            docker_layer_media_type(),
        ) {
            ops.push(FileOp::EnsureDir(text::path_join(dir, "rootfs")));
            ops.push(FileOp::Unpack { data: layer.data, into: text::path_join(dir, "rootfs") });
        } else if text::same(media_type, ROOTFS_MEDIA_TYPE) {
            ops.push(FileOp::Write { path: text::path_join(dir, "disk.image"), data: layer.data });
        } else if text::same(media_type, INITRAMFS_MEDIA_TYPE) {
            ops.push(FileOp::Write { path: text::path_join(dir, "initramfs"), data: layer.data });
        } else if text::same(media_type, VMLINUZ_MEDIA_TYPE) {
            ops.push(FileOp::Write { path: text::path_join(dir, "vmlinuz"), data: layer.data });
        }
        assert(op_views(ops@) =~= op_views(before) + layer_plan(dir@, layer));
    }

    /// All changes that storing an image in a directory asks for.
    pub fn store_image_impl(final_dir: &str, image_data: PulledImageData, image_ref: &str) -> (ops:
        Vec<FileOp>)
        ensures
            op_views(ops@) == store_plan(final_dir@, image_data, image_ref@),
    {
        let mut ops: Vec<FileOp> = Vec::new();
        ops.push(FileOp::CreateDir(final_dir.to_owned()));
        let ghost all = image_data.layers@;
        let ghost start = seq![FileOpView::CreateDir(final_dir@)];
        let config = image_data.config;
        let mut rest = image_data.layers;
        let ghost mut done: int = 0;
        assert(all.take(0) =~= Seq::<PulledLayer>::empty());
        assert(op_views(ops@) =~= start + layers_plan(final_dir@, all.take(0)));
        while rest.len() > 0
            invariant
                0 <= done,
                done + rest@.len() == all.len(),
                rest@ == all.skip(done),
                op_views(ops@) == start + layers_plan(final_dir@, all.take(done)),
            decreases rest@.len(),
        {
            assert(rest@[0] == all[done]);
            let layer = rest.remove(0);
            Self::layer_ops(final_dir, layer, &mut ops);
            proof {
                assert(all.take(done + 1).drop_last() =~= all.take(done));
                assert(all.take(done + 1).last() == layer);
                assert(op_views(ops@) =~= start + layers_plan(final_dir@, all.take(done + 1)));
                done = done + 1;
                assert(rest@ =~= all.skip(done));
            }
        }
        assert(all.take(done) =~= all);
        let ghost before = ops@;
        ops.push(FileOp::Write { path: text::path_join(final_dir, "config.json"), data: config });
        ops.push(
            FileOp::WriteMetadata {
                path: text::path_join(final_dir, "metadata.json"),
                image_ref: image_ref.to_owned(),
            },
        );
        assert(op_views(ops@) =~= store_plan(final_dir@, image_data, image_ref@));
        ops
    }

    /// The images that the entries of the store hold.
    pub fn scan_images_impl(entries: Vec<ScanEntry>) -> (store: TextMap<ImageInfo>)
        ensures
            store.wf(),
            store@ == scanned(entries@),
    {
        let ghost all = entries@;
        let mut rest = entries;
        let mut store: TextMap<ImageInfo> = TextMap::new();
        let ghost mut done: int = 0;
        assert(all.take(0) =~= Seq::<ScanEntry>::empty());
        while rest.len() > 0
            invariant
                0 <= done,
                done + rest@.len() == all.len(),
                rest@ == all.skip(done),
                store.wf(),
                store@ == scanned(all.take(done)),
            decreases rest@.len(),
        {
            assert(rest@[0] == all[done]);
            let entry = rest.remove(0);
            proof {
                assert(all.take(done + 1).drop_last() =~= all.take(done));
                assert(all.take(done + 1).last() == entry);
                done = done + 1;
                assert(rest@ =~= all.skip(done));
            }
            if entry.is_dir {
                if let Some(name) = entry.name {
                    if entry.has_metadata && (entry.has_disk_image || entry.has_rootfs) {
                        if let Some(image_ref) = entry.image_ref {
                            store.insert(
                                name.clone(),
                                ImageInfo { image_uuid: name, image_ref, state: ImageState::Ready },
                            );
                        }
                    }
                }
            }
        }
        assert(all.take(done) =~= all);
        store
    }

    /// What the store is to do for a command.
    pub fn handle_command(cmd: FileCommand) -> (action: FileAction)
        ensures
            match cmd {
                FileCommand::StoreImage { image_uuid, image_ref, image_data } => action matches
                    FileAction::Apply(ops) && op_views(ops@) == store_plan(
                    text::joined(IMAGE_DIR@, image_uuid@),
                    image_data,
                    image_ref@,
                ),
                FileCommand::DeleteImage { image_uuid } => action matches FileAction::RemoveDir(p)
                    && p@ == text::joined(IMAGE_DIR@, image_uuid@),
                FileCommand::ScanExistingImages => action is Scan,
            },
    {
        match cmd {
            FileCommand::StoreImage { image_uuid, image_ref, image_data } => {
                let final_dir = text::path_join(IMAGE_DIR, image_uuid.as_str());
                FileAction::Apply(
                    Self::store_image_impl(final_dir.as_str(), image_data, image_ref.as_str()),
                )
            },
            FileCommand::DeleteImage { image_uuid } => FileAction::RemoveDir(
                text::path_join(IMAGE_DIR, image_uuid.as_str()),
            ),
            FileCommand::ScanExistingImages => FileAction::Scan,
        }
    }
}

/// Whether a path exists once a change has been made.
pub open spec fn leaves(op: FileOpView, path: Seq<char>) -> bool {
    match op {
        FileOpView::CreateDir(p) => p == path,
        FileOpView::EnsureDir(p) => p == path,
        FileOpView::Unpack { .. } => false,
        FileOpView::Write { path: p, .. } => p == path,
        FileOpView::WriteMetadata { path: p, .. } => p == path,
    }
}

/// Whether some change of a plan makes a path exist.
pub open spec fn plan_leaves(plan: Seq<FileOpView>, path: Seq<char>) -> bool {
    exists|i: int| 0 <= i < plan.len() && leaves(#[trigger] plan[i], path)
}

/// Whether an image has a layer that the store keeps as a disk or as a tree.
pub open spec fn has_root(layers: Seq<PulledLayer>) -> bool {
    exists|i: int|
        0 <= i < layers.len() && (is_tree_layer((#[trigger] layers[i]).media_type@)
            || layers[i].media_type@ == ROOTFS_MEDIA_TYPE@)
}

/// Whether an entry is what the store leaves of an image in an empty directory.
pub open spec fn entry_shows(
    entry: ScanEntry,
    dir: Seq<char>,
    image: PulledImageData,
    image_ref: Seq<char>,
) -> bool {
    let plan = store_plan(dir, image, image_ref);
    &&& entry.is_dir
    &&& entry.has_metadata == plan_leaves(plan, text::joined(dir, "metadata.json"@))
    &&& entry.has_disk_image == plan_leaves(plan, text::joined(dir, "disk.image"@))
    &&& entry.has_rootfs == plan_leaves(plan, text::joined(dir, "rootfs"@))
    &&& entry.image_ref matches Some(r) && r@ == image_ref
}

proof fn lemma_joined_distinct(dir: Seq<char>, a: Seq<char>, b: Seq<char>)
    requires
        a.len() > 0 && a[0] != '/',
        b.len() > 0 && b[0] != '/',
        a != b,
    ensures
        text::joined(dir, a) != text::joined(dir, b),
        text::joined(dir, a) != dir,
{
    let x = text::joined(dir, a);
    let y = text::joined(dir, b);
    let n = x.len() - a.len();
    assert(x.skip(n) =~= a);
    if x == y {
        assert(y.len() - b.len() == n);
        assert(y.skip(n) =~= b);
    }
}

proof fn lemma_layers_leave(dir: Seq<char>, layers: Seq<PulledLayer>)
    ensures
        has_root(layers) <==> plan_leaves(
            layers_plan(dir, layers),
            text::joined(dir, "disk.image"@),
        ) || plan_leaves(layers_plan(dir, layers), text::joined(dir, "rootfs"@)),
    decreases layers.len(),
{
    let disk = text::joined(dir, "disk.image"@);
    let rootfs = text::joined(dir, "rootfs"@);
    if layers.len() > 0 {
        let init = layers.drop_last();
        let last = layers.last();
        lemma_layers_leave(dir, init);
        let p = layers_plan(dir, init);
        let q = layer_plan(dir, last);
        let all = layers_plan(dir, layers);
        assert(all =~= p + q);
        assert forall|path: Seq<char>| plan_leaves(all, path) <==> plan_leaves(p, path)
            || plan_leaves(q, path) by {
            if plan_leaves(p, path) {
                let i = choose|i: int| 0 <= i < p.len() && leaves(#[trigger] p[i], path);
                assert(all[i] == p[i]);
            }
            if plan_leaves(q, path) {
                let i = choose|i: int| 0 <= i < q.len() && leaves(#[trigger] q[i], path);
                assert(all[p.len() + i] == q[i]);
            }
            if plan_leaves(all, path) {
                let i = choose|i: int| 0 <= i < all.len() && leaves(#[trigger] all[i], path);
                if i < p.len() {
                    assert(p[i] == all[i]);
                } else {
                    assert(q[i - p.len()] == all[i]);
                }
            }
        }
        let kept = is_tree_layer(last.media_type@) || last.media_type@ == ROOTFS_MEDIA_TYPE@;
        assert(kept <==> plan_leaves(q, disk) || plan_leaves(q, rootfs)) by {
            reveal_strlit("disk.image");
            reveal_strlit("rootfs");
            reveal_strlit("initramfs");
            reveal_strlit("vmlinuz");
            assert("initramfs"@[0] == 'i' && "vmlinuz"@[0] == 'v' && "disk.image"@[0] == 'd'
                && "rootfs"@[0] == 'r');
            lemma_joined_distinct(dir, "initramfs"@, "disk.image"@);
            lemma_joined_distinct(dir, "initramfs"@, "rootfs"@);
            lemma_joined_distinct(dir, "vmlinuz"@, "disk.image"@);
            lemma_joined_distinct(dir, "vmlinuz"@, "rootfs"@);
            if is_tree_layer(last.media_type@) {
                assert(leaves(q[0], rootfs));
            } else if last.media_type@ == ROOTFS_MEDIA_TYPE@ {
                assert(leaves(q[0], disk));
            }
        }
        assert(has_root(layers) <==> has_root(init) || kept) by {
            if has_root(init) {
                let i = choose|i: int|
                    0 <= i < init.len() && (is_tree_layer((#[trigger] init[i]).media_type@)
                        || init[i].media_type@ == ROOTFS_MEDIA_TYPE@);
                assert(layers[i] == init[i]);
            }
            if kept {
                assert(layers[layers.len() - 1] == last);
            }
            if has_root(layers) {
                let i = choose|i: int|
                    0 <= i < layers.len() && (is_tree_layer((#[trigger] layers[i]).media_type@)
                        || layers[i].media_type@ == ROOTFS_MEDIA_TYPE@);
                if i < init.len() {
                    assert(init[i] == layers[i]);
                }
            }
        }
    }
}

/// An image that was stored in an empty directory is found by a scan, as ready and
/// with its reference, if and only if it has a disk layer or a tree layer.
pub proof fn stored_image_is_found(
    name: String,
    dir: Seq<char>,
    image: PulledImageData,
    image_ref: Seq<char>,
    entry: ScanEntry,
)
    requires
        entry.name == Some(name),
        entry_shows(entry, dir, image, image_ref),
    ensures
        has_root(image.layers@) ==> (entry_image(entry) matches Some(info) && info.image_uuid == name
            && info.image_ref@ == image_ref && info.state == ImageState::Ready),
        !has_root(image.layers@) ==> entry_image(entry) is None,
{
    let plan = store_plan(dir, image, image_ref);
    let layers = layers_plan(dir, image.layers@);
    let n = layers.len() as int;
    let disk = text::joined(dir, "disk.image"@);
    let rootfs = text::joined(dir, "rootfs"@);
    assert(leaves(plan[n + 2], text::joined(dir, "metadata.json"@)));
    lemma_layers_leave(dir, image.layers@);
    reveal_strlit("disk.image");
    reveal_strlit("rootfs");
    reveal_strlit("config.json");
    reveal_strlit("metadata.json");
    assert("config.json"@[0] == 'c' && "metadata.json"@[0] == 'm' && "disk.image"@[0] == 'd'
        && "rootfs"@[0] == 'r');
    lemma_joined_distinct(dir, "disk.image"@, "config.json"@);
    lemma_joined_distinct(dir, "disk.image"@, "metadata.json"@);
    lemma_joined_distinct(dir, "rootfs"@, "config.json"@);
    lemma_joined_distinct(dir, "rootfs"@, "metadata.json"@);
    assert forall|path: Seq<char>| path == disk || path == rootfs implies (plan_leaves(plan, path)
        <==> plan_leaves(layers, path)) by {
        if plan_leaves(layers, path) {
            let i = choose|i: int| 0 <= i < layers.len() && leaves(#[trigger] layers[i], path);
            assert(plan[i + 1] == layers[i]);
        }
        if plan_leaves(plan, path) {
            let i = choose|i: int| 0 <= i < plan.len() && leaves(#[trigger] plan[i], path);
            if 1 <= i < n + 1 {
                assert(layers[i - 1] == plan[i]);
            }
        }
    }
}

/// A scan finds an image only where there is an entry of its name: once the directory
/// of an image is gone, the image is not found any more.
pub proof fn deleted_image_is_not_found(entries: Seq<ScanEntry>, image_uuid: Seq<char>)
    requires
        forall|i: int|
            0 <= i < entries.len() ==> !((#[trigger] entries[i]).name matches Some(name) && name@
                == image_uuid),
    ensures
        !scanned(entries).dom().contains(image_uuid),
    decreases entries.len(),
{
    if entries.len() > 0 {
        let init = entries.drop_last();
        assert forall|i: int| 0 <= i < init.len() implies !((#[trigger] init[i]).name matches Some(
            name,
        ) && name@ == image_uuid) by {
            assert(init[i] == entries[i]);
        }
        deleted_image_is_not_found(init, image_uuid);
        let last = entries[entries.len() - 1];
        assert(!(last.name matches Some(name) && name@ == image_uuid));
    }
}

/// What a scan finds of a name is the image that the last entry of that name with an
/// image holds.
pub proof fn scan_tells_of_each_entry(entries: Seq<ScanEntry>, i: int)
    requires
        0 <= i < entries.len(),
        entry_image(entries[i]) is Some,
        forall|j: int|
            i < j < entries.len() ==> !(entry_image(#[trigger] entries[j]) matches Some(info)
                && info.image_uuid@ == entry_image(entries[i])->Some_0.image_uuid@),
    ensures
        ({
            let info = entry_image(entries[i])->Some_0;
            &&& scanned(entries).dom().contains(info.image_uuid@)
            &&& scanned(entries)[info.image_uuid@] == info
        }),
    decreases entries.len(),
{
    let init = entries.drop_last();
    if i < entries.len() - 1 {
        assert(init[i] == entries[i]);
        assert forall|j: int| i < j < init.len() implies !(entry_image(
            #[trigger] init[j],
        ) matches Some(info) && info.image_uuid@
            == entry_image(init[i])->Some_0.image_uuid@) by {
            assert(init[j] == entries[j]);
        }
        scan_tells_of_each_entry(init, i);
        let last = entries[entries.len() - 1];
        assert(!(entry_image(last) matches Some(info) && info.image_uuid@
            == entry_image(entries[i])->Some_0.image_uuid@));
    }
}

} // verus!
