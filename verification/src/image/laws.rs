//! What holds of the store of images as a whole: that it keeps what was pulled, where
//! virtual machines and containers look for it.
use crate::container::worker::{self, handle_create_container};
use crate::container::ContainerConfig;
use crate::ids;
use crate::image::dispatcher::ImageServiceDispatcher;
use crate::image::error::ImageServiceError;
use crate::image::filestore::{self, FileAction, FileOp, FileOpView, FileStore, ScanEntry};
use crate::image::{
    Command, FileCommand, ImageInfo, ImageState, OrchestratorCommand, PulledImageData, PulledLayer,
};
use crate::rpc::{Code, RpcStatus};
use crate::table::TextMap;
use crate::text;
use crate::vm::ch_adapter::{build_vm_config, ChVmConfig, VmDirs};
use crate::vm::VmConfig;
use vstd::prelude::*;

verus! {

/// The archives that changes unpack, in order, and where.
pub open spec fn unpacked(ops: Seq<FileOp>) -> Seq<(Seq<u8>, Seq<char>)>
    decreases ops.len(),
{
    if ops.len() == 0 {
        Seq::empty()
    } else {
        match ops.last() {
            FileOp::Unpack { data, into } => unpacked(ops.drop_last()).push((data@, into@)),
            _ => unpacked(ops.drop_last()),
        }
    }
}

/// What changes write to a file, in order.
pub open spec fn written(ops: Seq<FileOp>, file: Seq<char>) -> Seq<Seq<u8>>
    decreases ops.len(),
{
    if ops.len() == 0 {
        Seq::empty()
    } else {
        match ops.last() {
            FileOp::Write { path, data } if path@ == file => written(ops.drop_last(), file).push(
                data@,
            ),
            _ => written(ops.drop_last(), file),
        }
    }
}

/// The data of the layers of one media type or another, in order.
pub open spec fn data_of(layers: Seq<PulledLayer>, one: Seq<char>, other: Seq<char>) -> Seq<
    Seq<u8>,
>
    decreases layers.len(),
{
    if layers.len() == 0 {
        Seq::empty()
    } else if layers.last().media_type@ == one || layers.last().media_type@ == other {
        data_of(layers.drop_last(), one, other).push(layers.last().data@)
    } else {
        data_of(layers.drop_last(), one, other)
    }
}

spec fn unpacked_views(ops: Seq<FileOpView>) -> Seq<(Seq<u8>, Seq<char>)>
    decreases ops.len(),
{
    if ops.len() == 0 {
        Seq::empty()
    } else {
        match ops.last() {
            FileOpView::Unpack { data, into } => unpacked_views(ops.drop_last()).push((data, into)),
            _ => unpacked_views(ops.drop_last()),
        }
    }
}

spec fn written_views(ops: Seq<FileOpView>, file: Seq<char>) -> Seq<Seq<u8>>
    decreases ops.len(),
{
    if ops.len() == 0 {
        Seq::empty()
    } else {
        match ops.last() {
            FileOpView::Write { path, data } if path == file => written_views(
                ops.drop_last(),
                file,
            ).push(data),
            _ => written_views(ops.drop_last(), file),
        }
    }
}

proof fn lemma_same_content(ops: Seq<FileOp>, file: Seq<char>)
    ensures
        unpacked(ops) == unpacked_views(filestore::op_views(ops)),
        written(ops, file) == written_views(filestore::op_views(ops), file),
    decreases ops.len(),
{
    if ops.len() > 0 {
        lemma_same_content(ops.drop_last(), file);
        let v = filestore::op_views(ops);
        assert(v.drop_last() =~= filestore::op_views(ops.drop_last()));
        assert(v.last() == ops.last()@);
    }
}

proof fn lemma_added_content(a: Seq<FileOpView>, b: Seq<FileOpView>, file: Seq<char>)
    ensures
        unpacked_views(a + b) == unpacked_views(a) + unpacked_views(b),
        written_views(a + b, file) == written_views(a, file) + written_views(b, file),
    decreases b.len(),
{
    if b.len() > 0 {
        lemma_added_content(a, b.drop_last(), file);
        assert((a + b).drop_last() =~= a + b.drop_last());
        assert((a + b).last() == b.last());
        assert(unpacked_views(a + b) =~= unpacked_views(a) + unpacked_views(b));
        assert(written_views(a + b, file) =~= written_views(a, file) + written_views(b, file));
    } else {
        assert(a + b =~= a);
        assert(unpacked_views(a + b) =~= unpacked_views(a) + unpacked_views(b));
        assert(written_views(a + b, file) =~= written_views(a, file) + written_views(b, file));
    }
}

/// Archives that are all unpacked into one directory.
pub open spec fn into(archives: Seq<Seq<u8>>, dir: Seq<char>) -> Seq<(Seq<u8>, Seq<char>)> {
    archives.map_values(|data: Seq<u8>| (data, dir))
}

proof fn lemma_layer_content(dir: Seq<char>, layer: PulledLayer)
    requires
        dir.len() > 0 && dir.last() != '/',
    ensures
        ({
            let plan = filestore::layer_plan(dir, layer);
            let one = data_of(
                seq![layer],
                "application/vnd.oci.image.layer.v1.tar+gzip"@,
                "application/vnd.docker.image.rootfs.diff.tar.gzip"@,
            );
            &&& unpacked_views(plan) == into(one, dir + "/rootfs"@)
            &&& written_views(plan, dir + "/disk.image"@) == data_of(
                seq![layer],
                "application/vnd.ironcore.image.rootfs.v1alpha1.rootfs"@,
                "application/vnd.ironcore.image.rootfs.v1alpha1.rootfs"@,
            )
            &&& written_views(plan, dir + "/initramfs"@) == data_of(
                seq![layer],
                "application/vnd.ironcore.image.initramfs.v1alpha1.initramfs"@,
                "application/vnd.ironcore.image.initramfs.v1alpha1.initramfs"@,
            )
            &&& written_views(plan, dir + "/vmlinuz"@) == data_of(
                seq![layer],
                "application/vnd.ironcore.image.vmlinuz.v1alpha1.vmlinuz"@,
                "application/vnd.ironcore.image.vmlinuz.v1alpha1.vmlinuz"@,
            )
            &&& written_views(plan, dir + "/config.json"@) == Seq::<Seq<u8>>::empty()
        }),
{
    reveal_with_fuel(unpacked_views, 3);
    reveal_with_fuel(written_views, 3);
    lemma_paths(dir);
    lemma_media_types();
    reveal_with_fuel(data_of, 2);
    let plan = filestore::layer_plan(dir, layer);
    let root = dir + "/rootfs"@;
    assert(seq![layer].drop_last() =~= Seq::<PulledLayer>::empty());
    assert(seq![layer].last() == layer);
    assert(into(Seq::<Seq<u8>>::empty(), root) =~= Seq::<(Seq<u8>, Seq<char>)>::empty());
    assert(into(seq![layer.data@], root) =~= seq![(layer.data@, root)]);
    assert(Seq::<Seq<u8>>::empty().push(layer.data@) =~= seq![layer.data@]);
    if plan.len() == 2 {
        assert(plan.drop_last() =~= seq![plan[0]]);
        assert(plan.drop_last().drop_last() =~= Seq::<FileOpView>::empty());
        assert(unpacked_views(plan) =~= seq![(layer.data@, root)]);
    } else if plan.len() == 1 {
        assert(plan.drop_last() =~= Seq::<FileOpView>::empty());
    }
}

/// The media types of layers are five different ones.
proof fn lemma_media_types()
    ensures
        ({
            let oci = "application/vnd.oci.image.layer.v1.tar+gzip"@;
            let docker = "application/vnd.docker.image.rootfs.diff.tar.gzip"@;
            let disk = "application/vnd.ironcore.image.rootfs.v1alpha1.rootfs"@;
            let initramfs = "application/vnd.ironcore.image.initramfs.v1alpha1.initramfs"@;
            let kernel = "application/vnd.ironcore.image.vmlinuz.v1alpha1.vmlinuz"@;
            &&& oci != disk && oci != initramfs && oci != kernel
            &&& docker != disk && docker != initramfs && docker != kernel
            &&& disk != initramfs && disk != kernel && initramfs != kernel
        }),
{
    reveal_strlit("application/vnd.oci.image.layer.v1.tar+gzip");
    reveal_strlit("application/vnd.docker.image.rootfs.diff.tar.gzip");
    reveal_strlit("application/vnd.ironcore.image.rootfs.v1alpha1.rootfs");
    reveal_strlit("application/vnd.ironcore.image.initramfs.v1alpha1.initramfs");
    reveal_strlit("application/vnd.ironcore.image.vmlinuz.v1alpha1.vmlinuz");
    assert("application/vnd.oci.image.layer.v1.tar+gzip"@.len() == 43);
    assert("application/vnd.docker.image.rootfs.diff.tar.gzip"@.len() == 49);
    assert("application/vnd.ironcore.image.rootfs.v1alpha1.rootfs"@.len() == 53);
    assert("application/vnd.ironcore.image.initramfs.v1alpha1.initramfs"@.len() == 59);
    assert("application/vnd.ironcore.image.vmlinuz.v1alpha1.vmlinuz"@.len() == 55);
}

/// The paths that the store uses below a directory, and that no two are the same.
proof fn lemma_paths(dir: Seq<char>)
    requires
        dir.len() > 0 && dir.last() != '/',
    ensures
        text::joined(dir, "rootfs"@) == dir + "/rootfs"@,
        text::joined(dir, "disk.image"@) == dir + "/disk.image"@,
        text::joined(dir, "initramfs"@) == dir + "/initramfs"@,
        text::joined(dir, "vmlinuz"@) == dir + "/vmlinuz"@,
        text::joined(dir, "config.json"@) == dir + "/config.json"@,
        text::joined(dir, "metadata.json"@) == dir + "/metadata.json"@,
        dir + "/disk.image"@ != dir + "/initramfs"@,
        dir + "/disk.image"@ != dir + "/vmlinuz"@,
        dir + "/disk.image"@ != dir + "/config.json"@,
        dir + "/initramfs"@ != dir + "/vmlinuz"@,
        dir + "/initramfs"@ != dir + "/config.json"@,
        dir + "/vmlinuz"@ != dir + "/config.json"@,
{
    reveal_strlit("rootfs");
    reveal_strlit("disk.image");
    reveal_strlit("initramfs");
    reveal_strlit("vmlinuz");
    reveal_strlit("config.json");
    reveal_strlit("metadata.json");
    reveal_strlit("/rootfs");
    reveal_strlit("/disk.image");
    reveal_strlit("/initramfs");
    reveal_strlit("/vmlinuz");
    reveal_strlit("/config.json");
    reveal_strlit("/metadata.json");
    assert(text::joined(dir, "rootfs"@) =~= dir + "/rootfs"@);
    assert(text::joined(dir, "disk.image"@) =~= dir + "/disk.image"@);
    assert(text::joined(dir, "initramfs"@) =~= dir + "/initramfs"@);
    assert(text::joined(dir, "vmlinuz"@) =~= dir + "/vmlinuz"@);
    assert(text::joined(dir, "config.json"@) =~= dir + "/config.json"@);
    assert(text::joined(dir, "metadata.json"@) =~= dir + "/metadata.json"@);
    let n = dir.len() as int + 1;
    assert((dir + "/disk.image"@)[n] == 'd');
    assert((dir + "/initramfs"@)[n] == 'i');
    assert((dir + "/vmlinuz"@)[n] == 'v');
    assert((dir + "/config.json"@)[n] == 'c');
}

proof fn lemma_data_of_more(layers: Seq<PulledLayer>, one: Seq<char>, other: Seq<char>)
    requires
        layers.len() > 0,
    ensures
        data_of(layers, one, other) == data_of(layers.drop_last(), one, other) + data_of(
            seq![layers.last()],
            one,
            other,
        ),
{
    let last = seq![layers.last()];
    assert(last.drop_last() =~= Seq::<PulledLayer>::empty());
    assert(data_of(last.drop_last(), one, other) == Seq::<Seq<u8>>::empty());
    assert(data_of(layers, one, other) =~= data_of(layers.drop_last(), one, other) + data_of(
        last,
        one,
        other,
    ));
}

proof fn lemma_layers_content(dir: Seq<char>, layers: Seq<PulledLayer>)
    requires
        dir.len() > 0 && dir.last() != '/',
    ensures
        ({
            let plan = filestore::layers_plan(dir, layers);
            &&& unpacked_views(plan) == into(
                data_of(
                    layers,
                    "application/vnd.oci.image.layer.v1.tar+gzip"@,
                    "application/vnd.docker.image.rootfs.diff.tar.gzip"@,
                ),
                dir + "/rootfs"@,
            )
            &&& written_views(plan, dir + "/disk.image"@) == data_of(
                layers,
                "application/vnd.ironcore.image.rootfs.v1alpha1.rootfs"@,
                "application/vnd.ironcore.image.rootfs.v1alpha1.rootfs"@,
            )
            &&& written_views(plan, dir + "/initramfs"@) == data_of(
                layers,
                "application/vnd.ironcore.image.initramfs.v1alpha1.initramfs"@,
                "application/vnd.ironcore.image.initramfs.v1alpha1.initramfs"@,
            )
            &&& written_views(plan, dir + "/vmlinuz"@) == data_of(
                layers,
                "application/vnd.ironcore.image.vmlinuz.v1alpha1.vmlinuz"@,
                "application/vnd.ironcore.image.vmlinuz.v1alpha1.vmlinuz"@,
            )
            &&& written_views(plan, dir + "/config.json"@) == Seq::<Seq<u8>>::empty()
        }),
    decreases layers.len(),
{
    let oci = "application/vnd.oci.image.layer.v1.tar+gzip"@;
    let docker = "application/vnd.docker.image.rootfs.diff.tar.gzip"@;
    let disk = "application/vnd.ironcore.image.rootfs.v1alpha1.rootfs"@;
    let initramfs = "application/vnd.ironcore.image.initramfs.v1alpha1.initramfs"@;
    let kernel = "application/vnd.ironcore.image.vmlinuz.v1alpha1.vmlinuz"@;
    let root = dir + "/rootfs"@;
    if layers.len() > 0 {
        let init = layers.drop_last();
        let last = layers.last();
        lemma_layers_content(dir, init);
        lemma_layer_content(dir, last);
        let p = filestore::layers_plan(dir, init);
        let q = filestore::layer_plan(dir, last);
        lemma_added_content(p, q, dir + "/disk.image"@);
        lemma_added_content(p, q, dir + "/initramfs"@);
        lemma_added_content(p, q, dir + "/vmlinuz"@);
        lemma_added_content(p, q, dir + "/config.json"@);
        lemma_data_of_more(layers, oci, docker);
        lemma_data_of_more(layers, disk, disk);
        lemma_data_of_more(layers, initramfs, initramfs);
        lemma_data_of_more(layers, kernel, kernel);
        assert(into(data_of(layers, oci, docker), root) =~= into(data_of(init, oci, docker), root)
            + into(data_of(seq![last], oci, docker), root));
        assert(written_views(p + q, dir + "/config.json"@) =~= Seq::<Seq<u8>>::empty());
    } else {
        assert(into(data_of(layers, oci, docker), root) =~= unpacked_views(
            filestore::layers_plan(dir, layers),
        ));
    }
}

/// No content of an image is lost or changed by storing it: the layers of a file system
/// tree are unpacked in order into the root directory of the image, the disk, the initial
/// file system and the kernel are written to files of their own as they are, and so is the
/// configuration. Nothing else is unpacked or written there.
pub proof fn stored_content_is_that_of_the_image(
    dir: &str,
    image: PulledImageData,
    image_ref: &str,
    ops: Vec<FileOp>,
)
    requires
        dir@.len() > 0 && dir@.last() != '/',
        call_ensures(FileStore::store_image_impl, (dir, image, image_ref), ops),
    ensures
        unpacked(ops@) == into(
            data_of(
                image.layers@,
                "application/vnd.oci.image.layer.v1.tar+gzip"@,
                "application/vnd.docker.image.rootfs.diff.tar.gzip"@,
            ),
            dir@ + "/rootfs"@,
        ),
        written(ops@, dir@ + "/disk.image"@) == data_of(
            image.layers@,
            "application/vnd.ironcore.image.rootfs.v1alpha1.rootfs"@,
            "application/vnd.ironcore.image.rootfs.v1alpha1.rootfs"@,
        ),
        written(ops@, dir@ + "/initramfs"@) == data_of(
            image.layers@,
            "application/vnd.ironcore.image.initramfs.v1alpha1.initramfs"@,
            "application/vnd.ironcore.image.initramfs.v1alpha1.initramfs"@,
        ),
        written(ops@, dir@ + "/vmlinuz"@) == data_of(
            image.layers@,
            "application/vnd.ironcore.image.vmlinuz.v1alpha1.vmlinuz"@,
            "application/vnd.ironcore.image.vmlinuz.v1alpha1.vmlinuz"@,
        ),
        written(ops@, dir@ + "/config.json"@) == seq![image.config@],
{
    reveal_with_fuel(unpacked_views, 3);
    reveal_with_fuel(written_views, 3);
    let d = dir@;
    let plan = filestore::layers_plan(d, image.layers@);
    let first = seq![FileOpView::CreateDir(d)];
    let last = seq![
        FileOpView::Write { path: text::joined(d, "config.json"@), data: image.config@ },
        FileOpView::WriteMetadata { path: text::joined(d, "metadata.json"@), image_ref: image_ref@ },
    ];
    let all = filestore::op_views(ops@);
    assert(all =~= first + plan + last);
    lemma_layers_content(d, image.layers@);
    lemma_paths(d);
    assert(first.drop_last() =~= Seq::<FileOpView>::empty());
    assert(last.drop_last() =~= seq![last[0]]);
    assert(last.drop_last().drop_last() =~= Seq::<FileOpView>::empty());
    assert(unpacked_views(first) =~= Seq::<(Seq<u8>, Seq<char>)>::empty());
    assert(unpacked_views(last.drop_last()) =~= Seq::<(Seq<u8>, Seq<char>)>::empty());
    assert(unpacked_views(last) =~= Seq::<(Seq<u8>, Seq<char>)>::empty());
    lemma_part(ops@, first, plan, last, d + "/disk.image"@);
    lemma_part(ops@, first, plan, last, d + "/initramfs"@);
    lemma_part(ops@, first, plan, last, d + "/vmlinuz"@);
    lemma_part(ops@, first, plan, last, d + "/config.json"@);
    assert(written_views(last.drop_last().drop_last(), d + "/config.json"@) == Seq::<
        Seq<u8>,
    >::empty());
    assert(written_views(last.drop_last(), d + "/config.json"@) =~= seq![image.config@]);
    assert(unpacked(ops@) =~= unpacked_views(plan));
    assert(written(ops@, d + "/disk.image"@) =~= written_views(plan, d + "/disk.image"@));
    assert(written(ops@, d + "/initramfs"@) =~= written_views(plan, d + "/initramfs"@));
    assert(written(ops@, d + "/vmlinuz"@) =~= written_views(plan, d + "/vmlinuz"@));
    assert(written(ops@, d + "/config.json"@) =~= seq![image.config@]);
}

proof fn lemma_part(
    ops: Seq<FileOp>,
    first: Seq<FileOpView>,
    plan: Seq<FileOpView>,
    last: Seq<FileOpView>,
    file: Seq<char>,
)
    requires
        filestore::op_views(ops) == first + plan + last,
        first.len() == 1,
        first[0] is CreateDir,
        last.len() == 2,
        last[0] is Write,
        last[1] is WriteMetadata,
    ensures
        unpacked(ops) == unpacked_views(first) + unpacked_views(plan) + unpacked_views(last),
        written(ops, file) == written_views(plan, file) + written_views(last, file),
        written_views(last, file) == written_views(last.drop_last(), file),
        last[0]->Write_path != file ==> written_views(last, file) == Seq::<Seq<u8>>::empty(),
{
    reveal_with_fuel(unpacked_views, 3);
    reveal_with_fuel(written_views, 3);
    lemma_same_content(ops, file);
    lemma_added_content(first + plan, last, file);
    lemma_added_content(first, plan, file);
    assert(first.drop_last() =~= Seq::<FileOpView>::empty());
    assert(written_views(first, file) =~= Seq::<Seq<u8>>::empty());
    assert(last.drop_last().drop_last() =~= Seq::<FileOpView>::empty());
    assert(written_views(last.drop_last().drop_last(), file) == Seq::<Seq<u8>>::empty());
    assert(written(ops, file) =~= written_views(plan, file) + written_views(last, file));
}

/// A directory is there before anything is put into it, and what an image comes from is
/// noted at the end, once all else is in place: a store that is broken off leaves no image
/// that a scan would find.
pub proof fn metadata_comes_last(
    dir: &str,
    image: PulledImageData,
    image_ref: &str,
    ops: Vec<FileOp>,
)
    requires
        dir@.len() > 0 && dir@.last() != '/',
        call_ensures(FileStore::store_image_impl, (dir, image, image_ref), ops),
    ensures
        ops@.len() >= 3,
        ops@[0] matches FileOp::CreateDir(path) && path@ == dir@,
        ops@.last() matches FileOp::WriteMetadata { path, image_ref: noted } && path@ == dir@
            + "/metadata.json"@ && noted@ == image_ref@,
        forall|i: int| 0 <= i < ops@.len() - 1 ==> !((#[trigger] ops@[i]) is WriteMetadata),
        forall|i: int|
            #![trigger ops@[i]]
            0 <= i < ops@.len() && ops@[i] is Unpack ==> i > 0 && (ops@[i - 1] matches
                FileOp::EnsureDir(path) && path@ == ops@[i]->into@),
{
    let d = dir@;
    let all = filestore::op_views(ops@);
    let plan = filestore::layers_plan(d, image.layers@);
    lemma_paths(d);
    lemma_plan_shape(d, image.layers@);
    let n = plan.len() as int;
    assert(all.len() == n + 3);
    assert(all[0] == ops@[0]@);
    assert(all[n + 2] == ops@[n + 2]@);
    assert forall|i: int| 0 <= i < ops@.len() - 1 implies !((#[trigger] ops@[i])
        is WriteMetadata) by {
        assert(all[i] == ops@[i]@);
        if 1 <= i <= n {
            assert(all[i] == plan[i - 1]);
        }
    }
    assert forall|i: int|
        #![trigger ops@[i]]
        0 <= i < ops@.len() && ops@[i] is Unpack implies i > 0 && (ops@[i - 1] matches
        FileOp::EnsureDir(path) && path@ == ops@[i]->into@) by {
        assert(all[i] == ops@[i]@);
        assert(1 <= i <= n);
        assert(all[i] == plan[i - 1]);
        assert(plan[i - 2] is EnsureDir);
        assert(all[i - 1] == plan[i - 2]);
        assert(all[i - 1] == ops@[i - 1]@);
    }
}

proof fn lemma_plan_shape(dir: Seq<char>, layers: Seq<PulledLayer>)
    ensures
        ({
            let plan = filestore::layers_plan(dir, layers);
            &&& forall|i: int|
                0 <= i < plan.len() ==> !((#[trigger] plan[i]) is WriteMetadata)
            &&& forall|i: int|
                #![trigger plan[i]]
                0 <= i < plan.len() && plan[i] is Unpack ==> i > 0 && (plan[i - 1] matches
                    FileOpView::EnsureDir(path) && path == plan[i]->into)
        }),
    decreases layers.len(),
{
    if layers.len() > 0 {
        lemma_plan_shape(dir, layers.drop_last());
        let p = filestore::layers_plan(dir, layers.drop_last());
        let q = filestore::layer_plan(dir, layers.last());
        let plan = filestore::layers_plan(dir, layers);
        assert forall|i: int| 0 <= i < plan.len() implies !((#[trigger] plan[i])
            is WriteMetadata) by {
            if i < p.len() {
                assert(plan[i] == p[i]);
            } else {
                assert(plan[i] == q[i - p.len()]);
            }
        }
        assert forall|i: int|
            #![trigger plan[i]]
            0 <= i < plan.len() && plan[i] is Unpack implies i > 0 && (plan[i - 1] matches
            FileOpView::EnsureDir(path) && path == plan[i]->into) by {
            if i < p.len() {
                assert(plan[i] == p[i]);
                assert(plan[i - 1] == p[i - 1]);
            } else {
                let k = i - p.len();
                assert(plan[i] == q[k]);
                assert(k == 1);
                assert(plan[i - 1] == q[0]);
            }
        }
    }
}

/// The store keeps to the directory of the image: it makes that directory and the root
/// directory in it, and writes five files below it at most.
pub proof fn store_keeps_to_its_directory(
    dir: &str,
    image: PulledImageData,
    image_ref: &str,
    ops: Vec<FileOp>,
    i: int,
)
    requires
        dir@.len() > 0 && dir@.last() != '/',
        call_ensures(FileStore::store_image_impl, (dir, image, image_ref), ops),
        0 <= i < ops@.len(),
    ensures
        match ops@[i] {
            FileOp::CreateDir(path) => i == 0 && path@ == dir@,
            FileOp::EnsureDir(path) => path@ == dir@ + "/rootfs"@,
            FileOp::Unpack { data: _, into } => into@ == dir@ + "/rootfs"@,
            FileOp::Write { path, data: _ } => path@ == dir@ + "/disk.image"@ || path@ == dir@
                + "/initramfs"@ || path@ == dir@ + "/vmlinuz"@ || path@ == dir@ + "/config.json"@,
            FileOp::WriteMetadata { path, image_ref: _ } => path@ == dir@ + "/metadata.json"@,
        },
{
    let all = filestore::op_views(ops@);
    let plan = filestore::layers_plan(dir@, image.layers@);
    lemma_paths(dir@);
    assert(all[i] == ops@[i]@);
    let n = plan.len() as int;
    assert(all.len() == n + 3);
    if 1 <= i <= n {
        assert(all[i] == plan[i - 1]);
        lemma_layer_paths(dir@, image.layers@, i - 1);
    }
}

proof fn lemma_layer_paths(dir: Seq<char>, layers: Seq<PulledLayer>, i: int)
    requires
        0 <= i < filestore::layers_plan(dir, layers).len(),
    ensures
        match filestore::layers_plan(dir, layers)[i] {
            FileOpView::CreateDir(_) => false,
            FileOpView::EnsureDir(path) => path == text::joined(dir, "rootfs"@),
            FileOpView::Unpack { data: _, into } => into == text::joined(dir, "rootfs"@),
            FileOpView::Write { path, data: _ } => path == text::joined(dir, "disk.image"@) || path
                == text::joined(dir, "initramfs"@) || path == text::joined(dir, "vmlinuz"@),
            FileOpView::WriteMetadata { path: _, image_ref: _ } => false,
        },
    decreases layers.len(),
{
    let p = filestore::layers_plan(dir, layers.drop_last());
    let q = filestore::layer_plan(dir, layers.last());
    if i < p.len() {
        lemma_layer_paths(dir, layers.drop_last(), i);
        assert(filestore::layers_plan(dir, layers)[i] == p[i]);
    } else {
        assert(filestore::layers_plan(dir, layers)[i] == q[i - p.len()]);
    }
}

/// An image is stored in a directory of its own below the directory of images, and the same
/// directory is removed with it; a virtual machine boots from the disk in that directory,
/// and a container is created from it.
pub proof fn images_are_used_where_they_are_stored(
    image_uuid: &str,
    store: FileCommand,
    delete: FileCommand,
    stored: FileAction,
    deleted: FileAction,
    vm_id: &str,
    vm: VmConfig,
    dirs: &VmDirs,
    ch: ChVmConfig,
    container_id: u128,
    image: u128,
    config: &ContainerConfig,
    created: worker::CreateAction,
)
    requires
        image_uuid@ == ids::hyphenated(image),
        store matches FileCommand::StoreImage { image_uuid: u, image_ref: _, image_data: _ } && u@
            == image_uuid@,
        delete matches FileCommand::DeleteImage { image_uuid: u } && u@ == image_uuid@,
        call_ensures(FileStore::handle_command, (store,), stored),
        call_ensures(FileStore::handle_command, (delete,), deleted),
        call_ensures(build_vm_config, (vm_id, vm, image_uuid, dirs), Ok(ch)),
        call_ensures(
            handle_create_container,
            (container_id, image, config, worker::CreateProgress::ImageWaited(Ok(()))),
            created,
        ),
    ensures
        ({
            let dir = "/var/lib/feos/images/"@ + image_uuid@;
            &&& stored matches FileAction::Apply(ops) && (ops@[0] matches FileOp::CreateDir(path)
                && path@ == dir)
            &&& stored matches FileAction::Apply(ops) && (store matches FileCommand::StoreImage {
                image_uuid: _,
                image_ref: _,
                image_data,
            } && written(ops@, ch.disk_path@) == data_of(
                image_data.layers@,
                "application/vnd.ironcore.image.rootfs.v1alpha1.rootfs"@,
                "application/vnd.ironcore.image.rootfs.v1alpha1.rootfs"@,
            ))
            &&& deleted matches FileAction::RemoveDir(path) && path@ == dir
            &&& ch.disk_path@ == dir + "/disk.image"@
            &&& created matches worker::CreateAction::CreateInRuntime {
                container_id: _,
                bundle_path,
                config: _,
            } && bundle_path@ == dir
        }),
{
    reveal_strlit("/var/lib/feos/images/");
    reveal_strlit("/var/lib/feos/images");
    reveal_strlit("/");
    let dir = "/var/lib/feos/images/"@ + image_uuid@;
    assert(image_uuid@[0] == text::digit_char(ids::nibble(image, 0)));
    assert(image_uuid@[0] != '/');
    assert(image_uuid@[35] == text::digit_char(ids::nibble(image, 31)));
    assert(text::joined("/var/lib/feos/images"@, image_uuid@) =~= dir);
    assert(ch.disk_path@ =~= dir + "/disk.image"@);
    assert(dir.last() == image_uuid@[35]);
    match (store, stored) {
        (FileCommand::StoreImage { image_uuid: _, image_ref, image_data }, FileAction::Apply(ops)) => {
            let all = filestore::op_views(ops@);
            assert(all == filestore::store_plan(dir, image_data, image_ref@));
            assert(all.len() >= 3);
            assert(all[0] == ops@[0]@);
            lemma_stored(dir, image_data, image_ref@, ops@);
        },
        _ => {},
    }
}

proof fn lemma_stored(dir: Seq<char>, image: PulledImageData, image_ref: Seq<char>, ops: Seq<FileOp>)
    requires
        dir.len() > 0 && dir.last() != '/',
        filestore::op_views(ops) == filestore::store_plan(dir, image, image_ref),
    ensures
        written(ops, dir + "/disk.image"@) == data_of(
            image.layers@,
            "application/vnd.ironcore.image.rootfs.v1alpha1.rootfs"@,
            "application/vnd.ironcore.image.rootfs.v1alpha1.rootfs"@,
        ),
{
    let plan = filestore::layers_plan(dir, image.layers@);
    let first = seq![FileOpView::CreateDir(dir)];
    let last = seq![
        FileOpView::Write { path: text::joined(dir, "config.json"@), data: image.config@ },
        FileOpView::WriteMetadata { path: text::joined(dir, "metadata.json"@), image_ref },
    ];
    lemma_layers_content(dir, image.layers@);
    lemma_paths(dir);
    lemma_part(ops, first, plan, last, dir + "/disk.image"@);
    assert(written(ops, dir + "/disk.image"@) =~= written_views(plan, dir + "/disk.image"@));
}

/// Whether an entry of the store is a complete image under a name: a directory of that name
/// with readable metadata, and with a disk or a file system tree.
pub open spec fn is_complete(entry: ScanEntry, name: Seq<char>) -> bool {
    &&& entry.is_dir
    &&& entry.name is Some
    &&& entry.name->Some_0@ == name
    &&& entry.has_metadata
    &&& entry.has_disk_image || entry.has_rootfs
    &&& entry.image_ref is Some
}

/// A scan finds exactly the images that are complete, each under its name, as ready and
/// with the reference that its metadata names; what is incomplete is not found.
pub proof fn scan_finds_the_complete_images(entries: Vec<ScanEntry>, store: TextMap<ImageInfo>)
    requires
        call_ensures(FileStore::scan_images_impl, (entries,), store),
    ensures
        forall|name: Seq<char>| #[trigger]
            store@.dom().contains(name) <==> exists|i: int|
                0 <= i < entries@.len() && is_complete(#[trigger] entries@[i], name),
        forall|name: Seq<char>| #[trigger]
            store@.dom().contains(name) ==> {
                &&& store@[name].image_uuid@ == name
                &&& store@[name].state == ImageState::Ready
                &&& exists|i: int|
                    0 <= i < entries@.len() && is_complete(#[trigger] entries@[i], name)
                        && entries@[i].image_ref->Some_0 == store@[name].image_ref
            },
{
    lemma_scan(entries@);
}

proof fn lemma_scan(entries: Seq<ScanEntry>)
    ensures
        forall|name: Seq<char>| #[trigger]
            filestore::scanned(entries).dom().contains(name) <==> exists|i: int|
                0 <= i < entries.len() && is_complete(#[trigger] entries[i], name),
        forall|name: Seq<char>| #[trigger]
            filestore::scanned(entries).dom().contains(name) ==> {
                let info = filestore::scanned(entries)[name];
                &&& info.image_uuid@ == name
                &&& info.state == ImageState::Ready
                &&& exists|i: int|
                    0 <= i < entries.len() && is_complete(#[trigger] entries[i], name)
                        && entries[i].image_ref->Some_0 == info.image_ref
            },
    decreases entries.len(),
{
    if entries.len() > 0 {
        let init = entries.drop_last();
        let last = entries.last();
        lemma_scan(init);
        let before = filestore::scanned(init);
        let now = filestore::scanned(entries);
        let n = entries.len() - 1;
        assert forall|name: Seq<char>| #[trigger] now.dom().contains(name) <==> exists|i: int|
            0 <= i < entries.len() && is_complete(#[trigger] entries[i], name) by {
            if now.dom().contains(name) {
                if is_complete(last, name) {
                    assert(is_complete(entries[n], name));
                } else {
                    assert(before.dom().contains(name));
                    let i = choose|i: int|
                        0 <= i < init.len() && is_complete(#[trigger] init[i], name);
                    assert(is_complete(entries[i], name));
                }
            }
            if exists|i: int| 0 <= i < entries.len() && is_complete(#[trigger] entries[i], name) {
                let i = choose|i: int|
                    0 <= i < entries.len() && is_complete(#[trigger] entries[i], name);
                if i < n {
                    assert(is_complete(init[i], name));
                    assert(before.dom().contains(name));
                }
            }
        }
        assert forall|name: Seq<char>| #[trigger] now.dom().contains(name) implies ({
            let info = now[name];
            &&& info.image_uuid@ == name
            &&& info.state == ImageState::Ready
            &&& exists|i: int|
                0 <= i < entries.len() && is_complete(#[trigger] entries[i], name)
                    && entries[i].image_ref->Some_0 == info.image_ref
        }) by {
            if is_complete(last, name) {
                assert(is_complete(entries[n], name) && entries[n].image_ref->Some_0
                    == now[name].image_ref);
            } else {
                assert(before.dom().contains(name));
                let i = choose|i: int|
                    0 <= i < init.len() && is_complete(#[trigger] init[i], name)
                        && init[i].image_ref->Some_0 == before[name].image_ref;
                assert(is_complete(entries[i], name));
            }
        }
    }
}

/// Each command of the image service is handed on as what it is, with what it names.
pub proof fn image_commands_are_handed_on(cmd: Command, r: OrchestratorCommand)
    requires
        call_ensures(ImageServiceDispatcher::handle_command, (cmd,), r),
    ensures
        cmd matches Command::PullImage(req) ==> (r matches OrchestratorCommand::PullImage {
            image_ref,
        } && image_ref@ == req.image_ref@),
        cmd matches Command::DeleteImage(req) ==> (r matches OrchestratorCommand::DeleteImage {
            image_uuid,
        } && image_uuid@ == req.image_uuid@),
        cmd matches Command::WatchImageStatus(req) ==> (
        r matches OrchestratorCommand::WatchImageStatus { image_uuid } && image_uuid@
            == req.image_uuid@),
        cmd is ListImages <==> r is ListImages,
{
}

/// What a client is answered of the errors of the image service: an image that does not
/// exist is not found, a name that is none is the client's fault, what the registry does
/// not give may be tried again, and all else is the service's own fault.
pub proof fn image_errors_are_told_apart(e: ImageServiceError, status: RpcStatus)
    requires
        call_ensures(ImageServiceError::into_status, (e,), status),
    ensures
        status.code == Code::NotFound <==> e is NotFound,
        status.code == Code::InvalidArgument <==> e is OciParse,
        status.code == Code::Unavailable <==> e is OciPull || e is MissingLayer,
        status.code == Code::Internal <==> e is Storage || e is Internal,
        e is OciPull ==> status.message@ == "Failed to pull OCI image"@,
        e is OciParse ==> status.message@ == "Failed to parse OCI image reference"@,
        e matches ImageServiceError::MissingLayer(m) ==> status.message@
            == "Required image layer '"@ + m@ + "' not found in manifest"@,
        e is Storage ==> status.message@ == "A file storage error occurred"@,
        e matches ImageServiceError::NotFound(id) ==> status.message@ == "Image with ID '"@ + id@
            + "' not found"@,
        e matches ImageServiceError::Internal(m) ==> status.message@
            == "An internal orchestrator error occurred: "@ + m@,
{
}

} // verus!
