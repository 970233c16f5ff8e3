use feos::image::dispatcher::ImageServiceDispatcher;
use feos::image::error::ImageServiceError;
use feos::image::filestore::{FileAction, FileOp, FileStore, ScanEntry, ROOTFS_MEDIA_TYPE};
use feos::image::{
    Command, DeleteImageRequest, FileCommand, ImageState, OrchestratorCommand, PullImageRequest,
    PulledImageData, PulledLayer, WatchImageStatusRequest,
};
use feos::rpc::Code;

fn layer(media_type: &str) -> PulledLayer {
    PulledLayer { media_type: media_type.to_string(), data: vec![1, 2, 3] }
}

#[test]
fn commands_go_to_the_orchestrator() {
    let pull = Command::PullImage(PullImageRequest { image_ref: "r".to_string() });
    match ImageServiceDispatcher::handle_command(pull) {
        OrchestratorCommand::PullImage { image_ref } => assert_eq!(image_ref, "r"),
        _ => panic!(),
    }
    let watch =
        Command::WatchImageStatus(WatchImageStatusRequest { image_uuid: "u".to_string() });
    assert!(matches!(
        ImageServiceDispatcher::handle_command(watch),
        OrchestratorCommand::WatchImageStatus { .. }
    ));
    assert!(matches!(
        ImageServiceDispatcher::handle_command(Command::ListImages),
        OrchestratorCommand::ListImages
    ));
    let delete = Command::DeleteImage(DeleteImageRequest { image_uuid: "u".to_string() });
    match ImageServiceDispatcher::handle_command(delete) {
        OrchestratorCommand::DeleteImage { image_uuid } => assert_eq!(image_uuid, "u"),
        _ => panic!(),
    }
}

#[test]
fn images_of_machines_become_files() {
    let data = PulledImageData {
        config: b"{}".to_vec(),
        layers: vec![layer(ROOTFS_MEDIA_TYPE), layer("text/plain")],
    };
    let ops = FileStore::store_image_impl("/images/u", data, "ref");
    assert_eq!(ops.len(), 4);
    assert!(matches!(&ops[0], FileOp::CreateDir(p) if p == "/images/u"));
    assert!(matches!(&ops[1], FileOp::Write { path, data }
        if path == "/images/u/disk.image" && data == &vec![1, 2, 3]));
    assert!(matches!(&ops[2], FileOp::Write { path, data }
        if path == "/images/u/config.json" && data == b"{}"));
    assert!(matches!(&ops[3], FileOp::WriteMetadata { path, image_ref }
        if path == "/images/u/metadata.json" && image_ref == "ref"));
}

#[test]
fn images_of_containers_are_unpacked() {
    for media_type in [
        "application/vnd.oci.image.layer.v1.tar+gzip",
        "application/vnd.docker.image.rootfs.diff.tar.gzip",
    ] {
        let data = PulledImageData { config: Vec::new(), layers: vec![layer(media_type)] };
        let ops = FileStore::store_image_impl("/images/u", data, "ref");
        assert_eq!(ops.len(), 5);
        assert!(matches!(&ops[1], FileOp::EnsureDir(p) if p == "/images/u/rootfs"));
        assert!(matches!(&ops[2], FileOp::Unpack { into, .. } if into == "/images/u/rootfs"));
    }
    let data = PulledImageData {
        config: Vec::new(),
        layers: vec![
            layer("application/vnd.ironcore.image.initramfs.v1alpha1.initramfs"),
            layer("application/vnd.ironcore.image.vmlinuz.v1alpha1.vmlinuz"),
        ],
    };
    let ops = FileStore::store_image_impl("/i", data, "ref");
    assert!(matches!(&ops[1], FileOp::Write { path, .. } if path == "/i/initramfs"));
    assert!(matches!(&ops[2], FileOp::Write { path, .. } if path == "/i/vmlinuz"));
}

fn entry(name: &str) -> ScanEntry {
    ScanEntry {
        is_dir: true,
        name: Some(name.to_string()),
        has_metadata: true,
        has_disk_image: true,
        has_rootfs: false,
        image_ref: Some("ref".to_string()),
    }
}

#[test]
fn stored_images_are_found() {
    let mut tree = entry("tree");
    tree.has_disk_image = false;
    tree.has_rootfs = true;
    let mut file = entry("file");
    file.is_dir = false;
    let mut bare = entry("bare");
    bare.has_disk_image = false;
    let mut unreadable = entry("unreadable");
    unreadable.image_ref = None;
    let mut unmarked = entry("unmarked");
    unmarked.has_metadata = false;
    let store = FileStore::scan_images_impl(vec![
        entry("disk"),
        tree,
        file,
        bare,
        unreadable,
        unmarked,
    ]);
    let mut names: Vec<String> = store.into_entries().into_iter().map(|e| e.0).collect();
    names.sort();
    assert_eq!(names, vec!["disk", "tree"]);
    let store = FileStore::scan_images_impl(vec![entry("disk")]);
    let info = store.get("disk").unwrap();
    assert_eq!(info.state, ImageState::Ready);
    assert_eq!(info.image_ref, "ref");
}

#[test]
fn the_store_does_what_it_is_told() {
    let delete = FileCommand::DeleteImage { image_uuid: "u".to_string() };
    match FileStore::handle_command(delete) {
        FileAction::RemoveDir(path) => assert_eq!(path, "/var/lib/feos/images/u"),
        _ => panic!(),
    }
    assert!(matches!(
        FileStore::handle_command(FileCommand::ScanExistingImages),
        FileAction::Scan
    ));
    let store = FileCommand::StoreImage {
        image_uuid: "u".to_string(),
        image_ref: "r".to_string(),
        image_data: PulledImageData { config: Vec::new(), layers: Vec::new() },
    };
    match FileStore::handle_command(store) {
        FileAction::Apply(ops) => {
            assert!(matches!(&ops[0], FileOp::CreateDir(p) if p == "/var/lib/feos/images/u"))
        }
        _ => panic!(),
    }
}

#[test]
fn image_errors_are_answered() {
    let cases = vec![
        ImageServiceError::OciPull("m".to_string()),
        ImageServiceError::OciParse("m".to_string()),
        ImageServiceError::MissingLayer("m".to_string()),
        ImageServiceError::Storage("m".to_string()),
        ImageServiceError::NotFound("m".to_string()),
        ImageServiceError::Internal("m".to_string()),
    ];
    let codes: Vec<Code> = cases.into_iter().map(|e| e.into_status().code).collect();
    assert_eq!(
        codes,
        vec![
            Code::Unavailable,
            Code::InvalidArgument,
            Code::Unavailable,
            Code::Internal,
            Code::NotFound,
            Code::Internal,
        ]
    );
    assert_eq!(
        ImageServiceError::NotFound("u".to_string()).message(),
        "Image with ID 'u' not found"
    );
}
