use libcdio_rs::cli::cd_drive::DriveArg;
use libcdio_rs::cli::iso_read::{Cli as IsoReadCli, FileArg};
use libcdio_rs::cli::mmc_tool::{MmcAction, MmcActions};
use libcdio_rs::report::walk::{
    child_path_text, is_dot_entry, DepthLimitError, IsoDirWalk, UdfDirWalk, ISO9660_DEPTH_LIMIT,
};

#[test]
fn directory_walk_is_breadth_first() {
    let mut walk = IsoDirWalk::new();
    let (root, depth) = walk.next_dir().unwrap().unwrap();
    assert_eq!((root.as_str(), depth), ("/", 0));
    assert_eq!(walk.visit_entry(&root, depth, ".", true), "/./");
    assert_eq!(walk.visit_entry(&root, depth, "..", true), "/../");
    assert_eq!(walk.visit_entry(&root, depth, "copy", true), "/copy/");
    assert_eq!(walk.visit_entry(&root, depth, "COPYING", false), "/COPYING/");
    assert_eq!(walk.visit_entry(&root, depth, "tmp", true), "/tmp/");
    let (first, d1) = walk.next_dir().unwrap().unwrap();
    assert_eq!((first.as_str(), d1), ("/copy/", 1));
    walk.visit_entry(&first, d1, "deeper", true);
    let (second, d2) = walk.next_dir().unwrap().unwrap();
    assert_eq!((second.as_str(), d2), ("/tmp/", 1));
    let (third, d3) = walk.next_dir().unwrap().unwrap();
    assert_eq!((third.as_str(), d3), ("/copy/deeper/", 2));
    assert!(walk.next_dir().is_none());
}

#[test]
fn directory_walk_depth_limit() {
    let mut walk = IsoDirWalk::new();
    let (mut path, mut depth) = walk.next_dir().unwrap().unwrap();
    loop {
        walk.visit_entry(&path, depth, "d", true);
        match walk.next_dir().unwrap() {
            Ok((p, d)) => {
                path = p;
                depth = d;
            }
            Err(e) => {
                assert_eq!(e, DepthLimitError);
                break;
            }
        }
    }
    assert_eq!(depth, ISO9660_DEPTH_LIMIT - 1);
}

#[test]
fn paths_and_dots() {
    assert_eq!(child_path_text("/libcdio/", "test"), "/libcdio/test/");
    assert!(is_dot_entry("."));
    assert!(is_dot_entry(".."));
    assert!(!is_dot_entry("..."));
    assert!(!is_dot_entry(".a"));
    assert!(!is_dot_entry(""));
}

#[test]
fn drive_argument() {
    let both = DriveArg { option: Some(b"/dev/sr1".to_vec()), positional: Some(b"/dev/sr0".to_vec()) };
    assert_eq!(both.drive(), Some(&b"/dev/sr0".to_vec()));
    let option = DriveArg { option: Some(b"/dev/sr1".to_vec()), positional: None };
    assert_eq!(option.drive(), Some(&b"/dev/sr1".to_vec()));
    let none = DriveArg { option: None, positional: None };
    assert_eq!(none.drive(), None);
}

#[test]
fn extractor_arguments() {
    let cli = IsoReadCli {
        extract: b"/COPYING".to_vec(),
        image: FileArg { option: Some(b"a.iso".to_vec()), positional: None },
        output_file: None,
        udf: false,
    };
    assert_eq!(cli.image.file(), Some(&b"a.iso".to_vec()));
    assert_eq!(cli.output_path(), &b"/COPYING".to_vec());
    let with_output = IsoReadCli { output_file: Some(b"out".to_vec()), ..cli };
    assert_eq!(with_output.output_path(), &b"out".to_vec());
}

#[test]
fn mmc_actions() {
    let none = MmcActions {
        eject: false,
        close_tray: false,
        standby: false,
        mcn: false,
        inquiry: false,
        speed: None,
    };
    assert_eq!(none.action(), None);
    assert_eq!(MmcActions { speed: Some(16), ..none }.action(), Some(MmcAction::SetSpeed(16)));
    assert_eq!(MmcActions { inquiry: true, speed: Some(16), ..none }.action(), Some(MmcAction::Inquiry));
    assert_eq!(MmcActions { mcn: true, ..none }.action(), Some(MmcAction::MediaCatalogNumber));
    assert_eq!(MmcActions { standby: true, mcn: true, ..none }.action(), Some(MmcAction::Standby));
    assert_eq!(MmcActions { close_tray: true, ..none }.action(), Some(MmcAction::CloseTray));
    assert_eq!(MmcActions { eject: true, close_tray: true, ..none }.action(), Some(MmcAction::Eject));
}

#[test]
fn udf_walk_is_breadth_first() {
    let mut walk = UdfDirWalk::new(0u32);
    let (root, root_path) = walk.next_dir().unwrap();
    assert_eq!((root, root_path.as_str()), (0, "/"));
    assert_eq!(walk.visit_entry("/", "a", Some(1)), "/a/");
    assert_eq!(walk.visit_entry("/", "file", None), "/file/");
    assert_eq!(walk.visit_entry("/", "b", Some(2)), "/b/");
    let (a, a_path) = walk.next_dir().unwrap();
    assert_eq!((a, a_path.as_str()), (1, "/a/"));
    assert_eq!(walk.visit_entry("/a/", "c", Some(3)), "/a/c/");
    assert_eq!(walk.next_dir().map(|(d, p)| (d, p)), Some((2, "/b/".to_string())));
    assert_eq!(walk.next_dir().map(|(d, p)| (d, p)), Some((3, "/a/c/".to_string())));
    assert!(walk.next_dir().is_none());
}
