use sha2::Digest;
use share_rs::assets::{guess_mime_type, index, web_asset, Page};
use share_rs::chunk_list::{numbers_of, sort_chunks, total_chunk_size};
use share_rs::decimal::{integer_to_string, natural_to_string};
use share_rs::digest::{
    check_digest, check_file, check_file_hash, compute_file_hash, CheckFileResult, FileHasher,
    HASH_BLOCK_SIZE,
};
use share_rs::download::{get_shares, stream_download, Download};
use share_rs::file_manager::{
    contains, get_default_file_manager, open_folder_and_select_file, LinuxFileManagers, OpenError,
    System,
};
use share_rs::paths::{destination, get_available_filename, get_chunk_file, upload_dir};
use share_rs::protocol::{Reply, UploadError};
use share_rs::records::{Chunk, ShareEntry, UploadItem, UploadStatus};
use share_rs::server::{ServerState, ShareServer};
use share_rs::setting::{Settings, DEFAULT_PORT};
use share_rs::single_instance::OpenRequest;
use share_rs::window_controls::{
    Pages, WindowAppearance, WindowControl, WindowControlState, WindowControlType,
};

fn chunk(id: i32, number: i32, size: i64) -> Chunk {
    Chunk {
        id,
        upload_id: "u".to_string(),
        chunk_number: number,
        chunk_size: size,
        chunk_hash: format!("h{}", id),
    }
}

fn pattern(len: usize) -> Vec<u8> {
    (0..len).map(|i| (i % 251) as u8).collect()
}

#[test]
fn digest_of_known_contents() {
    assert_eq!(
        compute_file_hash(b""),
        "e3b0c44298fc1c149afbf4c8996fb92427ae41e4649b934ca495991b7852b855"
    );
    assert_eq!(
        compute_file_hash(b"abc"),
        "ba7816bf8f01cfea414140de5dae2223b00361a396177a9cb410ff61f20015ad"
    );
    assert_eq!(
        compute_file_hash(b"abcdef"),
        "bef57ec7f53a6d40beb640a780a639c83bc29ac8a9816f1fc6c5c6dcd93c4721"
    );
}

#[test]
fn digest_of_contents_longer_than_a_block() {
    for len in [
        HASH_BLOCK_SIZE - 1,
        HASH_BLOCK_SIZE,
        HASH_BLOCK_SIZE + 1,
        3 * HASH_BLOCK_SIZE + 17,
    ] {
        let data = pattern(len);
        let expected = format!("{:x}", sha2::Sha256::digest(&data));
        assert_eq!(compute_file_hash(&data), expected);
    }
}

#[test]
fn hasher_gives_the_digest_of_the_blocks_joined() {
    let data = pattern(1000);
    let mut hasher = FileHasher::new();
    hasher.update(&data[..1]);
    hasher.update(&data[1..400]);
    hasher.update(&[]);
    hasher.update(&data[400..]);
    assert_eq!(hasher.finalize(), compute_file_hash(&data));
    assert_eq!(
        FileHasher::new().finalize(),
        "e3b0c44298fc1c149afbf4c8996fb92427ae41e4649b934ca495991b7852b855"
    );
}

#[test]
fn check_file_hash_compares_with_the_digest() {
    let expected = compute_file_hash(b"abc");
    assert!(check_file_hash(b"abc", &expected));
    assert!(!check_file_hash(b"abd", &expected));
    assert!(!check_file_hash(b"abc", &expected.to_uppercase()));
}

#[test]
fn check_file_is_valid_for_the_digest_of_the_content() {
    let data = pattern(5000);
    let digest = compute_file_hash(&data);
    assert!(matches!(
        check_file(Some(&data), &digest),
        CheckFileResult::Valid
    ));
    for at in [0, 1, 2499, 4999] {
        let mut flipped = data.clone();
        flipped[at] ^= 0x01;
        match check_file(Some(&flipped), &digest) {
            CheckFileResult::Invalid(reason) => assert_eq!(
                reason,
                format!(
                    "Hash mismatch: expected {}, actual {}",
                    digest,
                    compute_file_hash(&flipped)
                )
            ),
            CheckFileResult::Valid => panic!("a changed byte went unnoticed"),
        }
    }
}

#[test]
fn check_file_reports_a_missing_file() {
    match check_file(None, &compute_file_hash(b"abc")) {
        CheckFileResult::Invalid(reason) => assert_eq!(reason, "File not found"),
        CheckFileResult::Valid => panic!("a missing file was found valid"),
    }
    match check_digest(&None, &"00".to_string()) {
        CheckFileResult::Invalid(reason) => assert_eq!(reason, "File not found"),
        CheckFileResult::Valid => panic!("a missing file was found valid"),
    }
}

#[test]
fn check_digest_compares_the_digests() {
    assert!(matches!(
        check_digest(&Some("ab12".to_string()), &"ab12".to_string()),
        CheckFileResult::Valid
    ));
    match check_digest(&Some("ab13".to_string()), &"ab12".to_string()) {
        CheckFileResult::Invalid(reason) => {
            assert_eq!(reason, "Hash mismatch: expected ab12, actual ab13")
        }
        CheckFileResult::Valid => panic!("different digests were found equal"),
    }
}

#[test]
fn numerals() {
    assert_eq!(natural_to_string(0), "0");
    assert_eq!(natural_to_string(7), "7");
    assert_eq!(natural_to_string(10), "10");
    assert_eq!(natural_to_string(1234567890), "1234567890");
    assert_eq!(natural_to_string(u64::MAX), "18446744073709551615");
    assert_eq!(integer_to_string(0), "0");
    assert_eq!(integer_to_string(-1), "-1");
    assert_eq!(integer_to_string(-907), "-907");
    assert_eq!(integer_to_string(i64::MAX), "9223372036854775807");
    assert_eq!(integer_to_string(i64::MIN), "-9223372036854775808");
    for n in [-1000i64, -10, -9, 5, 99, 100, 101, 65535] {
        assert_eq!(integer_to_string(n), n.to_string());
    }
}

#[test]
fn chunk_files_live_below_the_directory_of_their_session() {
    let dir = upload_dir(&"/data/uploads".to_string(), &"abc123".to_string());
    assert_eq!(dir, "/data/uploads/abc123");
    assert_eq!(get_chunk_file(&dir, 1), "/data/uploads/abc123/chunk_1");
    assert_eq!(get_chunk_file(&dir, 12), "/data/uploads/abc123/chunk_12");
    assert_eq!(
        get_chunk_file(&dir, i32::MAX),
        "/data/uploads/abc123/chunk_2147483647"
    );
    assert_eq!(get_chunk_file(&dir, -3), "/data/uploads/abc123/chunk_-3");
    assert_eq!(
        destination(&"/data/uploads".to_string(), &"a b.txt".to_string()),
        "/data/uploads/a b.txt"
    );
}

#[test]
fn test_get_available_filename() {
    let project_dir = "/home/user/project";
    let cargo_file = format!("{}/Cargo.toml", project_dir);
    let path = get_available_filename(&cargo_file, 0);
    println!("Available filename: {}", path);
    assert_eq!(path, "/home/user/project/Cargo.toml");
    let path = get_available_filename(&cargo_file, 1);
    println!("Available filename: {}", path);
    assert_eq!(path, "/home/user/project/Cargo(1).toml");
}

#[test]
fn available_filenames_are_numbered_before_the_extension() {
    let name = |path: &str, attempt: u32| get_available_filename(&path.to_string(), attempt);
    assert_eq!(name("/a/b/file.txt", 0), "/a/b/file.txt");
    assert_eq!(name("/a/b/file.txt", 1), "/a/b/file(1).txt");
    assert_eq!(name("/a/b/file.txt", 25), "/a/b/file(25).txt");
    assert_eq!(name("file", 2), "file(2)");
    assert_eq!(name("/a.b/file", 1), "/a.b/file(1)");
    assert_eq!(name("archive.tar.gz", 3), "archive.tar(3).gz");
    assert_eq!(name("/home/.bashrc", 1), "/home/.bashrc(1)");
    assert_eq!(name(".config.json", 1), ".config(1).json");
    assert_eq!(name("dir/", 1), "dir/(1)");
    assert_eq!(name("", 1), "(1)");
    assert_eq!(name("/a/b/f\u{e9}.txt", 1), "/a/b/f\u{e9}(1).txt");
    assert_eq!(name("x.y", u32::MAX), "x(4294967295).y");
}

#[test]
fn status_texts() {
    assert_eq!(UploadStatus::Uploading.to_string(), "Uploading");
    assert_eq!(UploadStatus::Completed.to_string(), "Completed");
    assert_eq!(
        UploadStatus::from_str(&"Uploading".to_string()),
        Some(UploadStatus::Uploading)
    );
    assert_eq!(
        UploadStatus::from_str(&"Completed".to_string()),
        Some(UploadStatus::Completed)
    );
    assert_eq!(UploadStatus::from_str(&"completed".to_string()), None);
    assert_eq!(UploadStatus::from_str(&"".to_string()), None);
    assert_eq!(UploadStatus::from_str(&"Uploading ".to_string()), None);
}

#[test]
fn chunks_are_sorted_by_number() {
    let chunks = vec![
        chunk(1, 3, 10),
        chunk(2, 1, 20),
        chunk(3, 2, 30),
        chunk(4, 1, 40),
        chunk(5, -7, 50),
    ];
    let sorted = sort_chunks(&chunks);
    let ids: Vec<i32> = sorted.iter().map(|c| c.id).collect();
    assert_eq!(ids, vec![5, 2, 4, 3, 1]);
    assert_eq!(numbers_of(&sorted), vec![-7, 1, 1, 2, 3]);
    assert_eq!(numbers_of(&chunks), vec![3, 1, 2, 1, -7]);
    assert_eq!(sorted[1].chunk_hash, "h2");
    assert_eq!(sorted[1].upload_id, "u");
    assert_eq!(sorted[1].chunk_size, 20);
    assert!(sort_chunks(&Vec::new()).is_empty());
}

#[test]
fn sizes_are_added_up_without_overflow() {
    assert_eq!(total_chunk_size(&Vec::new()), 0);
    assert_eq!(
        total_chunk_size(&vec![chunk(1, 1, 1000), chunk(2, 2, 1000), chunk(3, 3, 1000)]),
        3000
    );
    assert_eq!(
        total_chunk_size(&vec![chunk(1, 1, i64::MAX), chunk(2, 2, i64::MAX)]),
        2 * (i64::MAX as i128)
    );
    assert_eq!(
        total_chunk_size(&vec![chunk(1, 1, i64::MIN), chunk(2, 2, -1)]),
        i64::MIN as i128 - 1
    );
}

#[test]
fn records_are_copied_field_by_field() {
    let item = UploadItem {
        id: "id".to_string(),
        file_name: "n".to_string(),
        file_size: 9,
        file_path: "/p".to_string(),
        status: "Uploading".to_string(),
        created_at: 77,
    };
    let copy = item.clone();
    assert_eq!(format!("{:?}", copy), format!("{:?}", item));
    let one = chunk(4, 5, 6);
    assert_eq!(format!("{:?}", one.clone()), format!("{:?}", one));
}

#[test]
fn answers_have_their_status_and_text() {
    assert_eq!(Reply::ChunkUploaded.status_code(), 200);
    assert_eq!(Reply::ChunkUploaded.text(), "Chunk uploaded successfully");
    assert_eq!(Reply::ChunkAlreadyUploaded.status_code(), 200);
    let done = Reply::UploadCompleted {
        file_path: "/x".to_string(),
    };
    assert_eq!(done.status_code(), 200);
    assert_eq!(done.text(), "File uploaded and verified successfully");
    let cases = [
        (UploadError::NotFound, 404),
        (UploadError::BadRequest, 400),
        (UploadError::SizeMismatch, 500),
        (UploadError::ChunkMissing, 500),
        (UploadError::IntegrityFailure, 500),
        (UploadError::IoError, 500),
        (UploadError::RepositoryError, 500),
    ];
    for (error, code) in cases {
        assert_eq!(error.status_code(), code);
        let reply = Reply::Rejected {
            error,
            message: "why".to_string(),
        };
        assert_eq!(reply.status_code(), code);
        assert_eq!(reply.text(), "why");
    }
}

#[test]
fn server_is_started_and_stopped_once() {
    let mut server = ShareServer::new();
    assert_eq!(server.state(), ServerState::Off);
    assert!(!server.stop());
    assert!(server.start());
    assert_eq!(server.state(), ServerState::On);
    assert!(!server.start());
    assert_eq!(server.state(), ServerState::On);
    assert!(server.stop());
    assert_eq!(server.state(), ServerState::Off);
    assert!(!server.stop());
    assert!(server.start());
    server.failed();
    assert_eq!(server.state(), ServerState::Off);
    assert!(!server.stop());
    assert!(server.start());
    assert!(server.stop());
}

#[test]
fn settings_are_kept_and_replaced() {
    let mut settings = Settings::new(&"/home/user/Downloads".to_string());
    assert_eq!(settings.port, 12345);
    assert_eq!(settings.port, DEFAULT_PORT);
    assert_eq!(settings.storage_folder, "/home/user/Downloads/Uploads");
    let copy = settings.clone();
    settings.update(8080, "/srv/files".to_string());
    assert_eq!(settings.port, 8080);
    assert_eq!(settings.storage_folder, "/srv/files");
    assert_eq!(copy.port, 12345);
    assert_eq!(copy.storage_folder, "/home/user/Downloads/Uploads");
}

#[test]
fn window_controls_have_names_and_icons() {
    assert_eq!(WindowControlType::Minimize.name(), "minimize");
    assert_eq!(WindowControlType::Restore.name(), "restore");
    assert_eq!(WindowControlType::Maximize.name(), "maximize");
    assert_eq!(WindowControlType::Close.name(), "close");
    assert_eq!(WindowControlState::Normal.name(), "normal");
    assert_eq!(WindowControlState::Hover.name(), "hover");
    assert_eq!(WindowControlState::Active.name(), "active");
    assert_eq!(WindowControlState::Disable.name(), "disable");
    let control = WindowControl {
        control_type: WindowControlType::Close,
        control_state: WindowControlState::Hover,
    };
    assert_eq!(
        control.icon(true, WindowAppearance::Dark),
        "icons/window_controls/close-hover-dark.svg"
    );
    assert_eq!(
        control.icon(true, WindowAppearance::VibrantLight),
        "icons/window_controls/close-hover-light.svg"
    );
    assert_eq!(
        control.icon(false, WindowAppearance::VibrantDark),
        "icons/window_controls/backdrop-dark.svg"
    );
    let disabled = WindowControl {
        control_type: WindowControlType::Minimize,
        control_state: WindowControlState::Disable,
    };
    assert_eq!(
        disabled.icon(true, WindowAppearance::Light),
        "icons/window_controls/backdrop-light.svg"
    );
    assert_eq!(
        WindowControlType::Maximize.shown(true),
        WindowControlType::Restore
    );
    assert_eq!(
        WindowControlType::Restore.shown(false),
        WindowControlType::Maximize
    );
    assert_eq!(
        WindowControlType::Maximize.shown(false),
        WindowControlType::Maximize
    );
    assert_eq!(WindowControlType::Close.shown(true), WindowControlType::Close);
}

#[test]
fn downloads_are_planned_from_the_share_found() {
    let share = |id: i64, name: &str| ShareEntry {
        id,
        file_name: name.to_string(),
        file_path: format!("/files/{}", name),
        mime_type: "text/plain".to_string(),
    };
    assert!(matches!(stream_download(None, false), Download::NotFound));
    assert!(matches!(
        stream_download(Some(Vec::new()), true),
        Download::NotFound
    ));
    match stream_download(Some(vec![share(1, "a.txt"), share(2, "b.txt")]), false) {
        Download::Serve {
            file_path,
            content_type,
        } => {
            assert_eq!(file_path, "/files/a.txt");
            assert_eq!(content_type, None);
        }
        Download::NotFound => panic!("the share was not served"),
    }
    match stream_download(Some(vec![share(1, "a.txt")]), true) {
        Download::Serve {
            file_path,
            content_type,
        } => {
            assert_eq!(file_path, "/files/a.txt");
            assert_eq!(content_type, Some("application/octet-stream".to_string()));
        }
        Download::NotFound => panic!("the share was not served"),
    }
    let items = get_shares(&vec![share(7261534987331, "a.txt"), share(-5, "b.txt")]);
    assert_eq!(items.len(), 2);
    assert_eq!(items[0].id, "7261534987331");
    assert_eq!(items[0].file_name, "a.txt");
    assert_eq!(items[0].mime_type, "text/plain");
    assert_eq!(items[1].id, "-5");
    assert_eq!(items[1].file_name, "b.txt");
}

#[test]
fn open_requests_name_the_files_after_the_program() {
    assert!(OpenRequest::default().args.is_empty());
    assert!(OpenRequest::default().files().is_empty());
    let only_program = OpenRequest {
        args: vec!["share-rs".to_string()],
    };
    assert!(only_program.files().is_empty());
    let request = OpenRequest {
        args: vec![
            "share-rs".to_string(),
            "/a/one.txt".to_string(),
            "two.png".to_string(),
        ],
    };
    assert_eq!(request.files(), vec!["/a/one.txt", "two.png"]);
    assert_eq!(Pages::default(), Pages::FileListPage);
}

#[test]
fn media_types_are_guessed_from_the_extension() {
    let guess = |path: &str| guess_mime_type(&path.to_string());
    assert_eq!(guess("web/index.html"), Some("text/html".to_string()));
    assert_eq!(guess("/a/b/picture.png"), Some("image/png".to_string()));
    assert_eq!(guess("/a/b/PICTURE.PNG"), Some("image/png".to_string()));
    assert_eq!(guess("icon.svg"), Some("image/svg+xml".to_string()));
    assert_eq!(guess("archive.tar.pdf"), Some("application/pdf".to_string()));
    assert_eq!(guess("/a.json/notes"), None);
    assert_eq!(guess("README"), None);
    assert_eq!(guess(".png"), None);
    assert_eq!(guess("file."), None);
    assert_eq!(guess("file.no-such-extension"), None);
    assert_eq!(guess(""), None);
    assert_eq!(guess("notes.txt"), Some("text/plain".to_string()));
}

#[test]
fn pages_are_served_from_the_web_assets() {
    assert_eq!(web_asset(&"index.html".to_string()), "web/index.html");
    assert_eq!(web_asset(&"".to_string()), "web/");
    assert!(matches!(index(&"index.html".to_string(), None), Page::NotFound));
    match index(&"css/site.css".to_string(), Some(b"body {}".to_vec())) {
        Page::Found { data, content_type } => {
            assert_eq!(data, b"body {}");
            assert_eq!(content_type, Some("text/css".to_string()));
        }
        Page::NotFound => panic!("the asset was not served"),
    }
    match index(&"LICENSE".to_string(), Some(b"MIT".to_vec())) {
        Page::Found { data, content_type } => {
            assert_eq!(data, b"MIT");
            assert_eq!(content_type, None);
        }
        Page::NotFound => panic!("the asset was not served"),
    }
}

#[test]
fn texts_are_searched_for_parts() {
    assert!(contains("org.gnome.Nautilus.desktop", "Nautilus"));
    assert!(contains("Nautilus", "Nautilus"));
    assert!(contains("xNautilus", "Nautilus"));
    assert!(contains("Nautilusx", "Nautilus"));
    assert!(!contains("nautilus", "Nautilus"));
    assert!(!contains("Nautilu", "Nautilus"));
    assert!(!contains("", "Nautilus"));
    assert!(contains("", ""));
    assert!(contains("abc", ""));
    assert!(contains("aab", "ab"));
    assert!(contains("d\u{e9}j\u{e0} vu", "j\u{e0}"));
}

#[test]
fn test_get_default_file_manager_on_linux() {
    match get_default_file_manager(true, "org.gnome.Nautilus.desktop\n") {
        LinuxFileManagers::Unknown => println!("Failed to detect file manager."),
        fm => {
            println!("Default file manager: {:?}", fm);
            assert_eq!(fm, LinuxFileManagers::Nautilus);
        }
    }
}

#[test]
fn file_managers_are_told_from_the_desktop_file() {
    let cases = [
        ("org.kde.Dolphin.desktop", LinuxFileManagers::Dolphin),
        ("Thunar.desktop", LinuxFileManagers::Thunar),
        ("Pcmanfm.desktop", LinuxFileManagers::Pcmanfm),
        ("Caja-folder-handler.desktop", LinuxFileManagers::Caja),
        ("Dolphin-and-Nautilus.desktop", LinuxFileManagers::Nautilus),
        ("Caja-Thunar.desktop", LinuxFileManagers::Thunar),
        ("nemo.desktop", LinuxFileManagers::Unknown),
        ("thunar.desktop", LinuxFileManagers::Unknown),
        ("", LinuxFileManagers::Unknown),
    ];
    for (name, manager) in cases {
        assert_eq!(get_default_file_manager(true, name), manager);
        assert_eq!(
            get_default_file_manager(false, name),
            LinuxFileManagers::Unknown
        );
    }
}

#[test]
fn test_open_folder_and_select_file() {
    let project_dir = "/home/user/project".to_string();
    let file_name = "Cargo.toml".to_string();
    open_folder_and_select_file(
        System::Linux,
        LinuxFileManagers::Nautilus,
        &project_dir,
        &file_name,
    )
    .unwrap();
}

#[test]
fn files_are_shown_by_the_program_of_the_system() {
    let folder = "/home/user/project".to_string();
    let file = "Cargo.toml".to_string();
    let plan = |system, manager| open_folder_and_select_file(system, manager, &folder, &file);
    let full = "/home/user/project/Cargo.toml";

    let reveal = plan(System::Linux, LinuxFileManagers::Nautilus).unwrap();
    assert_eq!(reveal.command.program, "nautilus");
    assert_eq!(reveal.command.args, vec!["--select", full]);
    let fallback = reveal.fallback.unwrap();
    assert_eq!(fallback.program, "gio");
    assert_eq!(
        fallback.args,
        vec!["open", "/home/user/project", "--select", full]
    );

    let reveal = plan(System::Linux, LinuxFileManagers::Dolphin).unwrap();
    assert_eq!(reveal.command.program, "dolphin");
    assert_eq!(reveal.command.args, vec!["--select", full]);
    assert!(reveal.fallback.is_none());

    let reveal = plan(System::Linux, LinuxFileManagers::Caja).unwrap();
    assert_eq!(reveal.command.program, "caja");
    assert_eq!(reveal.command.args, vec!["--select", full]);

    let reveal = plan(System::Linux, LinuxFileManagers::Thunar).unwrap();
    assert_eq!(reveal.command.program, "thunar");
    assert_eq!(reveal.command.args, vec!["/home/user/project"]);

    let reveal = plan(System::Linux, LinuxFileManagers::Pcmanfm).unwrap();
    assert_eq!(reveal.command.program, "pcmanfm");
    assert_eq!(reveal.command.args, vec!["/home/user/project"]);

    assert_eq!(
        plan(System::Linux, LinuxFileManagers::Unknown).unwrap_err(),
        OpenError::UnknownFileManager
    );
    assert_eq!(
        plan(System::Other, LinuxFileManagers::Nautilus).unwrap_err(),
        OpenError::UnsupportedSystem
    );

    let reveal = plan(System::MacOs, LinuxFileManagers::Unknown).unwrap();
    assert_eq!(reveal.command.program, "open");
    assert_eq!(reveal.command.args, vec!["-R", full]);

    let reveal = open_folder_and_select_file(
        System::Windows,
        LinuxFileManagers::Unknown,
        &"C:\\Users\\me".to_string(),
        &"a.txt".to_string(),
    )
    .unwrap();
    assert_eq!(reveal.command.program, "explorer");
    assert_eq!(reveal.command.args, vec!["/select,", "C:\\Users\\me\\a.txt"]);
}
