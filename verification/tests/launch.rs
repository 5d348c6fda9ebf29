use qmpo::launch::{after_failed_launch, file_manager_launch, Recovery};
use qmpo::platform::Platform;

#[test]
fn windows_shows_a_path_in_explorer() {
    let dir = file_manager_launch(Platform::Windows, "C:\\Users\\tagawa", false).unwrap();
    assert_eq!(dir.program, "explorer.exe");
    assert_eq!(dir.args, vec!["C:\\Users\\tagawa"]);
    let file = file_manager_launch(Platform::Windows, "C:\\Users\\tagawa\\a.txt", true).unwrap();
    assert_eq!(file.program, "explorer.exe");
    assert_eq!(file.args, vec!["/select,C:\\Users\\tagawa\\a.txt"]);
}

#[test]
fn macos_reveals_a_file_in_finder() {
    let dir = file_manager_launch(Platform::MacOs, "/Users/tagawa", false).unwrap();
    assert_eq!(dir.program, "open");
    assert_eq!(dir.args, vec!["/Users/tagawa"]);
    let file = file_manager_launch(Platform::MacOs, "/Users/tagawa/a.txt", true).unwrap();
    assert_eq!(file.program, "open");
    assert_eq!(file.args, vec!["-R", "/Users/tagawa/a.txt"]);
}

#[test]
fn linux_opens_a_directory_and_asks_for_a_file_over_dbus() {
    let dir = file_manager_launch(Platform::Linux, "/home/tagawa", false).unwrap();
    assert_eq!(dir.program, "xdg-open");
    assert_eq!(dir.args, vec!["/home/tagawa"]);
    let file = file_manager_launch(Platform::Linux, "/home/tagawa/a.txt", true).unwrap();
    assert_eq!(file.program, "dbus-send");
    assert_eq!(
        file.args,
        vec![
            "--session",
            "--dest=org.freedesktop.FileManager1",
            "--type=method_call",
            "/org/freedesktop/FileManager1",
            "org.freedesktop.FileManager1.ShowItems",
            "array:string:file:///home/tagawa/a.txt",
            "string:",
        ]
    );
}

#[test]
fn other_platforms_have_no_file_manager() {
    assert!(file_manager_launch(Platform::Other, "/home/tagawa", false).is_none());
    assert!(file_manager_launch(Platform::Other, "/home/tagawa/a.txt", true).is_none());
}

#[test]
fn linux_falls_back_on_the_directory_of_the_file() {
    match after_failed_launch(Platform::Linux, true, Some("/home/tagawa")) {
        Recovery::Retry(launch) => {
            assert_eq!(launch.program, "xdg-open");
            assert_eq!(launch.args, vec!["/home/tagawa"]);
        }
        other => panic!("unexpected recovery: {:?}", other),
    }
    assert!(matches!(after_failed_launch(Platform::Linux, true, None), Recovery::Ignore));
}

#[test]
fn other_failures_are_reported() {
    assert!(matches!(after_failed_launch(Platform::Linux, false, Some("/home")), Recovery::Fail));
    assert!(matches!(after_failed_launch(Platform::Linux, false, None), Recovery::Fail));
    for platform in [Platform::Windows, Platform::MacOs, Platform::Other] {
        for is_file in [true, false] {
            assert!(matches!(after_failed_launch(platform, is_file, Some("/home")), Recovery::Fail));
            assert!(matches!(after_failed_launch(platform, is_file, None), Recovery::Fail));
        }
    }
}
