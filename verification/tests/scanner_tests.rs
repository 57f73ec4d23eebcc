use music_jester::scanner::{find_audio_files, is_supported_audio_file, FsEntry};

fn file(name: &str) -> FsEntry {
    FsEntry::File { name: name.to_string() }
}

fn dir(name: &str, entries: Vec<FsEntry>) -> FsEntry {
    FsEntry::Dir { name: name.to_string(), readable: true, entries }
}

fn unreadable_dir(name: &str, entries: Vec<FsEntry>) -> FsEntry {
    FsEntry::Dir { name: name.to_string(), readable: false, entries }
}

fn root(entries: Vec<FsEntry>) -> FsEntry {
    dir("root", entries)
}

fn scan(root: &FsEntry) -> Vec<String> {
    find_audio_files(root)
}

#[test]
fn supported_extensions_accepted() {
    assert!(is_supported_audio_file("a.mp3"));
    assert!(is_supported_audio_file("a.m4a"));
    assert!(is_supported_audio_file("a.flac"));
    assert!(is_supported_audio_file("a.wav"));
    assert!(is_supported_audio_file("a.ogg"));
    assert!(is_supported_audio_file("sub/c.flac"));
    assert!(is_supported_audio_file("a.tar.flac"));
    assert!(is_supported_audio_file("x..mp3"));
}

#[test]
fn other_extensions_rejected() {
    assert!(!is_supported_audio_file("b.txt"));
    assert!(!is_supported_audio_file("a.mp4"));
    assert!(!is_supported_audio_file("noext"));
    assert!(!is_supported_audio_file(""));
    assert!(!is_supported_audio_file("mp3"));
    assert!(!is_supported_audio_file("a.mp33"));
    assert!(!is_supported_audio_file("amp3"));
}

#[test]
fn extension_comparison_is_case_sensitive() {
    assert!(!is_supported_audio_file("a.MP3"));
    assert!(!is_supported_audio_file("a.Flac"));
    assert!(!is_supported_audio_file("a.OGG"));
}

#[test]
fn hidden_files_without_stem_have_no_extension() {
    assert!(!is_supported_audio_file(".mp3"));
    assert!(!is_supported_audio_file("sub/.mp3"));
}

#[test]
fn scan_scenario_mixed_root() {
    // Root with `a.mp3`, `b.txt`, `sub/c.flac`: exactly the two audio files.
    let tree = root(vec![
        file("a.mp3"),
        file("b.txt"),
        dir("sub", vec![file("c.flac")]),
    ]);
    let found = scan(&tree);
    assert_eq!(found, vec!["a.mp3".to_string(), "sub/c.flac".to_string()]);
}

#[test]
fn scan_filters_by_allow_list_at_any_depth() {
    let tree = root(vec![
        file("skip.doc"),
        dir(
            "music",
            vec![
                file("one.ogg"),
                dir("deep", vec![file("two.wav"), file("cover.png")]),
            ],
        ),
        file("three.m4a"),
    ]);
    let found = scan(&tree);
    assert_eq!(
        found,
        vec![
            "music/one.ogg".to_string(),
            "music/deep/two.wav".to_string(),
            "three.m4a".to_string(),
        ]
    );
}

#[test]
fn directories_themselves_are_not_results() {
    // A directory whose name carries an audio extension is still a directory.
    let tree = root(vec![dir("fake.mp3", vec![file("inner.txt")])]);
    let found = scan(&tree);
    assert!(found.is_empty());
}

#[test]
fn unreadable_subdirectory_is_skipped_silently() {
    let tree = root(vec![unreadable_dir("secret", vec![file("hidden.mp3")])]);
    let found = scan(&tree);
    assert!(found.is_empty());
}

#[test]
fn unreadable_subdirectory_leaves_siblings_intact() {
    let readable = root(vec![
        file("a.mp3"),
        dir("ok", vec![file("b.flac")]),
        file("c.wav"),
    ]);
    let with_blocked = root(vec![
        file("a.mp3"),
        unreadable_dir("broken", vec![file("lost.mp3")]),
        dir("ok", vec![file("b.flac")]),
        file("c.wav"),
    ]);
    assert_eq!(scan(&readable), scan(&with_blocked));
    assert_eq!(
        scan(&with_blocked),
        vec!["a.mp3".to_string(), "ok/b.flac".to_string(), "c.wav".to_string()]
    );
}

#[test]
fn unreadable_root_yields_nothing() {
    let tree = unreadable_dir("root", vec![file("a.mp3")]);
    assert!(scan(&tree).is_empty());
}

#[test]
fn file_as_root_yields_nothing() {
    let tree = file("a.mp3");
    assert!(scan(&tree).is_empty());
}

#[test]
fn empty_root_yields_nothing() {
    let tree = root(vec![]);
    assert!(scan(&tree).is_empty());
}
