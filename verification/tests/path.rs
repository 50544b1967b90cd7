use catalog_core::path::title_and_extension;
use std::path::Path;

fn derived(path: &str) -> (String, String) {
    title_and_extension(path)
}

fn pair(title: &str, extension: &str) -> (String, String) {
    (title.to_string(), extension.to_string())
}

#[test]
fn title_is_the_file_name_without_the_extension() {
    assert_eq!(derived("/a/video.mp4"), pair("video", "mp4"));
    assert_eq!(derived("/a/doc.pdf"), pair("doc", "pdf"));
    assert_eq!(derived("/b/new.txt"), pair("new", "txt"));
    assert_eq!(derived("video.mp4"), pair("video", "mp4"));
}

#[test]
fn only_the_last_dot_parts_the_extension() {
    assert_eq!(derived("/backup/archive.tar.gz"), pair("archive.tar", "gz"));
    assert_eq!(derived("/x/a.b.c.d"), pair("a.b.c", "d"));
}

#[test]
fn a_dot_in_a_directory_is_no_extension() {
    assert_eq!(derived("/home/me.d/notes"), pair("notes", ""));
    assert_eq!(derived("/v1.2/readme"), pair("readme", ""));
}

#[test]
fn a_name_without_a_dot_has_no_extension() {
    assert_eq!(derived("/usr/bin/env"), pair("env", ""));
    assert_eq!(derived("Makefile"), pair("Makefile", ""));
}

#[test]
fn a_leading_dot_begins_the_title() {
    assert_eq!(derived("/home/me/.bashrc"), pair(".bashrc", ""));
    assert_eq!(derived(".gitignore"), pair(".gitignore", ""));
    assert_eq!(derived("/x/.config.toml"), pair(".config", "toml"));
}

#[test]
fn a_trailing_dot_leaves_an_empty_extension() {
    assert_eq!(derived("/x/foo."), pair("foo", ""));
    assert_eq!(derived("/x/..."), pair("..", ""));
    assert_eq!(derived("/x/..bar"), pair(".", "bar"));
}

#[test]
fn trailing_separators_and_dots_are_passed_over() {
    assert_eq!(derived("/media/films/"), pair("films", ""));
    assert_eq!(derived("/media/films.d///"), pair("films", "d"));
    assert_eq!(derived("/media/clip.mov/."), pair("clip", "mov"));
    assert_eq!(derived("/media/clip.mov/./"), pair("clip", "mov"));
    assert_eq!(derived("./clip.mov"), pair("clip", "mov"));
}

#[test]
fn a_path_that_names_nothing_has_neither() {
    assert_eq!(derived(""), pair("", ""));
    assert_eq!(derived("/"), pair("", ""));
    assert_eq!(derived("."), pair("", ""));
    assert_eq!(derived("./"), pair("", ""));
    assert_eq!(derived("/."), pair("", ""));
    assert_eq!(derived(".."), pair("", ""));
    assert_eq!(derived("/a/.."), pair("", ""));
    assert_eq!(derived("/a/../"), pair("", ""));
}

#[test]
fn backslashes_separate_too() {
    assert_eq!(derived("C:\\Users\\me\\Videos\\clip.MOV"), pair("clip", "MOV"));
    assert_eq!(derived("C:\\Users\\me\\Videos\\"), pair("Videos", ""));
    assert_eq!(derived("share\\dir/file.txt"), pair("file", "txt"));
}

#[test]
fn characters_beyond_ascii_are_kept() {
    assert_eq!(derived("/películas/niño.🎬.mkv"), pair("niño.🎬", "mkv"));
    assert_eq!(derived("/a/日本語"), pair("日本語", ""));
}

#[test]
fn agrees_with_the_platform_on_paths_with_forward_slashes() {
    let samples = [
        "/a/video.mp4",
        "/a/b.c/d",
        "/a/b/",
        "/a/b//",
        "/a/./",
        "a/.",
        "./a",
        "/",
        "",
        ".",
        "..",
        "/a/..",
        "/a/.hidden",
        "/a/.hidden.txt",
        "/a/name.",
        "/a/...",
        "/a/..x",
        "x.tar.gz",
        "//x//y.z",
        "/a/b c.d e",
    ];
    for sample in samples {
        let path = Path::new(sample);
        let title = path.file_stem().and_then(|text| text.to_str()).unwrap_or("");
        let extension = path.extension().and_then(|text| text.to_str()).unwrap_or("");
        assert_eq!(derived(sample), pair(title, extension), "{:?}", sample);
    }
}
