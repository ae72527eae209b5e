use logga::path::{base_name, directory_prefix, eq_ignore_ascii_case, extension, fold_letter, join};

fn some(text: &str) -> Option<String> {
    Some(text.to_string())
}

#[test]
fn base_name_is_the_last_segment() {
    assert_eq!(base_name("/var/log/archive.zip"), some("archive.zip"));
    assert_eq!(base_name("archive.zip"), some("archive.zip"));
    assert_eq!(base_name("/x"), some("x"));
    assert_eq!(base_name("dir/.hidden"), some(".hidden"));
    assert_eq!(base_name("a/..."), some("..."));
}

#[test]
fn base_name_passes_over_trailing_separators_and_dots() {
    assert_eq!(base_name("dir/archive.zip/"), some("archive.zip"));
    assert_eq!(base_name("dir/archive.zip//"), some("archive.zip"));
    assert_eq!(base_name("a/."), some("a"));
    assert_eq!(base_name("a/./"), some("a"));
    assert_eq!(base_name("x."), some("x."));
}

#[test]
fn base_name_of_a_path_without_segments_is_none() {
    assert_eq!(base_name(""), None);
    assert_eq!(base_name("/"), None);
    assert_eq!(base_name("//"), None);
    assert_eq!(base_name("."), None);
    assert_eq!(base_name("./"), None);
    assert_eq!(base_name("/."), None);
    assert_eq!(base_name(".."), None);
    assert_eq!(base_name("a/.."), None);
}

#[test]
fn base_name_agrees_with_the_standard_library() {
    let paths = [
        "", "/", ".", "..", "a", "a/b", "/a/b.c", "a/", "a//", "a/.", "a/..", "./a", "../a",
        "a/b/../c.zip", "/var/log/x.tar.gz", ".hidden", "dir/.hidden.zip", "x.", "é/ü.zip",
    ];
    for path in paths {
        let expected = std::path::Path::new(path)
            .file_name()
            .map(|name| name.to_string_lossy().into_owned());
        assert_eq!(base_name(path), expected, "{:?}", path);
    }
}

#[test]
fn extension_follows_the_last_dot_of_the_name() {
    assert_eq!(extension("/var/log/archive.zip"), some("zip"));
    assert_eq!(extension("x.tar.gz"), some("gz"));
    assert_eq!(extension("dir/.hidden.zip"), some("zip"));
    assert_eq!(extension("x."), some(""));
    assert_eq!(extension("archive.ZIP"), some("ZIP"));
}

#[test]
fn extension_of_a_name_without_one_is_none() {
    assert_eq!(extension("notes"), None);
    assert_eq!(extension(".hidden"), None);
    assert_eq!(extension("dir.d/notes"), None);
    assert_eq!(extension(""), None);
    assert_eq!(extension("/"), None);
    assert_eq!(extension("a.zip/.."), None);
}

#[test]
fn extension_agrees_with_the_standard_library() {
    let paths = [
        "", "/", ".", "..", "a", "a.b", "/a/b.c", "a.zip/", "a.b/.", "a/..", ".hidden",
        "dir/.hidden.zip", "x.", "x..", "a.b.c", "é/ü.zip", "dir.d/notes",
    ];
    for path in paths {
        let expected = std::path::Path::new(path)
            .extension()
            .map(|ext| ext.to_string_lossy().into_owned());
        assert_eq!(extension(path), expected, "{:?}", path);
    }
}

#[test]
fn directory_prefix_ends_behind_the_last_separator() {
    assert_eq!(directory_prefix("/var/log/access.log"), some("/var/log/"));
    assert_eq!(directory_prefix("access.log"), some(""));
    assert_eq!(directory_prefix("/access.log"), some("/"));
    assert_eq!(directory_prefix("logs/access.log/"), some("logs/"));
    assert_eq!(directory_prefix("a/.."), some("a/"));
}

#[test]
fn directory_prefix_of_a_path_without_segments_is_none() {
    assert_eq!(directory_prefix(""), None);
    assert_eq!(directory_prefix("/"), None);
    assert_eq!(directory_prefix("."), None);
    assert_eq!(directory_prefix("./"), None);
}

#[test]
fn join_puts_one_separator_between() {
    assert_eq!(join("/home/me", ".checkpoint"), "/home/me/.checkpoint");
    assert_eq!(join("/home/me/", ".checkpoint"), "/home/me/.checkpoint");
    assert_eq!(join("", ".checkpoint"), ".checkpoint");
    assert_eq!(join("/", "x"), "/x");
}

#[test]
fn letters_fold_to_lower_case() {
    assert_eq!(fold_letter('A'), 'a');
    assert_eq!(fold_letter('Z'), 'z');
    assert_eq!(fold_letter('a'), 'a');
    assert_eq!(fold_letter('@'), '@');
    assert_eq!(fold_letter('['), '[');
    assert_eq!(fold_letter('É'), 'É');
}

#[test]
fn texts_compare_without_case() {
    assert!(eq_ignore_ascii_case("zip", "Zip"));
    assert!(eq_ignore_ascii_case("ZIP", "zip"));
    assert!(eq_ignore_ascii_case("", ""));
    assert!(!eq_ignore_ascii_case("zip", "zi"));
    assert!(!eq_ignore_ascii_case("zip", "zap"));
    assert!(!eq_ignore_ascii_case("é", "É"));
}
