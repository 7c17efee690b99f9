use contrast_heatmap::{derive_output_path, HeatmapError};

#[test]
fn sibling_path_with_extension() {
    assert_eq!(derive_output_path("/a/b/photo.png").unwrap(), "/a/b/photo-heatmap.png");
}

#[test]
fn relative_path_keeps_directory() {
    assert_eq!(derive_output_path("shots/screen.jpg").unwrap(), "shots/screen-heatmap.jpg");
}

#[test]
fn bare_filename_without_extension_defaults_to_png() {
    assert_eq!(derive_output_path("noext").unwrap(), "noext-heatmap.png");
}

#[test]
fn dotfile_has_no_extension() {
    assert_eq!(derive_output_path(".bashrc").unwrap(), ".bashrc-heatmap.png");
}

#[test]
fn only_last_extension_is_split() {
    assert_eq!(derive_output_path("a.tar.gz").unwrap(), "a.tar-heatmap.gz");
}

#[test]
fn trailing_dot_keeps_empty_extension() {
    assert_eq!(derive_output_path("weird.").unwrap(), "weird-heatmap.");
}

#[test]
fn empty_path_is_invalid() {
    assert_eq!(derive_output_path("").unwrap_err(), HeatmapError::InvalidPath);
}

#[test]
fn trailing_separators_are_ignored() {
    // a trailing separator still names the same file, as std's path
    // parsing has it
    assert_eq!(derive_output_path("dir/").unwrap(), "dir-heatmap.png");
    assert_eq!(derive_output_path("/a/b/").unwrap(), "/a/b-heatmap.png");
    assert_eq!(derive_output_path("shots/screen.jpg//").unwrap(), "shots/screen-heatmap.jpg");
}

#[test]
fn separators_alone_are_invalid() {
    assert_eq!(derive_output_path("/").unwrap_err(), HeatmapError::InvalidPath);
    assert_eq!(derive_output_path("///").unwrap_err(), HeatmapError::InvalidPath);
}

#[test]
fn dot_components_are_invalid() {
    assert_eq!(derive_output_path(".").unwrap_err(), HeatmapError::InvalidPath);
    assert_eq!(derive_output_path("..").unwrap_err(), HeatmapError::InvalidPath);
    assert_eq!(derive_output_path("a/..").unwrap_err(), HeatmapError::InvalidPath);
}

#[test]
fn error_message_names_the_stem() {
    let e = derive_output_path("/").unwrap_err();
    assert_eq!(e.message(), "input filename has no valid stem");
}
