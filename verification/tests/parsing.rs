use musicbox::playlist::{quoted, split_extensions};
use musicbox::tracks::{
    classify_extension, classify_path, extension_of, resolve_path, TrackError, TrackFormat,
};

#[test]
fn quoted_extracts_words_in_order() {
    let words = quoted("@ \"first song.mp3\" \"second.xm\"");
    assert_eq!(words, vec!["first song.mp3".to_string(), "second.xm".to_string()]);
}

#[test]
fn quoted_ignores_text_outside_quotes() {
    let words = quoted("junk \"kept\" more junk \"also kept\" tail");
    assert_eq!(words, vec!["kept".to_string(), "also kept".to_string()]);
}

#[test]
fn quoted_escape_allows_literal_quote() {
    let words = quoted("\"a\\\"b\"");
    assert_eq!(words, vec!["a\"b".to_string()]);
}

#[test]
fn quoted_unclosed_word_is_not_committed() {
    let words = quoted("\"open");
    assert!(words.is_empty());
}

#[test]
fn quoted_empty_input() {
    assert!(quoted("").is_empty());
    assert_eq!(quoted("\"\""), vec!["".to_string()]);
}

#[test]
fn split_extensions_cuts_on_semicolons() {
    let parts = split_extensions("it;xm;mod;s3m");
    assert_eq!(
        parts,
        vec!["it".to_string(), "xm".to_string(), "mod".to_string(), "s3m".to_string()]
    );
}

#[test]
fn split_extensions_keeps_empty_pieces() {
    assert_eq!(split_extensions(""), vec!["".to_string()]);
    assert_eq!(
        split_extensions("a;;b"),
        vec!["a".to_string(), "".to_string(), "b".to_string()]
    );
    assert_eq!(split_extensions("a;"), vec!["a".to_string(), "".to_string()]);
}

#[test]
fn extension_of_plain_cases() {
    assert_eq!(extension_of("song.mp3"), "mp3");
    assert_eq!(extension_of("dir/song.flac"), "flac");
    assert_eq!(extension_of("archive.tar.gz"), "gz");
}

#[test]
fn extension_of_edge_cases() {
    assert_eq!(extension_of("noext"), "");
    assert_eq!(extension_of(".bashrc"), "");
    assert_eq!(extension_of("dir.d/noext"), "");
    assert_eq!(extension_of("trailing."), "");
    assert_eq!(extension_of(""), "");
    assert_eq!(extension_of("dir/.hidden"), "");
}

#[test]
fn classify_native_formats_play_pre_decoded() {
    let formats = vec!["it".to_string(), "xm".to_string()];
    for e in ["wav", "mp3", "flac", "ogg"] {
        assert_eq!(classify_extension(&e.to_string(), &formats), TrackFormat::Direct);
    }
}

#[test]
fn classify_tracker_list_wins_over_unknown() {
    let formats = vec!["it".to_string(), "xm".to_string()];
    assert_eq!(classify_extension(&"xm".to_string(), &formats), TrackFormat::Tracker);
    assert_eq!(classify_extension(&"it".to_string(), &formats), TrackFormat::Tracker);
    assert_eq!(
        classify_extension(&"xyz".to_string(), &formats),
        TrackFormat::Unsupported
    );
    // An empty extension is unsupported too.
    assert_eq!(classify_extension(&String::new(), &formats), TrackFormat::Unsupported);
}

#[test]
fn classify_path_goes_by_the_file_name() {
    let formats = vec!["xm".to_string()];
    assert_eq!(classify_path("music/track.xm", &formats), TrackFormat::Tracker);
    assert_eq!(classify_path("music/track.wav", &formats), TrackFormat::Direct);
    assert_eq!(classify_path("music.xm/track", &formats), TrackFormat::Unsupported);
}

#[test]
fn resolve_accepts_known_formats() {
    let formats = vec!["xm".to_string()];
    assert!(matches!(
        resolve_path(&"a/b.wav".to_string(), &formats),
        Ok(TrackFormat::Direct)
    ));
    assert!(matches!(
        resolve_path(&"a/b.xm".to_string(), &formats),
        Ok(TrackFormat::Tracker)
    ));
}

#[test]
fn resolve_names_path_and_extension_on_failure() {
    let formats = vec!["xm".to_string()];
    match resolve_path(&"dir/tune.xyz".to_string(), &formats) {
        Err(TrackError::UnsupportedFormat { path, extension }) => {
            assert_eq!(path, "dir/tune.xyz");
            assert_eq!(extension, "xyz");
        }
        other => panic!("expected the unsupported-format error, got {:?}", other.is_ok()),
    }
}

#[test]
fn track_error_diagnostics() {
    let e = TrackError::UnsupportedFormat {
        path: "dir/tune.xyz".to_string(),
        extension: "xyz".to_string(),
    };
    assert_eq!(e.describe(), "unsupported format 'xyz' file dir/tune.xyz");
    let e = TrackError::MissingFile {
        path: "gone.wav".to_string(),
    };
    assert_eq!(e.describe(), "path gone.wav does not exist");
    let e = TrackError::DecodeFailed {
        path: "bad.it".to_string(),
        extension: "it".to_string(),
    };
    assert_eq!(e.describe(), "malformed source bad.it (extension 'it')");
}
