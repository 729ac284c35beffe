use clip_engine::version::{parse_version_output, tokens_of, Version, VersionResultError};

#[test]
fn version_banner_parses_major_and_minor() {
    let banner = "ffmpeg version 4.4.1-essentials_build-www.gyan.dev Copyright (c) 2000-2021";
    assert_eq!(parse_version_output(banner), Ok(Version { major: 4, minor: 4 }));
}

#[test]
fn version_with_dash_separator_parses() {
    assert_eq!(
        parse_version_output("ffprobe version 5-0 extra"),
        Ok(Version { major: 5, minor: 0 })
    );
}

#[test]
fn version_banner_too_short_means_not_installed() {
    assert_eq!(parse_version_output(""), Err(VersionResultError::NotInstalled));
    assert_eq!(parse_version_output("ffmpeg version"), Err(VersionResultError::NotInstalled));
}

#[test]
fn unparsable_version_text_is_a_parse_error() {
    assert_eq!(
        parse_version_output("ffmpeg version n4.4"),
        Err(VersionResultError::ParseError)
    );
    assert_eq!(
        parse_version_output("ffmpeg version four.four"),
        Err(VersionResultError::ParseError)
    );
    assert_eq!(
        parse_version_output("ffmpeg version 4"),
        Err(VersionResultError::ParseError)
    );
    assert_eq!(
        parse_version_output("ffmpeg version 4..2"),
        Err(VersionResultError::ParseError)
    );
}

#[test]
fn tokens_split_on_any_whitespace_run() {
    let toks = tokens_of("  a  bb\t c\n");
    assert_eq!(toks, vec!["a", "bb", "c"]);
    assert_eq!(tokens_of(""), Vec::<String>::new());
    assert_eq!(tokens_of("   "), Vec::<String>::new());
}
