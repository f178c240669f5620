//! Parsing the host's `php-config` output.

use php_ext_bridge::php_config::{get_defines, parse_include_flags};

fn paths(out: &[u8]) -> Vec<Vec<u8>> {
    parse_include_flags(out)
}

#[test]
fn includes_listing_splits_on_spaces_and_strips_prefixes() {
    let out = b"-I/usr/include/php -I/usr/include/php/main -I/usr/include/php/TSRM";
    assert_eq!(
        paths(out),
        vec![
            b"/usr/include/php".to_vec(),
            b"/usr/include/php/main".to_vec(),
            b"/usr/include/php/TSRM".to_vec(),
        ]
    );
}

#[test]
fn empty_listing_yields_one_empty_path() {
    assert_eq!(paths(b""), vec![Vec::<u8>::new()]);
}

#[test]
fn consecutive_spaces_yield_empty_pieces() {
    assert_eq!(
        paths(b"-I/a  -I/b"),
        vec![b"/a".to_vec(), Vec::new(), b"/b".to_vec()]
    );
}

#[test]
fn repeated_prefixes_are_all_stripped() {
    assert_eq!(paths(b"-I-I/nested"), vec![b"/nested".to_vec()]);
}

#[test]
fn flag_without_prefix_passes_through() {
    assert_eq!(paths(b"/plain -I/with"), vec![b"/plain".to_vec(), b"/with".to_vec()]);
}

#[test]
fn prefix_alone_strips_to_nothing() {
    assert_eq!(paths(b"-I"), vec![Vec::<u8>::new()]);
}

#[test]
fn thread_aware_build_defines_zts() {
    let defines = get_defines(true);
    assert_eq!(defines, vec![(b"ZTS".to_vec(), b"1".to_vec())]);
}

#[test]
fn single_threaded_build_defines_nothing() {
    assert_eq!(get_defines(false), Vec::new());
}
