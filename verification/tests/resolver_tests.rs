use rewrite::resolve::is_valid_dest;
use rewrite::resolve::temp_candidate;

#[test]
fn candidate_sits_next_to_destination() {
    let dest = b"/tmp/a/out.txt".to_vec();
    assert_eq!(temp_candidate(&dest, 0), b"/tmp/a/.out.txt".to_vec());
}

#[test]
fn candidate_numeric_suffix_single_digit() {
    let dest = b"/tmp/a/out.txt".to_vec();
    assert_eq!(temp_candidate(&dest, 3), b"/tmp/a/.out.txt-3".to_vec());
}

#[test]
fn candidate_numeric_suffix_multi_digit() {
    let dest = b"/tmp/a/out.txt".to_vec();
    assert_eq!(temp_candidate(&dest, 12), b"/tmp/a/.out.txt-12".to_vec());
    assert_eq!(temp_candidate(&dest, 105), b"/tmp/a/.out.txt-105".to_vec());
}

#[test]
fn bare_filename_resolves_in_current_directory() {
    let dest = b"out.txt".to_vec();
    assert!(is_valid_dest(&dest));
    let cand = temp_candidate(&dest, 0);
    assert_eq!(cand, b".out.txt".to_vec());
    assert!(!cand.contains(&b'/'));
}

#[test]
fn dotfile_destination_is_valid() {
    let dest = b".bashrc".to_vec();
    assert!(is_valid_dest(&dest));
    assert_eq!(temp_candidate(&dest, 0), b"..bashrc".to_vec());
}

#[test]
fn distinct_numbers_give_distinct_candidates() {
    let dest = b"data/file".to_vec();
    let c0 = temp_candidate(&dest, 0);
    let c1 = temp_candidate(&dest, 1);
    let c2 = temp_candidate(&dest, 2);
    assert_ne!(c0, c1);
    assert_ne!(c1, c2);
    assert_ne!(c0, c2);
    assert_eq!(c1, b"data/.file-1".to_vec());
}

#[test]
fn directory_like_paths_are_invalid() {
    assert!(!is_valid_dest(&b"".to_vec()));
    assert!(!is_valid_dest(&b".".to_vec()));
    assert!(!is_valid_dest(&b"..".to_vec()));
    assert!(!is_valid_dest(&b"/".to_vec()));
    assert!(!is_valid_dest(&b"/tmp/a/".to_vec()));
    assert!(!is_valid_dest(&b"/tmp/a/.".to_vec()));
    assert!(!is_valid_dest(&b"/tmp/a/..".to_vec()));
}

#[test]
fn ordinary_paths_are_valid() {
    assert!(is_valid_dest(&b"/tmp/a/out.txt".to_vec()));
    assert!(is_valid_dest(&b"a/b".to_vec()));
    assert!(is_valid_dest(&b"...".to_vec()));
    assert!(is_valid_dest(&b"out.txt".to_vec()));
}
