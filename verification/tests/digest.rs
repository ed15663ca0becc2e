use mytool::code_indexer::CodeIndexer;
use mytool::digest::{sha256_hex, to_hex};

#[test]
fn to_hex_writes_two_lower_case_digits_per_byte() {
    assert_eq!(to_hex(&[]), "");
    assert_eq!(to_hex(&[0x00, 0x0f, 0xa0, 0xff, 0x12, 0xbc]), "000fa0ff12bc");
}

#[test]
fn sha256_hex_of_known_inputs() {
    assert_eq!(
        sha256_hex(b""),
        "e3b0c44298fc1c149afbf4c8996fb92427ae41e4649b934ca495991b7852b855"
    );
    assert_eq!(
        sha256_hex(b"abc"),
        "ba7816bf8f01cfea414140de5dae2223b00361a396177a9cb410ff61f20015ad"
    );
}

#[test]
fn file_path_hash_is_the_digest_of_the_path() {
    assert_eq!(
        CodeIndexer::generate_file_path_hash("src/main.rs"),
        "42cb6807ad74b3e201c5a7ca98b911c5fa08380e942be6e4ac5807f8377f87fc"
    );
}

#[test]
fn file_path_hash_is_stable_and_tells_paths_apart() {
    let first = CodeIndexer::generate_file_path_hash("src/lib.x");
    let again = CodeIndexer::generate_file_path_hash("src/lib.x");
    let other = CodeIndexer::generate_file_path_hash("src/lib.y");
    assert_eq!(first, again);
    assert_ne!(first, other);
    assert_eq!(first.len(), 64);
}
