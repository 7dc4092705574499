use file_path_from_id::id::FileId;
use file_path_from_id::kind::ErrorKind;
use file_path_from_id::unix::{
    get_path_from_id, path_from_id, path_from_output, path_from_run, path_from_text, Error,
};

fn output(text: &str) -> Vec<u8> {
    text.as_bytes().to_vec()
}

#[test]
fn inode_names_the_lookup() {
    let lookup = path_from_id(&FileId::new_inode(1, 999999)).unwrap();
    assert_eq!(lookup.program, "sh");
    assert_eq!(lookup.option, "-c");
    assert_eq!(lookup.script, "getfileinfo /.vol/1/999999");
}

#[test]
fn lookup_spells_out_both_numbers_in_decimal() {
    let lookup = get_path_from_id(0, u64::MAX);
    assert_eq!(lookup.script, "getfileinfo /.vol/0/18446744073709551615");
    let lookup = get_path_from_id(16777220, 1234567890);
    assert_eq!(lookup.script, "getfileinfo /.vol/16777220/1234567890");
    let lookup = get_path_from_id(10, 100);
    assert_eq!(lookup.script, "getfileinfo /.vol/10/100");
}

#[test]
fn high_res_is_rejected_by_the_unix_resolver() {
    let rejected = path_from_id(&FileId::new_high_res(7, 42)).unwrap_err();
    assert_eq!(rejected, Error::InvalidFileId);
    assert_eq!(rejected.kind(), ErrorKind::UnsupportedIdentifier);
}

#[test]
fn low_res_is_rejected_by_the_unix_resolver() {
    let rejected = path_from_id(&FileId::new_low_res(7, 42)).unwrap_err();
    assert_eq!(rejected, Error::InvalidFileId);
}

#[test]
fn file_line_gives_the_path() {
    let stdout = output(
        "file: \"/Users/me/tmp/foo.txt\"\ntype: \"\"\ncreator: \"\"\nattributes: avbstclinmedz\n",
    );
    assert_eq!(path_from_output(stdout), Ok(String::from("/Users/me/tmp/foo.txt")));
}

#[test]
fn directory_line_gives_the_path() {
    let stdout = output("directory: \"/Users/me/tmp\"\nattributes: avbstclinmedz\n");
    assert_eq!(path_from_output(stdout), Ok(String::from("/Users/me/tmp")));
}

#[test]
fn first_matching_line_wins() {
    let stdout = output("created: 01/01/2024\nfile: \"/a\"\ndirectory: \"/b\"\n");
    assert_eq!(path_from_output(stdout), Ok(String::from("/a")));
}

#[test]
fn key_is_trimmed_and_value_is_unquoted() {
    assert_eq!(path_from_text("  file \t:   \"/a b/c\"  "), Ok(String::from("/a b/c")));
    assert_eq!(path_from_text("file:/plain"), Ok(String::from("/plain")));
    assert_eq!(path_from_text("file: \"\"\"/q\"\""), Ok(String::from("/q")));
    assert_eq!(path_from_text("file: \" /inner \""), Ok(String::from(" /inner ")));
}

#[test]
fn value_keeps_what_follows_its_first_colon() {
    assert_eq!(path_from_text("file: \"/a:b:c\""), Ok(String::from("/a:b:c")));
}

#[test]
fn unicode_white_space_is_trimmed() {
    assert_eq!(path_from_text("\u{a0}file\u{2003}: \u{3000}/x\u{2028}"), Ok(String::from("/x")));
}

#[test]
fn empty_value_is_an_empty_path() {
    assert_eq!(path_from_text("file:"), Ok(String::new()));
    assert_eq!(path_from_text("directory: \"\""), Ok(String::new()));
}

#[test]
fn other_keys_give_no_path() {
    assert_eq!(path_from_text("filetype: \"/a\"\nFile: \"/b\"\nfiles: /c"), Err(Error::NoFileInfo));
    assert_eq!(path_from_text("the file: /a"), Err(Error::NoFileInfo));
}

#[test]
fn line_without_colon_is_passed_over() {
    assert_eq!(path_from_text("file \"/a\"\nfile: /b"), Ok(String::from("/b")));
}

#[test]
fn carriage_return_ends_no_line_but_is_trimmed() {
    assert_eq!(path_from_text("type: x\r\nfile: \"/a\"\r\n"), Ok(String::from("/a")));
}

#[test]
fn missing_file_gives_no_file_info() {
    let lookup = path_from_id(&FileId::new_inode(1, 999999)).unwrap();
    assert_eq!(lookup.script, "getfileinfo /.vol/1/999999");
    let failed = path_from_output(Vec::new()).unwrap_err();
    assert_eq!(failed, Error::NoFileInfo);
    assert_eq!(failed.kind(), ErrorKind::NotFound);
}

#[test]
fn output_that_is_not_text_is_a_decode_failure() {
    let failed = path_from_output(vec![b'f', b'i', b'l', b'e', b':', 0xff, 0xfe]).unwrap_err();
    assert_eq!(failed, Error::Decode);
    assert_eq!(failed.kind(), ErrorKind::DecodeFailure);
    let truncated = path_from_output(vec![b'f', b'i', b'l', b'e', b':', 0xe2, 0x82]);
    assert_eq!(truncated, Err(Error::Decode));
}

#[test]
fn output_is_decoded_before_it_is_read() {
    let stdout = output("file: \"/tmp/\u{e9}t\u{e9}/\u{1f4c4}.txt\"\n");
    assert_eq!(path_from_output(stdout), Ok(String::from("/tmp/\u{e9}t\u{e9}/\u{1f4c4}.txt")));
}

#[test]
fn run_that_did_not_start_is_a_command_failure() {
    assert_eq!(path_from_run(Err(Some(2))), Err(Error::Command(Some(2))));
    assert_eq!(path_from_run(Err(None)), Err(Error::Command(None)));
    assert_eq!(path_from_run(Ok(output("file: \"/a\"\n"))), Ok(String::from("/a")));
    assert_eq!(path_from_run(Ok(Vec::new())), Err(Error::NoFileInfo));
    assert_eq!(path_from_run(Ok(vec![0xff])), Err(Error::Decode));
}

#[test]
fn command_failure_is_transient() {
    assert_eq!(Error::Command(Some(2)).kind(), ErrorKind::TransientOsFailure);
    assert_eq!(Error::Command(None).kind(), ErrorKind::TransientOsFailure);
    assert_ne!(Error::Command(Some(2)), Error::Command(Some(13)));
}
