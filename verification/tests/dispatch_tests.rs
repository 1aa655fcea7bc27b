use datatest_stable::PreparedInput;
use datatest_stable::TestFn;
use datatest_stable::TestFnBase;
use datatest_stable::TestFnLoadBinary;
use datatest_stable::TestFnLoadString;

#[test]
fn path_only_shapes_need_no_contents() {
    let f = TestFn::Base(TestFnBase::Path(0));
    assert!(!f.needs_contents());
    match f.prepare("fixtures/a.txt", b"ignored".to_vec()) {
        Ok(PreparedInput::PathOnly) => {}
        _ => panic!("a path-only shape takes the path alone"),
    }
}

#[test]
fn text_shapes_receive_the_decoded_bytes() {
    let f = TestFn::LoadString(TestFnLoadString::Utf8Path(1));
    assert!(f.needs_contents());
    let contents = "caf\u{e9} \u{1f980}".as_bytes().to_vec();
    match f.prepare("fixtures/a.txt", contents) {
        Ok(PreparedInput::Text(t)) => assert_eq!(t, "caf\u{e9} \u{1f980}"),
        _ => panic!("valid UTF-8 must reach the function as text"),
    }
}

#[test]
fn binary_shapes_receive_the_bytes_unmodified() {
    let f = TestFn::LoadBinary(TestFnLoadBinary::Path(2));
    assert!(f.needs_contents());
    let contents = vec![0u8, 159, 146, 150, 255];
    match f.prepare("fixtures/a.bin", contents.clone()) {
        Ok(PreparedInput::Binary(b)) => assert_eq!(b, contents),
        _ => panic!("a binary shape must get the raw bytes"),
    }
}

#[test]
fn invalid_utf8_is_a_harness_failure_not_a_call() {
    let f = TestFn::LoadString(TestFnLoadString::Path(3));
    let contents = vec![0xffu8, 0xfe, 0x00];
    match f.prepare("fixtures/bad.txt", contents) {
        Err(m) => assert_eq!(m, "error reading file 'fixtures/bad.txt' as UTF-8"),
        Ok(_) => panic!("invalid UTF-8 must never reach the function"),
    }
}

#[test]
fn invalid_utf8_is_fine_for_binary_shapes() {
    let f = TestFn::LoadBinary(TestFnLoadBinary::Utf8Path(4));
    let contents = vec![0xffu8, 0xfe];
    match f.prepare("fixtures/bad.txt", contents.clone()) {
        Ok(PreparedInput::Binary(b)) => assert_eq!(b, contents),
        _ => panic!("binary shapes accept any bytes"),
    }
}

#[test]
fn fn_ids_carry_through() {
    assert_eq!(TestFn::Base(TestFnBase::Utf8Path(7)).fn_id(), 7);
    assert_eq!(TestFn::LoadString(TestFnLoadString::Path(8)).fn_id(), 8);
    assert_eq!(TestFn::LoadBinary(TestFnLoadBinary::Utf8Path(9)).fn_id(), 9);
}
