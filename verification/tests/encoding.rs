use adm_engine_worker::c_string::to_c_string;
use adm_engine_worker::native::{marshal, EncodingError, Field, NativeArguments};
use adm_engine_worker::WorkerParameters;

fn parameters(
    element_id: &str,
    gain_mapping: &[&str],
    destination_path: &str,
    source_path: &str,
) -> WorkerParameters {
    WorkerParameters {
        element_id: element_id.to_string(),
        gain_mapping: gain_mapping.iter().map(|gain| gain.to_string()).collect(),
        destination_path: destination_path.to_string(),
        source_path: source_path.to_string(),
    }
}

#[test]
fn c_string_ends_in_a_terminator() {
    assert_eq!(to_c_string("E1"), Ok(vec![0x45, 0x31, 0x00]));
    assert_eq!(to_c_string("/in.wav"), Ok(b"/in.wav\0".to_vec()));
}

#[test]
fn c_string_of_empty_text_is_the_terminator() {
    assert_eq!(to_c_string(""), Ok(vec![0x00]));
}

#[test]
fn c_string_holds_the_utf8_encoding() {
    // U+00E9 takes two bytes, U+266A three, U+1F3B5 four.
    assert_eq!(
        to_c_string("\u{e9}\u{266a}\u{1f3b5}"),
        Ok(vec![0xc3, 0xa9, 0xe2, 0x99, 0xaa, 0xf0, 0x9f, 0x8e, 0xb5, 0x00])
    );
}

#[test]
fn c_string_keeps_the_highest_one_byte_character() {
    assert_eq!(to_c_string("\u{7f}"), Ok(vec![0x7f, 0x00]));
    assert_eq!(to_c_string("\u{80}"), Ok(vec![0xc2, 0x80, 0x00]));
}

#[test]
fn c_string_rejects_a_nul_at_the_start() {
    assert_eq!(to_c_string("\0"), Err(0));
    assert_eq!(to_c_string("\0abc"), Err(0));
}

#[test]
fn c_string_rejects_a_nul_at_the_end() {
    assert_eq!(to_c_string("abc\0"), Err(3));
}

#[test]
fn c_string_reports_the_first_of_several_nuls() {
    assert_eq!(to_c_string("ab\0cd\0ef"), Err(2));
}

#[test]
fn c_string_counts_the_position_in_bytes() {
    // The two characters before the zero byte take five bytes.
    assert_eq!(to_c_string("\u{e9}\u{266a}\0"), Err(5));
}

#[test]
fn marshal_writes_the_four_buffers() {
    let arguments = marshal(&parameters("E1", &["0.5"], "/out.wav", "/in.wav"));
    assert_eq!(
        arguments,
        Ok(NativeArguments {
            source_path: b"/in.wav\0".to_vec(),
            destination_path: b"/out.wav\0".to_vec(),
            gain_mapping: b"0.5\0".to_vec(),
            element_id: b"E1\0".to_vec(),
        })
    );
}

#[test]
fn marshal_writes_only_the_first_gain() {
    let arguments = marshal(&parameters("E1", &["0.5", "0.7", "1.0"], "/out.wav", "/in.wav"))
        .expect("no text holds a zero byte");
    assert_eq!(arguments.gain_mapping, b"0.5\0".to_vec());
    assert_eq!(arguments.source_path, b"/in.wav\0".to_vec());
    assert_eq!(arguments.destination_path, b"/out.wav\0".to_vec());
    assert_eq!(arguments.element_id, b"E1\0".to_vec());
}

#[test]
fn marshal_does_not_read_later_gains() {
    let with_bad_tail = marshal(&parameters("E1", &["0.5", "0\0.7"], "/out.wav", "/in.wav"));
    let alone = marshal(&parameters("E1", &["0.5"], "/out.wav", "/in.wav"));
    assert!(with_bad_tail.is_ok());
    assert_eq!(with_bad_tail, alone);
}

#[test]
fn marshal_accepts_empty_texts() {
    let arguments = marshal(&parameters("", &[""], "", ""));
    assert_eq!(
        arguments,
        Ok(NativeArguments {
            source_path: vec![0],
            destination_path: vec![0],
            gain_mapping: vec![0],
            element_id: vec![0],
        })
    );
}

#[test]
fn marshal_rejects_a_nul_in_the_source_path() {
    let error = marshal(&parameters("E1", &["0.5"], "/out.wav", "/in\0.wav"));
    assert_eq!(error, Err(EncodingError { field: Field::SourcePath, position: 3 }));
}

#[test]
fn marshal_rejects_a_nul_in_the_destination_path() {
    let error = marshal(&parameters("E1", &["0.5"], "/out.wav\0", "/in.wav"));
    assert_eq!(error, Err(EncodingError { field: Field::DestinationPath, position: 8 }));
}

#[test]
fn marshal_rejects_a_nul_in_the_first_gain() {
    let error = marshal(&parameters("E1", &["\00.5", "0.7"], "/out.wav", "/in.wav"));
    assert_eq!(error, Err(EncodingError { field: Field::GainMapping, position: 0 }));
}

#[test]
fn marshal_rejects_a_nul_in_the_element_id() {
    let error = marshal(&parameters("E\01", &["0.5"], "/out.wav", "/in.wav"));
    assert_eq!(error, Err(EncodingError { field: Field::ElementId, position: 1 }));
}

#[test]
fn marshal_reports_the_first_offender_in_call_order() {
    let all_bad = marshal(&parameters("E\01", &["0\0.5"], "/out\0.wav", "/in.wav\0"));
    assert_eq!(all_bad, Err(EncodingError { field: Field::SourcePath, position: 7 }));
    let three_bad = marshal(&parameters("E\01", &["0\0.5"], "/out\0.wav", "/in.wav"));
    assert_eq!(three_bad, Err(EncodingError { field: Field::DestinationPath, position: 4 }));
    let two_bad = marshal(&parameters("E\01", &["0\0.5"], "/out.wav", "/in.wav"));
    assert_eq!(two_bad, Err(EncodingError { field: Field::GainMapping, position: 1 }));
}

#[test]
fn encoding_error_names_its_field() {
    let message = |field| EncodingError { field, position: 0 }.message();
    assert_eq!(message(Field::SourcePath), "source_path contains a null byte");
    assert_eq!(message(Field::DestinationPath), "destination_path contains a null byte");
    assert_eq!(message(Field::GainMapping), "gain_mapping contains a null byte");
    assert_eq!(message(Field::ElementId), "element_id contains a null byte");
}

#[test]
fn encoding_error_message_does_not_depend_on_the_position() {
    let near = EncodingError { field: Field::ElementId, position: 0 };
    let far = EncodingError { field: Field::ElementId, position: usize::MAX };
    assert_eq!(near.message(), far.message());
}
