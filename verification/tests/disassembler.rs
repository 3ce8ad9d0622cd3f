use chip8::{dissasemble_op_code_from_bytes, dissasemble_op_code_from_str};

#[test]
fn test_dissasemble_op_code() {
    assert_eq!(dissasemble_op_code_from_str("00E0").expect("fail"), "CLS");
    assert_eq!(dissasemble_op_code_from_str("00EE").expect("fail"), "RET");
    assert_eq!(
        dissasemble_op_code_from_str("1123").expect("fail"),
        "JP 123"
    );
    assert_eq!(
        dissasemble_op_code_from_str("2123").expect("fail"),
        "CALL 123"
    );
    assert_eq!(
        dissasemble_op_code_from_str("3112").expect("fail"),
        "SE V1, 12"
    );
    assert_eq!(
        dissasemble_op_code_from_str("4112").expect("fail"),
        "SNE V1, 12"
    );
    assert_eq!(
        dissasemble_op_code_from_str("5120").expect("fail"),
        "SE V1, V2"
    );
    assert_eq!(
        dissasemble_op_code_from_str("6112").expect("fail"),
        "LD V1, 12"
    );
    assert_eq!(
        dissasemble_op_code_from_str("7112").expect("fail"),
        "ADD V1, 12"
    );
    assert_eq!(
        dissasemble_op_code_from_str("8120").expect("fail"),
        "LD V1, V2"
    );
    assert_eq!(
        dissasemble_op_code_from_str("8121").expect("fail"),
        "OR V1, V2"
    );
    assert_eq!(
        dissasemble_op_code_from_str("8122").expect("fail"),
        "AND V1, V2"
    );
}

#[test]
fn test_dissasemble_op_code_from_bytes() {
    let bytes = [0x00, 0xE0, 0x00, 0xEE, 0x81, 0x22];
    let result = dissasemble_op_code_from_bytes(&bytes).expect("fail");
    assert_eq!(result[0], "CLS");
    assert_eq!(result[1], "RET");
    assert_eq!(result[2], "AND V1, V2");
}
