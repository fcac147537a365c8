use foundry::forge::{capture_decision, forged_cfg_enabled, push_decimal, render_matrix_map, CaptureDecision, MatrixEntry};

#[test]
fn capture_decisions() {
    assert_eq!(capture_decision(true, false, true), CaptureDecision::StopInsideCapture);
    assert_eq!(capture_decision(false, false, false), CaptureDecision::RunCapture);
    assert_eq!(capture_decision(false, true, true), CaptureDecision::RunCapture);
    assert_eq!(capture_decision(false, true, false), CaptureDecision::UseCache);
}

#[test]
fn forged_cfg_needs_success_and_data() {
    assert!(forged_cfg_enabled(true, true));
    assert!(!forged_cfg_enabled(false, true));
    assert!(!forged_cfg_enabled(true, false));
}

#[test]
fn decimal_text() {
    let mut s = String::from("n=");
    push_decimal(&mut s, 0);
    assert_eq!(s, "n=0");
    let mut s = String::new();
    push_decimal(&mut s, 1234567890123);
    assert_eq!(s, "1234567890123");
    let mut s = String::new();
    push_decimal(&mut s, u64::MAX);
    assert_eq!(s, u64::MAX.to_string());
}

#[test]
fn empty_map_source() {
    let src = render_matrix_map(&vec![]);
    assert_eq!(
        src,
        "#[allow(dead_code)]\npub fn get_matrix_bytes(name: &str) -> Option<&'static [u8]> {\nmatch name {\n\n_ => None,\n}\n}"
    );
}

#[test]
fn map_source_embeds_each_artifact() {
    let entries = vec![
        MatrixEntry { name: "tabla".to_string(), bytes: vec![1, 2, 255] },
        MatrixEntry { name: "vacio".to_string(), bytes: vec![] },
    ];
    let bytes = vec![1u8, 2, 255];
    let expected_first = format!(
        "\"{}\" => {{ \
            #[repr(align(8))]\
            struct AlignedData([u8; {}]);\
            static ALIGNED: AlignedData = AlignedData({:?});\
            Some(&ALIGNED.0)\
        }},\n",
        "tabla",
        bytes.len(),
        bytes
    );
    let empty: Vec<u8> = vec![];
    let expected_second = format!(
        "\"{}\" => {{ \
            #[repr(align(8))]\
            struct AlignedData([u8; {}]);\
            static ALIGNED: AlignedData = AlignedData({:?});\
            Some(&ALIGNED.0)\
        }},\n",
        "vacio",
        empty.len(),
        empty
    );
    let expected = format!(
        "#[allow(dead_code)]\n\
        pub fn get_matrix_bytes(name: &str) -> Option<&'static [u8]> {{\n\
            match name {{\n\
                {}\n\
                _ => None,\n\
            }}\n\
        }}",
        format!("{}{}", expected_first, expected_second)
    );
    assert_eq!(render_matrix_map(&entries), expected);
}
