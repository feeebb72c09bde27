use kcl_core::ExportFile;

#[test]
fn export_file_getters_copy_fields() {
    let file = ExportFile { contents: vec![1, 2, 3, 255], name: "part.stl".to_string() };
    assert_eq!(file.contents(), vec![1, 2, 3, 255]);
    assert_eq!(file.name(), "part.stl".to_string());
    // the getters hand out copies; the file itself is unchanged
    assert_eq!(file.contents, vec![1, 2, 3, 255]);
}

#[test]
fn export_file_getters_on_empty_file() {
    let file = ExportFile { contents: vec![], name: String::new() };
    assert!(file.contents().is_empty());
    assert!(file.name().is_empty());
}

