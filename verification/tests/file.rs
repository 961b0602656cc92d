use chip8_core::file::File;
use chip8_core::file::FileState;

#[test]
fn new_files_are_empty_and_closed() {
    let file = File::new("f6.txt");
    assert_eq!(file.len(), 0);
    assert_eq!(file.name(), "f6.txt");
    assert_eq!(file.state(), FileState::Closed);
}

#[test]
fn names_come_back_as_given() {
    let file = File::new("");
    assert_eq!(file.name(), "");
    let file = File::new("reports/2024/summary.txt");
    assert_eq!(file.name(), "reports/2024/summary.txt");
}
