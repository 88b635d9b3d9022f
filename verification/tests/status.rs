use gitwatch::FileStatus;

#[test]
fn modified_in_the_working_tree() {
    assert_eq!(FileStatus::from_bits(git2::Status::WT_MODIFIED.bits()), FileStatus::Modified);
    assert_eq!(FileStatus::from_bits(0x100), FileStatus::Modified);
}

#[test]
fn new_in_the_index() {
    assert_eq!(FileStatus::from_bits(git2::Status::INDEX_NEW.bits()), FileStatus::NewlyStaged);
    assert_eq!(FileStatus::from_bits(0x1), FileStatus::NewlyStaged);
}

#[test]
fn current_file_is_unmodified() {
    assert_eq!(FileStatus::from_bits(git2::Status::CURRENT.bits()), FileStatus::Unmodified);
}

#[test]
fn other_flag_sets_leave_nothing_to_commit() {
    let sets = [
        git2::Status::WT_NEW,
        git2::Status::INDEX_MODIFIED,
        git2::Status::IGNORED,
        git2::Status::WT_DELETED,
        git2::Status::WT_MODIFIED | git2::Status::INDEX_MODIFIED,
        git2::Status::WT_MODIFIED | git2::Status::INDEX_NEW,
    ];
    for set in sets {
        assert_eq!(FileStatus::from_bits(set.bits()), FileStatus::Unmodified);
    }
}

#[test]
fn only_changed_files_need_a_commit() {
    assert!(FileStatus::Modified.needs_commit());
    assert!(FileStatus::NewlyStaged.needs_commit());
    assert!(!FileStatus::Unmodified.needs_commit());
    assert!(!FileStatus::Error("gone".to_owned()).needs_commit());
}

#[test]
fn a_failed_query_is_an_error_status() {
    assert_eq!(FileStatus::from_query(Ok(0x100)), FileStatus::Modified);
    assert_eq!(
        FileStatus::from_query(Err("no such path".to_owned())),
        FileStatus::Error("no such path".to_owned())
    );
}
