use revolver::carousel::Revolver;
use revolver::dir::{read_svg_dir, safe_read_svg_dir, Entry, ReadError, Scan};

fn path(name: &str) -> Entry {
    Ok(name.to_string())
}

#[test]
fn three_entries_give_three_items() {
    let scan: Scan = Ok(vec![path("a"), path("b"), path("c")]);
    let items = safe_read_svg_dir(scan);
    assert_eq!(items.len(), 3);
    assert!(items.contains(&"a".to_string()));
    assert!(items.contains(&"b".to_string()));
    assert!(items.contains(&"c".to_string()));
}

#[test]
fn items_keep_the_order_of_the_scan() {
    let scan: Scan = Ok(vec![path("dir/z.svg"), path("dir/a.svg"), path("dir/sub")]);
    assert_eq!(
        read_svg_dir(scan),
        Ok(vec!["dir/z.svg".to_string(), "dir/a.svg".to_string(), "dir/sub".to_string()])
    );
}

#[test]
fn missing_directory_gives_no_items() {
    let items = safe_read_svg_dir(Err(ReadError::NotFound));
    assert_eq!(items.len(), 0);
}

#[test]
fn every_open_failure_gives_no_items() {
    let all = [
        ReadError::NotFound,
        ReadError::PermissionDenied,
        ReadError::NotADirectory,
        ReadError::Other,
    ];
    for error in all {
        assert_eq!(read_svg_dir(Err(error)), Err(error));
        assert_eq!(safe_read_svg_dir(Err(error)), Vec::<String>::new());
    }
}

#[test]
fn empty_directory_gives_no_items() {
    assert_eq!(read_svg_dir(Ok(Vec::new())), Ok(Vec::new()));
    assert_eq!(safe_read_svg_dir(Ok(Vec::new())), Vec::<String>::new());
}

#[test]
fn first_failing_entry_is_reported() {
    let scan: Scan = Ok(vec![
        path("a"),
        Err(ReadError::PermissionDenied),
        path("b"),
        Err(ReadError::Other),
    ]);
    assert_eq!(read_svg_dir(scan), Err(ReadError::PermissionDenied));
}

#[test]
fn failing_entry_empties_the_collection() {
    let scan: Scan = Ok(vec![path("a"), path("b"), Err(ReadError::Other)]);
    assert_eq!(safe_read_svg_dir(scan), Vec::<String>::new());
}

#[test]
fn loaded_items_make_a_carousel() {
    let scan: Scan = Ok(vec![path("x"), path("y"), path("z")]);
    let state = Revolver::new(safe_read_svg_dir(scan));
    assert_eq!(state.count(), 3);
    assert_eq!(state.cursor(), 0);
    assert_eq!(state.current_item(), Some(&"x".to_string()));
}

#[test]
fn unreadable_directory_makes_an_empty_carousel() {
    let state = Revolver::new(safe_read_svg_dir(Err(ReadError::NotADirectory)));
    assert_eq!(state.count(), 0);
    assert_eq!(state.current_item(), None);
}
