use speicherwald::explorer::{
    destination_suggestion, list_csv, list_page, list_parent, page_step_back, sort_top_rows, sort_tree_rows,
    trail_after_path_change, trail_after_visit, trail_back, trail_upto, tree_row_name, visible_list_items,
};
use speicherwald::types::{ListItem, NodeDto, TopItem};

fn node(path: &str, is_dir: bool, alloc: i64, logical: i64, mtime: Option<i64>) -> NodeDto {
    NodeDto {
        path: path.to_string(),
        parent_path: None,
        depth: 1,
        is_dir,
        logical_size: logical,
        allocated_size: alloc,
        file_count: 0,
        dir_count: 0,
        mtime,
        atime: None,
    }
}

fn dir_item(name: &str, alloc: i64) -> ListItem {
    ListItem::Dir {
        name: name.to_string(),
        path: format!("/r/{name}"),
        parent_path: Some("/r".to_string()),
        depth: 1,
        logical_size: alloc / 2,
        allocated_size: alloc,
        file_count: 1,
        dir_count: 0,
        mtime: Some(100),
        atime: None,
    }
}

fn file_item(name: &str, alloc: i64) -> ListItem {
    ListItem::File {
        name: name.to_string(),
        path: format!("/r/{name}"),
        parent_path: Some("/r".to_string()),
        logical_size: alloc,
        allocated_size: alloc,
        mtime: None,
        atime: None,
    }
}

fn names(items: &[ListItem]) -> Vec<String> {
    items
        .iter()
        .map(|i| match i {
            ListItem::Dir { name, .. } | ListItem::File { name, .. } => name.clone(),
        })
        .collect()
}

fn paths(rows: &[NodeDto]) -> Vec<&str> {
    rows.iter().map(|n| n.path.as_str()).collect()
}

#[test]
fn tree_rows_are_ordered_by_the_chosen_column() {
    let rows = vec![
        node("/b", true, 10, 1, Some(5)),
        node("/A", false, 30, 3, None),
        node("/c", true, 20, 2, Some(9)),
    ];
    assert_eq!(paths(&sort_tree_rows(rows.clone(), "allocated", "desc")), vec!["/A", "/c", "/b"]);
    assert_eq!(paths(&sort_tree_rows(rows.clone(), "logical", "asc")), vec!["/b", "/c", "/A"]);
    assert_eq!(paths(&sort_tree_rows(rows.clone(), "name", "asc")), vec!["/A", "/b", "/c"]);
    assert_eq!(paths(&sort_tree_rows(rows.clone(), "type", "asc")), vec!["/b", "/c", "/A"]);
    assert_eq!(paths(&sort_tree_rows(rows.clone(), "modified", "desc")), vec!["/c", "/b", "/A"]);
    assert_eq!(paths(&sort_tree_rows(rows, "bogus", "asc")), vec!["/b", "/c", "/A"]);
}

#[test]
fn top_rows_are_ordered_by_the_chosen_column() {
    let rows = vec![
        TopItem::File { path: "/z".into(), parent_path: None, logical_size: 5, allocated_size: 50, mtime: None, atime: None },
        TopItem::Dir {
            path: "/y".into(),
            parent_path: None,
            depth: 1,
            logical_size: 7,
            allocated_size: 40,
            file_count: 1,
            dir_count: 0,
            mtime: Some(3),
            atime: None,
        },
    ];
    let p = |v: Vec<TopItem>| -> Vec<String> {
        v.into_iter()
            .map(|t| match t {
                TopItem::Dir { path, .. } | TopItem::File { path, .. } => path,
            })
            .collect()
    };
    assert_eq!(p(sort_top_rows(rows.clone(), "allocated", "desc")), vec!["/z", "/y"]);
    assert_eq!(p(sort_top_rows(rows.clone(), "type", "asc")), vec!["/y", "/z"]);
    assert_eq!(p(sort_top_rows(rows.clone(), "name", "desc")), vec!["/z", "/y"]);
    assert_eq!(p(sort_top_rows(rows, "logical", "asc")), vec!["/z", "/y"]);
}

#[test]
fn list_filters_combine() {
    let items = vec![dir_item("Photos", 500), file_item(".hidden", 900), file_item("notes.TXT", 100), dir_item("tmp", 50)];
    assert_eq!(names(&visible_list_items(items.clone(), "", 0, "all", true)), vec!["Photos", ".hidden", "notes.TXT", "tmp"]);
    assert_eq!(names(&visible_list_items(items.clone(), "", 0, "all", false)), vec!["Photos", "notes.TXT", "tmp"]);
    assert_eq!(names(&visible_list_items(items.clone(), "PHO", 0, "all", false)), vec!["Photos"]);
    assert_eq!(names(&visible_list_items(items.clone(), "txt", 0, "files", false)), vec!["notes.TXT"]);
    assert_eq!(names(&visible_list_items(items.clone(), "", 100, "dirs", true)), vec!["Photos"]);
    assert!(visible_list_items(items, "nothing", 0, "all", true).is_empty());
}

#[test]
fn list_csv_has_a_header_and_a_line_per_entry() {
    let items = vec![dir_item("a\"b", 10), file_item("c", -2)];
    let csv = list_csv(&items);
    assert_eq!(
        csv,
        "type,name,path,allocated,logical,mtime\ndir,\"ab\",\"/r/ab\",10,5,100\nfile,\"c\",\"/r/c\",-2,-2,0\n"
    );
    assert_eq!(list_csv(&Vec::new()), "type,name,path,allocated,logical,mtime\n");
}

#[test]
fn row_names_and_parents() {
    assert_eq!(tree_row_name("C:\\data\\photos"), "photos");
    assert_eq!(tree_row_name("/srv/media/"), "");
    assert_eq!(tree_row_name("plain"), "plain");
    assert_eq!(list_parent("/srv/media/films/").as_deref(), Some("/srv/media"));
    assert_eq!(list_parent("C:\\data"), None);
    assert_eq!(list_parent("/srv"), None);
    assert_eq!(list_parent("D:\\a\\b"), Some("D:\\a".to_string()));
    assert_eq!(list_parent("noseparator"), None);
}

#[test]
fn pages_report_whether_more_follow() {
    let (page, more) = list_page(vec![1, 2, 3, 4], 3);
    assert_eq!(page, vec![1, 2, 3]);
    assert!(more);
    let (page, more) = list_page(vec![1, 2], 3);
    assert_eq!(page, vec![1, 2]);
    assert!(!more);
    let (page, more) = list_page(vec![1, 2], -1);
    assert_eq!(page, vec![1, 2]);
    assert!(more);
}

#[test]
fn the_trail_follows_navigation() {
    let t = trail_after_path_change(Vec::new(), Some("/a"));
    assert_eq!(t, vec!["/a".to_string()]);
    let t = trail_after_path_change(t, Some("/a"));
    assert_eq!(t, vec!["/a".to_string()]);
    let t = trail_after_path_change(t, Some("/a/b"));
    assert_eq!(t, vec!["/a".to_string(), "/a/b".to_string()]);
    let t2 = trail_after_visit(t.clone(), "/a");
    assert_eq!(t2, t);
    let t3 = trail_after_visit(t.clone(), "/x");
    assert_eq!(t3.len(), 3);
    assert_eq!(trail_upto(t3, 0), vec!["/a".to_string()]);
    assert!(trail_after_path_change(t, None).is_empty());
}

#[test]
fn destinations_join_drive_and_name() {
    assert_eq!(destination_suggestion("E:\\", "Photos"), "E:\\Photos");
    assert_eq!(destination_suggestion("\\\\nas\\share", "Photos"), "\\\\nas\\share\\Photos");
    assert_eq!(destination_suggestion("/mnt/", "x"), "/mnt/x");
}

#[test]
fn an_empty_page_steps_back() {
    assert_eq!(page_step_back(0, 100, 50), Some(50));
    assert_eq!(page_step_back(0, 30, 50), Some(0));
    assert_eq!(page_step_back(0, 0, 50), None);
    assert_eq!(page_step_back(3, 100, 50), None);
}

#[test]
fn stepping_back_along_the_trail() {
    let (t, target) = trail_back(vec!["/a".to_string(), "/a/b".to_string()]);
    assert_eq!(t, vec!["/a".to_string()]);
    assert_eq!(target.as_deref(), Some("/a"));
    let (t, target) = trail_back(t);
    assert!(t.is_empty());
    assert_eq!(target, None);
}
