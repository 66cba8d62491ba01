use std::path::PathBuf;

use copy_prog::filter::{FileEntry, FilterReason};
use copy_prog::output::{
    asks_to_copy, copy_block, is_confirm_answer, is_quit_answer, ok_entry_indices, preview_answer,
    preview_line, preview_run, preview_title, status_marker, PreviewNext, PreviewWait,
};
use copy_prog::Lang;

fn listed_entry(rel: &str, status: Result<(), FilterReason>) -> FileEntry {
    FileEntry { path: PathBuf::from(rel), rel_path: rel.to_string(), status }
}

#[test]
fn collected_positions_in_order() {
    let v = vec![
        listed_entry("a", Ok(())),
        listed_entry("b", Err(FilterReason::Extension)),
        listed_entry("c", Ok(())),
        listed_entry("d/", Err(FilterReason::SystemDir)),
    ];
    assert_eq!(ok_entry_indices(&v), vec![0, 2]);
    assert!(ok_entry_indices(&vec![]).is_empty());
}

#[test]
fn block_of_a_file_followed_by_others() {
    assert_eq!(copy_block("a.rs", "fn a() {}\n".to_string(), 0, 2, 2), "a.rs\nfn a() {}\n\n\n");
    assert_eq!(copy_block("a.rs", "x".to_string(), 0, 3, 0), "a.rs\nx\n");
}

#[test]
fn block_of_the_last_file_has_no_separator() {
    assert_eq!(copy_block("b.rs", "y\n".to_string(), 1, 2, 3), "b.rs\ny\n");
    assert_eq!(copy_block("b.rs", "".to_string(), 0, 1, 3), "b.rs\n\n");
}

#[test]
fn only_one_trailing_line_end_is_dropped() {
    assert_eq!(copy_block("c", "z\n\n".to_string(), 0, 1, 0), "c\nz\n\n");
    assert_eq!(copy_block("c", "\n".to_string(), 0, 1, 0), "c\n\n");
}

#[test]
fn separator_lines_go_only_between_files() {
    let more = copy_block("f", "t".to_string(), 0, 2, 4);
    let last = copy_block("f", "t".to_string(), 1, 2, 4);
    assert_eq!(more, format!("{}{}", last, "\n\n\n\n"));
}

#[test]
fn preview_heading_counts_files() {
    assert_eq!(preview_title(Lang::EN, 3), "\n[PREVIEW: 3 files will be copied]");
    assert_eq!(preview_title(Lang::RU, 0), "\n[ПРЕВЬЮ: будет скопировано 0 файлов]");
    assert_eq!(preview_title(Lang::ZH, 120), "\n[预览: 将复制 120 个文件]");
}

#[test]
fn markers_follow_the_status() {
    assert_eq!(status_marker(Ok(()), Lang::RU), "[OK]");
    assert_eq!(status_marker(Err(FilterReason::Excluded), Lang::EN), "[EXCL]");
    assert_eq!(status_marker(Err(FilterReason::SystemDir), Lang::ZH), "[系统]");
    assert_eq!(status_marker(Err(FilterReason::Extension), Lang::RU), "[РАСШ]");
    assert_eq!(status_marker(Err(FilterReason::NotIncluded), Lang::EN), "[NOT INCL]");
}

#[test]
fn preview_lines_are_numbered_and_aligned() {
    assert_eq!(preview_line(7, "a.rs", "[OK]"), "   7. a.rs [OK]");
    assert_eq!(preview_line(12345, "b", "[EXT]"), "12345. b [EXT]");
    assert_eq!(preview_line(7, "a.rs", "[OK]"), format!("{:4}. {} {}", 7, "a.rs", "[OK]"));
}

fn many(n: usize) -> Vec<FileEntry> {
    (0..n).map(|i| listed_entry(&format!("f{:03}", i), Ok(()))).collect()
}

#[test]
fn preview_lists_all_lines_when_not_interactive() {
    let v = vec![listed_entry("x", Ok(())), listed_entry("y/", Err(FilterReason::SystemDir))];
    let (lines, wait) = preview_run(&v, Lang::EN, false, 0);
    assert_eq!(lines, vec!["   1. x [OK]", "   2. y/ [SYS]"]);
    assert_eq!(wait, PreviewWait::Done(false));
    let (lines, wait) = preview_run(&many(120), Lang::EN, false, 0);
    assert_eq!(lines.len(), 120);
    assert_eq!(wait, PreviewWait::Done(false));
}

#[test]
fn interactive_preview_pauses_after_each_page() {
    let v = many(120);
    let (lines, wait) = preview_run(&v, Lang::EN, true, 0);
    assert_eq!(lines.len(), 51);
    assert_eq!(lines[49], "  50. f049 [OK]");
    assert_eq!(lines[50], "\nShow next 50 [Enter], or Q to quit");
    assert_eq!(wait, PreviewWait::Page(50));
    let (lines, wait) = preview_run(&v, Lang::EN, true, 100);
    assert_eq!(lines.len(), 21);
    assert_eq!(lines[0], " 101. f100 [OK]");
    assert_eq!(lines[20], "\nRun copy for these files? (Y/N): ");
    assert_eq!(wait, PreviewWait::Confirm);
}

#[test]
fn a_full_last_page_pauses_before_the_question() {
    let v = many(50);
    let (lines, wait) = preview_run(&v, Lang::RU, true, 0);
    assert_eq!(lines.len(), 51);
    assert_eq!(wait, PreviewWait::Page(50));
    let (lines, wait) = preview_run(&v, Lang::RU, true, 50);
    assert_eq!(lines, vec!["\nВыполнить копирование этих файлов? (Y/N): "]);
    assert_eq!(wait, PreviewWait::Confirm);
}

#[test]
fn nothing_to_copy_asks_nothing() {
    let v = vec![listed_entry("a.md", Err(FilterReason::Extension))];
    let (lines, wait) = preview_run(&v, Lang::EN, true, 0);
    assert_eq!(lines.len(), 1);
    assert_eq!(wait, PreviewWait::Done(false));
    let (lines, wait) = preview_run(&vec![], Lang::EN, true, 0);
    assert!(lines.is_empty());
    assert_eq!(wait, PreviewWait::Done(false));
}

#[test]
fn answers_drive_the_preview() {
    assert_eq!(preview_answer(PreviewWait::Page(50), " q\n", Lang::EN), PreviewNext::Finish(false));
    assert_eq!(preview_answer(PreviewWait::Page(50), "\n", Lang::EN), PreviewNext::Continue(50));
    assert_eq!(preview_answer(PreviewWait::Confirm, "Y\n", Lang::ZH), PreviewNext::Finish(true));
    assert_eq!(preview_answer(PreviewWait::Confirm, "no", Lang::EN), PreviewNext::Finish(false));
    assert_eq!(preview_answer(PreviewWait::Done(false), "y", Lang::EN), PreviewNext::Finish(false));
}

#[test]
fn answers_are_read_ignoring_case_and_blanks() {
    assert!(is_quit_answer("q\n"));
    assert!(is_quit_answer(" Q "));
    assert!(!is_quit_answer("quit"));
    assert!(!is_quit_answer("\n"));
    assert!(is_confirm_answer("y\n", Lang::RU));
    assert!(is_confirm_answer(" Y", Lang::EN));
    assert!(!is_confirm_answer("yes", Lang::ZH));
    assert!(!is_confirm_answer("n", Lang::EN));
    assert!(asks_to_copy(true, 1));
    assert!(!asks_to_copy(true, 0));
    assert!(!asks_to_copy(false, 3));
}
