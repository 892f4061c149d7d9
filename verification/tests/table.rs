use polars::frame::column::Column;
use polars::frame::DataFrame;
use table_view::scroll::Scroll;
use table_view::table::Table;

fn frame(rows: usize) -> DataFrame {
    let values: Vec<i64> = vec![0; rows];
    DataFrame::new(rows, vec![Column::new("n".into(), values)]).unwrap()
}

fn table(rows: usize) -> Table {
    Table::new(frame(rows), vec![1])
}

#[test]
fn new_table_starts_at_the_first_row() {
    let table = Table::new(frame(100), vec![4, 9, 2]);
    assert_eq!(table.select, 0);
    assert_eq!(table.offset, 0);
    assert_eq!(table.rendered_rows, 0);
    assert_eq!(table.widths, vec![4, 9, 2]);
    assert!(table.detailed_view.is_none());
    assert_eq!(table.data_frame.height(), 100);
}

#[test]
fn scenario_hundred_rows_ten_rendered() {
    let mut table = table(100);
    table.rendered_rows = 10;
    table.select_down(5);
    assert_eq!(table.select, 5);
    table.adjust_offset();
    assert_eq!(table.offset, 0);
    table.select_down(20);
    assert_eq!(table.select, 25);
    table.adjust_offset();
    assert_eq!(table.offset, 16);
    table.select_first();
    table.adjust_offset();
    assert_eq!(table.offset, 0);
    assert_eq!(table.select, 0);
}

#[test]
fn scenario_empty_dataset() {
    let mut table = table(0);
    table.select_last();
    assert_eq!(table.select, 0);
    table.select_down(3);
    assert_eq!(table.select, 0);
    table.select_up(3);
    assert_eq!(table.select, 0);
    table.select(17);
    assert_eq!(table.select, 0);
}

#[test]
fn frame_without_columns_counts_its_rows() {
    let mut table = Table::new(DataFrame::new(7, vec![]).unwrap(), vec![]);
    table.select_last();
    assert_eq!(table.select, 6);
}

#[test]
fn select_last_is_the_last_row() {
    let mut table = table(100);
    table.select_last();
    assert_eq!(table.select, 99);
}

#[test]
fn select_clamps_to_the_last_row() {
    let mut table = table(10);
    table.select(3);
    assert_eq!(table.select, 3);
    table.select(9);
    assert_eq!(table.select, 9);
    table.select(10);
    assert_eq!(table.select, 9);
    table.select(usize::MAX);
    assert_eq!(table.select, 9);
}

#[test]
fn select_up_saturates_at_the_first_row() {
    let mut table = table(10);
    table.select(4);
    table.select_up(3);
    assert_eq!(table.select, 1);
    table.select_up(3);
    assert_eq!(table.select, 0);
    table.select_up(usize::MAX);
    assert_eq!(table.select, 0);
}

#[test]
fn select_down_saturates_at_the_last_row() {
    let mut table = table(10);
    table.select_down(4);
    assert_eq!(table.select, 4);
    table.select_down(4);
    assert_eq!(table.select, 8);
    table.select_down(4);
    assert_eq!(table.select, 9);
}

#[test]
fn select_down_by_the_largest_step_does_not_wrap() {
    let mut table = table(10);
    table.select(5);
    table.select_down(usize::MAX);
    assert_eq!(table.select, 9);
}

#[test]
fn selection_stays_in_range_over_a_walk() {
    let mut table = table(7);
    let steps: [usize; 6] = [3, 100, 1, 0, 6, 7];
    for step in steps {
        table.select_down(step);
        assert!(table.select <= 6);
        table.select_up(step / 2);
        assert!(table.select <= 6);
        table.select_last();
        assert_eq!(table.select, 6);
        table.select_first();
        assert_eq!(table.select, 0);
    }
}

#[test]
fn single_row_table_keeps_row_zero() {
    let mut table = table(1);
    table.select_down(1);
    assert_eq!(table.select, 0);
    table.select_last();
    assert_eq!(table.select, 0);
}

#[test]
fn adjust_offset_shows_the_selection() {
    for rendered in 1u16..12 {
        for select in 0usize..30 {
            for offset in 0usize..30 {
                let mut table = table(30);
                table.rendered_rows = rendered;
                table.select(select);
                table.offset = offset;
                table.adjust_offset();
                assert!(table.offset <= table.select);
                assert!(table.select <= table.offset + usize::from(rendered) - 1);
            }
        }
    }
}

#[test]
fn adjust_offset_twice_is_adjust_offset_once() {
    for rendered in 0u16..6 {
        for select in 0usize..12 {
            for offset in 0usize..12 {
                let mut table = table(12);
                table.rendered_rows = rendered;
                table.select(select);
                table.offset = offset;
                table.adjust_offset();
                let once = table.offset;
                table.adjust_offset();
                assert_eq!(table.offset, once);
            }
        }
    }
}

#[test]
fn adjust_offset_does_not_move_a_visible_selection() {
    let mut table = table(100);
    table.rendered_rows = 10;
    table.offset = 20;
    table.select(24);
    table.adjust_offset();
    assert_eq!(table.offset, 20);
    table.select(29);
    table.adjust_offset();
    assert_eq!(table.offset, 20);
    table.select(20);
    table.adjust_offset();
    assert_eq!(table.offset, 20);
}

#[test]
fn adjust_offset_scrolls_up_to_the_selection() {
    let mut table = table(100);
    table.rendered_rows = 10;
    table.offset = 40;
    table.select(12);
    table.adjust_offset();
    assert_eq!(table.offset, 12);
}

#[test]
fn adjust_offset_scrolls_down_by_the_least() {
    let mut table = table(100);
    table.rendered_rows = 10;
    table.offset = 3;
    table.select(30);
    table.adjust_offset();
    assert_eq!(table.offset, 21);
}

#[test]
fn adjust_offset_with_nothing_rendered_follows_the_selection() {
    let mut table = table(100);
    table.rendered_rows = 0;
    table.offset = 3;
    table.select(30);
    table.adjust_offset();
    assert_eq!(table.offset, 30);
    table.rendered_rows = 1;
    table.select(8);
    table.adjust_offset();
    assert_eq!(table.offset, 8);
}

#[test]
fn switch_view_toggles_the_detail_pane() {
    let mut table = table(5);
    assert!(table.detailed_view.is_none());
    table.switch_view();
    assert_eq!(table.detailed_view.map(usize::from), Some(0));
    table.switch_view();
    assert!(table.detailed_view.is_none());
}

#[test]
fn switch_view_twice_reopens_at_the_top() {
    let mut table = table(5);
    table.detailed_view = Some(Scroll::at(9));
    table.switch_view();
    assert!(table.detailed_view.is_none());
    table.switch_view();
    assert_eq!(table.detailed_view.map(usize::from), Some(0));
}

#[test]
fn switch_view_keeps_selection_and_offset() {
    let mut table = table(50);
    table.rendered_rows = 10;
    table.select(33);
    table.adjust_offset();
    table.switch_view();
    assert_eq!(table.select, 33);
    assert_eq!(table.offset, 24);
    assert_eq!(table.rendered_rows, 10);
    assert_eq!(table.widths, vec![1]);
    assert_eq!(table.data_frame.height(), 50);
}

#[test]
fn set_data_frame_goes_back_to_the_first_row() {
    let mut table = table(50);
    table.rendered_rows = 10;
    table.select(33);
    table.adjust_offset();
    table.switch_view();
    if let Some(detail) = table.detailed_view.as_mut() {
        detail.down();
    }
    table.set_data_frame(frame(4), vec![8, 8]);
    assert_eq!(table.select, 0);
    assert_eq!(table.offset, 0);
    assert_eq!(table.widths, vec![8, 8]);
    assert_eq!(table.rendered_rows, 10);
    assert_eq!(table.detailed_view.map(usize::from), Some(1));
    assert_eq!(table.data_frame.height(), 4);
    table.select_last();
    assert_eq!(table.select, 3);
}

#[test]
fn table_tick_changes_nothing() {
    let mut table = table(50);
    table.rendered_rows = 10;
    table.select(33);
    table.adjust_offset();
    table.tick();
    assert_eq!(table.select, 33);
    assert_eq!(table.offset, 24);
    assert_eq!(table.rendered_rows, 10);
    assert!(table.detailed_view.is_none());
}
