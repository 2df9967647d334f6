use six::cursor::{fit_widths, search_backward, search_forward};
use six::mode::trimmed_end;
use six::{Buf, Metric};

#[test]
fn fit_counts_leading_widths() {
    assert_eq!(fit_widths(&vec![1, 2, 4, 5], 2), 2);
    assert_eq!(fit_widths(&vec![1, 2, 4, 5], 0), 0);
    assert_eq!(fit_widths(&vec![1, 2, 4, 5], 9), 4);
    assert_eq!(fit_widths(&vec![], 3), 0);
}

#[test]
fn searches_follow_the_given_mask() {
    // The mask, not the characters, decides where words are.
    let text = Buf::from("abcde");
    let ws = vec![false, true, false, false, true];
    assert_eq!(search_forward(&text, &ws, Metric::Head, 1), Some(2));
    assert_eq!(search_forward(&text, &ws, Metric::Tail, 1), Some(3));
    assert_eq!(search_forward(&text, &ws, Metric::Head, 3), None);
    assert_eq!(search_backward(&text, &ws, Metric::Head, 2), Some(0));
    assert_eq!(search_backward(&text, &ws, Metric::Tail, 5), Some(3));
}

#[test]
fn paragraph_search_reads_line_breaks() {
    let text = Buf::from("x\n\n\ny\n\nz");
    let ws = vec![false; 8];
    assert_eq!(search_forward(&text, &ws, Metric::Paragraph, 0), Some(4));
    assert_eq!(search_forward(&text, &ws, Metric::Paragraph, 5), Some(7));
    assert_eq!(search_backward(&text, &ws, Metric::Paragraph, 7), Some(4));
}

#[test]
fn trim_leaves_out_trailing_whitespace() {
    let ws = vec![false, false, true, true, false];
    assert_eq!(trimmed_end(&ws, 0, 4), 2);
    assert_eq!(trimmed_end(&ws, 3, 4), 3);
    assert_eq!(trimmed_end(&ws, 0, 5), 5);
    assert_eq!(trimmed_end(&ws, 2, 2), 2);
}
