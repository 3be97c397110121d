use listui::list::ListWidget;
use listui::models::{Drawable, Playlist, Track};

fn track(id: i32, title: &str) -> Track {
    Track { id, title: title.to_string(), yt_id: Some(format!("yt{id}")), playlist_id: Some(1) }
}

fn sample() -> ListWidget<Track> {
    ListWidget::with_items(
        "Mix",
        vec![
            track(1, "Alpha"),
            track(2, "Beta Song"),
            track(3, "gamma"),
            track(4, "ALPHABET"),
            track(5, "Delta"),
        ],
    )
}

#[test]
fn empty_list_has_no_selection_and_does_not_move() {
    let mut list: ListWidget<Playlist> = ListWidget::empty("Playlists");
    assert_eq!(list.total_len(), 0);
    assert_eq!(list.get_selected(), None);
    list.next();
    assert_eq!(list.get_selected(), None);
    list.previous();
    assert_eq!(list.get_selected(), None);
    list.select_ind(0);
    assert_eq!(list.get_selected(), None);
    assert_eq!(list.title(), "Playlists");
    assert!(!list.is_filtered());
    assert!(!list.is_shuffled());
}

#[test]
fn next_starts_at_the_top_and_wraps() {
    let mut list = sample();
    assert_eq!(list.get_selected(), None);
    list.next();
    assert_eq!(list.get_selected(), Some(0));
    for expected in [1, 2, 3, 4, 0, 1] {
        list.next();
        assert_eq!(list.get_selected(), Some(expected));
    }
}

#[test]
fn previous_starts_at_the_top_and_wraps_to_the_bottom() {
    let mut list = sample();
    list.previous();
    assert_eq!(list.get_selected(), Some(0));
    list.previous();
    assert_eq!(list.get_selected(), Some(4));
    list.previous();
    assert_eq!(list.get_selected(), Some(3));
}

#[test]
fn select_ind_ignores_positions_out_of_range() {
    let mut list = sample();
    list.select_ind(3);
    assert_eq!(list.get_selected(), Some(3));
    list.select_ind(5);
    assert_eq!(list.get_selected(), Some(3));
    list.select_ind(0);
    assert_eq!(list.get_selected(), Some(0));
}

#[test]
fn get_ind_follows_the_given_order() {
    let list = sample();
    assert_eq!(list.get_ind(0).get_text(), "Alpha");
    assert_eq!(list.get_ind(4).get_text(), "Delta");
    assert_eq!(list.order(), &vec![0, 1, 2, 3, 4]);
}

#[test]
fn filter_finds_items_regardless_of_case() {
    let mut list = sample();
    list.filter("ALPHA");
    assert!(list.is_filtered());
    assert_eq!(list.query(), Some("alpha"));
    assert_eq!(list.found(), &vec![0, 3]);
    assert_eq!(list.get_selected(), None);
    list.next();
    assert_eq!(list.get_selected(), Some(0));
    list.next();
    assert_eq!(list.get_selected(), Some(3));
    list.next();
    assert_eq!(list.get_selected(), Some(0));
    list.previous();
    assert_eq!(list.get_selected(), Some(3));
}

#[test]
fn filter_lowers_the_query_by_unicode_rules() {
    let mut list = ListWidget::with_items("L", vec![track(1, "stra\u{df}e"), track(2, "\u{e9}t\u{e9}")]);
    list.filter("\u{c9}T\u{c9}");
    assert_eq!(list.query(), Some("\u{e9}t\u{e9}"));
    assert_eq!(list.found(), &vec![1]);
}

#[test]
fn item_text_is_lowered_by_ascii_rules_only() {
    let mut list = ListWidget::with_items("L", vec![track(1, "\u{c9}T\u{c9}"), track(2, "ete")]);
    list.filter("\u{e9}t\u{e9}");
    assert_eq!(list.found(), &Vec::<usize>::new());
    list.filter("\u{c9}t\u{c9}");
    assert_eq!(list.found(), &Vec::<usize>::new());
    list.filter_lowered("\u{c9}t\u{c9}".to_string());
    assert_eq!(list.found(), &vec![0]);
}

#[test]
fn empty_query_finds_everything() {
    let mut list = sample();
    list.filter("");
    assert_eq!(list.found(), &vec![0, 1, 2, 3, 4]);
}

#[test]
fn query_without_match_leaves_an_empty_view() {
    let mut list = sample();
    list.filter("zzz");
    assert_eq!(list.found(), &Vec::<usize>::new());
    list.next();
    assert_eq!(list.get_selected(), None);
    list.select_ind(0);
    assert_eq!(list.get_selected(), None);
}

#[test]
fn same_query_keeps_the_filtered_cursor() {
    let mut list = sample();
    list.filter("a");
    list.next();
    list.next();
    let kept = list.found_cursor();
    assert_eq!(kept, Some(1));
    list.filter("A");
    assert_eq!(list.found_cursor(), kept);
    list.filter("al");
    assert_eq!(list.found_cursor(), None);
    assert_eq!(list.found(), &vec![0, 3]);
}

#[test]
fn clear_filter_shows_the_whole_list_with_its_own_cursor() {
    let mut list = sample();
    list.select_ind(4);
    list.filter("beta");
    list.next();
    assert_eq!(list.get_selected(), Some(1));
    list.clear_filter();
    assert!(!list.is_filtered());
    assert_eq!(list.query(), None);
    assert_eq!(list.get_selected(), Some(4));
    assert_eq!(list.cursor(), Some(4));
}

#[test]
fn shuffle_gives_a_permutation_and_marks_the_title() {
    let mut list = ListWidget::with_items("Mix", (0..50).map(|i| track(i, "t")).collect());
    list.select_ind(7);
    list.toggle_shuffle();
    assert!(list.is_shuffled());
    assert_eq!(list.title(), "Mix \u{2928}  ");
    assert_eq!(list.get_selected(), None);
    let mut seen = list.order().clone();
    seen.sort();
    assert_eq!(seen, (0..50).collect::<Vec<usize>>());
}

#[test]
fn shuffle_changes_the_order_of_a_long_list() {
    // The chance that fifty items come out of every one of five shuffles in
    // the order they went in is nil.
    let mut changed = false;
    for _ in 0..5 {
        let mut list = ListWidget::with_items("Mix", (0..50).map(|i| track(i, "t")).collect());
        list.toggle_shuffle();
        if list.order() != &(0..50).collect::<Vec<usize>>() {
            changed = true;
        }
    }
    assert!(changed);
}

#[test]
fn shuffle_on_then_off_restores_order_and_title() {
    let mut list = sample();
    let order = list.order().clone();
    list.toggle_shuffle();
    list.toggle_shuffle();
    assert!(!list.is_shuffled());
    assert_eq!(list.order(), &order);
    assert_eq!(list.title(), "Mix");
    assert_eq!(list.get_selected(), None);
    assert_eq!(list.get_ind(2).get_text(), "gamma");
}

#[test]
fn shuffle_with_uses_the_given_order() {
    let mut list = sample();
    list.shuffle_with(vec![4, 3, 2, 1, 0]);
    assert!(list.is_shuffled());
    assert_eq!(list.get_ind(0).get_text(), "Delta");
    assert_eq!(list.get_ind(4).get_text(), "Alpha");
    list.filter("alpha");
    assert_eq!(list.found(), &vec![1, 4]);
    list.next();
    assert_eq!(list.get_selected(), Some(1));
    list.unshuffle();
    assert_eq!(list.order(), &vec![0, 1, 2, 3, 4]);
    assert_eq!(list.title(), "Mix");
}

#[test]
fn unshuffle_takes_at_most_four_characters_off_the_title() {
    let mut list: ListWidget<Track> = ListWidget::with_items("ab", vec![track(1, "x")]);
    list.unshuffle();
    assert_eq!(list.title(), "");
    let mut list: ListWidget<Track> = ListWidget::with_items("abcdef", vec![track(1, "x")]);
    list.unshuffle();
    assert_eq!(list.title(), "ab");
}

#[test]
fn playlists_are_listed_by_title() {
    let list = ListWidget::with_items(
        "Playlists",
        vec![Playlist { id: 1, title: "Rock".to_string(), yt_id: "PL1".to_string() }],
    );
    assert_eq!(list.get_ind(0).get_text(), "Rock");
    assert_eq!(list.get_ind(0).clone().yt_id, "PL1");
}
