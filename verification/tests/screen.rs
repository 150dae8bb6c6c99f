use maraetai::ieee::Real64;
use maraetai::library::{Album, Song};
use maraetai::screen::{
    apply_filter_key, home_move_selection, step_around, HomeSection, KeyCode, NativeKind, Rows,
    Screen, Tab, TAB_COUNT,
};

fn test_song(id: &str) -> Song {
    Song {
        id: id.to_string(),
        title: id.to_string(),
        artist: String::new(),
        album: String::new(),
        duration: Real64::zero(),
        cover_art: None,
        suffix: String::new(),
        bit_rate: None,
        starred: None,
        replay_gain: None,
    }
}

fn test_sections(counts: &[usize]) -> Vec<HomeSection> {
    let kinds = [
        NativeKind::Favourites,
        NativeKind::RecentlyPlayed,
        NativeKind::OnRepeat,
        NativeKind::SongsForYou,
    ];
    counts
        .iter()
        .zip(kinds)
        .map(|(&n, kind)| HomeSection {
            kind,
            songs: (0..n).map(|i| test_song(&i.to_string())).collect(),
        })
        .collect()
}

fn albums(names: &[&str]) -> Screen {
    Screen::open(Rows::Albums {
        title: "Albums".to_string(),
        albums: names
            .iter()
            .map(|name| Album {
                id: name.to_string(),
                name: name.to_string(),
                artist: "Massive Attack".to_string(),
            })
            .collect(),
    })
}

#[test]
fn home_move_selection_steps_within_one_section() {
    let sections = test_sections(&[3, 2]);
    let (mut section, mut selected) = (0, 0);
    home_move_selection(&sections, &mut section, &mut selected, 1);
    assert_eq!((section, selected), (0, 1));
}

#[test]
fn home_move_selection_crosses_into_the_next_section() {
    let sections = test_sections(&[3, 2]);
    let (mut section, mut selected) = (0, 2);
    home_move_selection(&sections, &mut section, &mut selected, 1);
    assert_eq!((section, selected), (1, 0), "must land on the first row of the next section");
}

#[test]
fn home_move_selection_skips_over_empty_sections() {
    let sections = test_sections(&[1, 0, 1]);
    let (mut section, mut selected) = (0, 0);
    home_move_selection(&sections, &mut section, &mut selected, 1);
    assert_eq!((section, selected), (2, 0));
}

#[test]
fn home_move_selection_wraps_from_the_last_row_to_the_first() {
    let sections = test_sections(&[2, 0, 1]);
    let (mut section, mut selected) = (2, 0);
    home_move_selection(&sections, &mut section, &mut selected, 1);
    assert_eq!((section, selected), (0, 0), "must wrap back to the very first row");
}

#[test]
fn home_move_selection_moving_backward_also_wraps() {
    let sections = test_sections(&[2, 0, 1]);
    let (mut section, mut selected) = (0, 0);
    home_move_selection(&sections, &mut section, &mut selected, -1);
    assert_eq!((section, selected), (2, 0), "must wrap back to the very last row");
}

#[test]
fn home_move_selection_with_every_section_empty_does_nothing() {
    let sections = test_sections(&[0, 0, 0, 0]);
    let (mut section, mut selected) = (0, 0);
    home_move_selection(&sections, &mut section, &mut selected, 1);
    assert_eq!((section, selected), (0, 0));
}

#[test]
fn a_second_slash_while_editing_is_swallowed_not_inserted() {
    let mut filter = String::new();
    let mut selected = 0;
    let result = apply_filter_key(&mut filter, &mut selected, KeyCode::Char('/'));
    assert_eq!(result, Some((false, true)), "must stay in edit mode and consume the key");
    assert_eq!(filter, "", "a `/` must never be inserted into the filter text");
}

#[test]
fn ordinary_characters_are_typed_into_the_filter() {
    let mut filter = String::from("ab");
    let mut selected = 3;
    let result = apply_filter_key(&mut filter, &mut selected, KeyCode::Char('c'));
    assert_eq!(result, Some((false, true)));
    assert_eq!(filter, "abc");
    assert_eq!(selected, 0, "typing must reset the selection to the top of the new filtered view");
}

#[test]
fn backspace_removes_the_last_character() {
    let mut filter = String::from("abc");
    let mut selected = 1;
    let result = apply_filter_key(&mut filter, &mut selected, KeyCode::Backspace);
    assert_eq!(result, Some((false, true)));
    assert_eq!(filter, "ab");
    assert_eq!(selected, 0);
}

#[test]
fn escape_clears_the_filter_and_stops_editing() {
    let mut filter = String::from("abc");
    let mut selected = 2;
    let result = apply_filter_key(&mut filter, &mut selected, KeyCode::Esc);
    assert_eq!(result, Some((true, true)));
    assert_eq!(filter, "");
    assert_eq!(selected, 0);
}

#[test]
fn enter_stops_editing_without_consuming_the_key_or_touching_the_filter() {
    let mut filter = String::from("abc");
    let mut selected = 2;
    let result = apply_filter_key(&mut filter, &mut selected, KeyCode::Enter);
    assert_eq!(result, Some((true, false)));
    assert_eq!(filter, "abc", "Enter must not alter the filter text");
    assert_eq!(selected, 2, "Enter must not alter the selection");
}

#[test]
fn navigation_keys_are_not_handled_here() {
    let mut filter = String::from("abc");
    let mut selected = 2;
    assert_eq!(apply_filter_key(&mut filter, &mut selected, KeyCode::Up), None);
    assert_eq!(apply_filter_key(&mut filter, &mut selected, KeyCode::Down), None);
    assert_eq!(filter, "abc");
    assert_eq!(selected, 2);
}

#[test]
fn tabs_form_a_ring_of_eight() {
    assert_eq!(TAB_COUNT, 8);
    assert_eq!(Tab::from_index(0), Some(Tab::Home));
    assert_eq!(Tab::from_index(8), None);
    assert_eq!(Tab::Home.neighbour(true), Tab::Settings);
    assert_eq!(Tab::Settings.neighbour(false), Tab::Home);
    assert_eq!(Tab::Queue.label(), "Queue");
    for i in 0..TAB_COUNT {
        let tab = Tab::from_index(i).unwrap();
        assert_eq!(tab.index(), i);
        assert_eq!(tab.neighbour(false).neighbour(true), tab);
    }
}

#[test]
fn stepping_goes_around() {
    assert_eq!(step_around(0, -1, 3), 2);
    assert_eq!(step_around(2, 1, 3), 0);
    assert_eq!(step_around(1, 1, 3), 2);
    for at in 0..5 {
        assert_eq!(step_around(step_around(at, 1, 5), -1, 5), at);
    }
}

#[test]
fn a_filter_hides_the_rows_that_do_not_match() {
    let mut screen = albums(&["Mezzanine", "Dummy", "Blue Lines"]);
    assert_eq!(screen.visible_indices(), vec![0, 1, 2]);
    screen.filter = "LINE".to_string();
    assert_eq!(screen.visible_indices(), vec![2]);
    assert_eq!(screen.cursor_row(), Some(2));
    screen.filter = "attack".to_string();
    assert_eq!(screen.visible_indices(), vec![0, 1, 2], "the artist counts too");
    screen.filter = "portishead".to_string();
    assert_eq!(screen.cursor_row(), None);
}

#[test]
fn the_cursor_walks_the_visible_rows() {
    let mut screen = albums(&["Mezzanine", "Dummy", "Blue Lines"]);
    screen.filter = "m".to_string();
    // "Massive Attack" holds an m, so nothing is hidden.
    screen.move_selection(-1);
    assert_eq!(screen.selected, 2);
    screen.move_selection(1);
    assert_eq!(screen.selected, 0);
    assert_eq!(screen.rows.count(), 3);
}

#[test]
fn marking_twice_is_not_marking() {
    let mut screen = Screen::open(Rows::Songs {
        title: "Songs".to_string(),
        songs: vec![test_song("a"), test_song("b"), test_song("c")],
        playlist_id: None,
    });
    assert!(screen.rows.can_mark() && screen.rows.can_filter());
    assert_eq!(screen.chosen(), vec![0], "without marks the row under the cursor is chosen");
    screen.selected = 2;
    screen.toggle_mark();
    assert_eq!(screen.marks(), vec![2]);
    screen.selected = 0;
    screen.toggle_mark();
    assert_eq!(screen.chosen(), vec![0, 2]);
    screen.toggle_mark();
    assert_eq!(screen.chosen(), vec![2]);
}

#[test]
fn home_sections_have_titles() {
    assert_eq!(NativeKind::Favourites.title(), "Favourites");
    assert_eq!(NativeKind::SongsForYou.title(), "Songs For You");
}

#[test]
fn a_longer_filter_only_hides_rows() {
    let mut screen = albums(&["Mezzanine", "Blue Lines", "Protection"]);
    let mut shown = screen.visible_indices();
    assert_eq!(shown, vec![0, 1, 2]);
    for c in "LINES".chars() {
        screen.filter.push(c);
        let fewer = screen.visible_indices();
        assert!(fewer.iter().all(|i| shown.contains(i)));
        shown = fewer;
    }
    assert_eq!(shown, vec![1], "letter case aside");
}

#[test]
fn a_step_forth_and_back_on_the_home_screen_undo() {
    let sections = test_sections(&[2, 0, 3]);
    for (start, row) in [(0, 0), (0, 1), (2, 0), (2, 2)] {
        let (mut section, mut selected) = (start, row);
        home_move_selection(&sections, &mut section, &mut selected, 1);
        assert_ne!((section, selected), (start, row));
        home_move_selection(&sections, &mut section, &mut selected, -1);
        assert_eq!((section, selected), (start, row));
    }
}
