use goldberg_drop::games::{remove, track, TrackedGame};

fn game(id: u32, name: &str, icon: Option<&str>) -> TrackedGame {
    TrackedGame {
        app_id: id,
        name: name.to_string(),
        exe_path: format!("C:\\Games\\{name}.exe"),
        icon_path: icon.map(|s| s.to_string()),
    }
}

#[test]
fn tracking_moves_the_game_to_the_front() {
    let games = vec![game(1, "A", None), game(2, "B", Some("b.png")), game(3, "C", None)];
    let games = track(games, "D:\\B2.exe", 2, "B2", None);
    let ids: Vec<u32> = games.iter().map(|g| g.app_id).collect();
    assert_eq!(ids, vec![2, 1, 3]);
    assert_eq!(games[0].name, "B2");
    assert_eq!(games[0].exe_path, "D:\\B2.exe");
    assert_eq!(games[0].icon_path.as_deref(), Some("b.png"));
    let games = track(games, "E:\\E.exe", 5, "E", Some("e.png".to_string()));
    let ids: Vec<u32> = games.iter().map(|g| g.app_id).collect();
    assert_eq!(ids, vec![5, 2, 1, 3]);
    assert_eq!(games[0].icon_path.as_deref(), Some("e.png"));
}

#[test]
fn removing_a_game_drops_every_entry_for_it() {
    let games = vec![game(1, "A", None), game(2, "B", None), game(1, "A again", None)];
    let left = remove(&games, 1);
    assert_eq!(left.len(), 1);
    assert_eq!(left[0].app_id, 2);
    assert_eq!(remove(&games, 9).len(), 3);
}

#[test]
fn tracking_the_first_game_keeps_the_rest_in_order() {
    let games = vec![game(1, "A", Some("a.png")), game(2, "B", None), game(3, "C", None)];
    let r = track(games, "C:\\New\\A.exe", 1, "A2", None);
    assert_eq!(r.len(), 3);
    assert_eq!((r[0].app_id, r[0].name.as_str(), r[0].exe_path.as_str()), (1, "A2", "C:\\New\\A.exe"));
    assert_eq!(r[0].icon_path.as_deref(), Some("a.png"));
    assert_eq!((r[1].app_id, r[2].app_id), (2, 3));
    let r = track(r, "C:\\Games\\C.exe", 3, "C", Some("c.png".to_string()));
    let ids: Vec<u32> = r.iter().map(|g| g.app_id).collect();
    assert_eq!(ids, vec![3, 1, 2]);
    assert_eq!(r[0].icon_path.as_deref(), Some("c.png"));
}
