use goldberg_drop::models::GgItemResponse;
use goldberg_drop::resolver::{ResolveEntry, Resolver, Stage, Work};
use goldberg_drop::session::WorkerMsg;
use goldberg_drop::workshop::PUBLISHED_FILE_BATCH;

fn gg(name: &str, game: &str) -> GgItemResponse {
    GgItemResponse {
        result: 1,
        id: "1".to_string(),
        game: game.to_string(),
        name: name.to_string(),
        size: None,
        download: None,
    }
}

fn entry(id: u64, m: &str, g: &str, app: u32) -> ResolveEntry {
    ResolveEntry {
        workshop_id: id,
        mod_name: m.to_string(),
        game_name: g.to_string(),
        game_app_id: app,
        gg_item: None,
        gg_available: false,
    }
}

#[test]
fn resolver_prefers_new_items_and_keeps_their_order() {
    let mut r = Resolver::new();
    assert!(r.is_idle());
    assert!(matches!(r.next_work(), Work::Idle));
    r.submit(7);
    r.submit(9);
    // A weak result waits for the batch lookup; new items still come first.
    assert!(r.settle(Stage::Gg, entry(5, "Item 5", "Unknown game", 0), None).is_none());
    assert!(matches!(r.next_work(), Work::Gg(7)));
    assert!(matches!(r.next_work(), Work::Gg(9)));
    match r.next_work() {
        Work::Api(batch) => {
            assert_eq!(batch.len(), 1);
            assert_eq!(batch[0].workshop_id, 5);
        }
        other => panic!("expected a batch, got {other:?}"),
    }
    assert!(r.is_idle());
}

#[test]
fn resolver_batches_at_most_fifty() {
    let mut r = Resolver::new();
    for id in 0..60u64 {
        let e = entry(id, &format!("Item {id}"), "Unknown game", 0);
        assert!(r.settle(Stage::Gg, e, None).is_none());
    }
    match r.next_work() {
        Work::Api(batch) => {
            assert_eq!(batch.len(), PUBLISHED_FILE_BATCH);
            assert_eq!(batch[0].workshop_id, 0);
            assert_eq!(batch[49].workshop_id, 49);
        }
        other => panic!("expected a batch, got {other:?}"),
    }
    match r.next_work() {
        Work::Api(batch) => {
            assert_eq!(batch.len(), 10);
            assert_eq!(batch[0].workshop_id, 50);
        }
        other => panic!("expected a batch, got {other:?}"),
    }
    assert!(r.is_idle());
}

#[test]
fn resolver_reports_strong_results_at_once() {
    let mut r = Resolver::new();
    let mut e = entry(11, "Item 11", "Unknown game", 0);
    e.gg_item = Some(gg("Cool Mod", "4000"));
    e.game_name = "Garry's Mod".to_string();
    e.game_app_id = 4000;
    e.gg_available = true;
    match r.settle(Stage::Gg, e, None) {
        Some(WorkerMsg::WorkshopQueueInfo { workshop_id, mod_name, game_name, game_app_id, gg_available, .. }) => {
            assert_eq!(workshop_id, 11);
            assert_eq!(mod_name, "Cool Mod");
            assert_eq!(game_name, "Garry's Mod");
            assert_eq!(game_app_id, 4000);
            assert!(gg_available);
        }
        other => panic!("expected a report, got {other:?}"),
    }
    assert!(r.is_idle());
}

#[test]
fn resolver_moves_weak_results_from_batch_to_page() {
    let mut r = Resolver::new();
    assert!(r.settle(Stage::Api, entry(3, "Item 3", "Unknown game", 0), None).is_none());
    match r.next_work() {
        Work::Page(e) => {
            assert_eq!(e.workshop_id, 3);
            // A page result is reported even when still weak.
            match r.settle(Stage::Page, e, None) {
                Some(WorkerMsg::WorkshopQueueInfo { mod_name, game_name, .. }) => {
                    assert_eq!(mod_name, "Item 3");
                    assert_eq!(game_name, "Unknown game");
                }
                other => panic!("expected a report, got {other:?}"),
            }
        }
        other => panic!("expected a page, got {other:?}"),
    }
    assert!(r.is_idle());
}

#[test]
fn resolver_looks_each_game_name_up_once() {
    let mut r = Resolver::new();
    let first = entry(1, "Mod A", "App 4000", 4000);
    assert_eq!(r.lookup_wanted(&first), Some(4000));
    match r.settle(Stage::Gg, first, Some("Garry's Mod".to_string())) {
        Some(WorkerMsg::WorkshopQueueInfo { game_name, .. }) => assert_eq!(game_name, "Garry's Mod"),
        other => panic!("expected a report, got {other:?}"),
    }
    let second = entry(2, "Mod B", "App 4000", 4000);
    assert_eq!(r.lookup_wanted(&second), None);
    match r.settle(Stage::Gg, second, None) {
        Some(WorkerMsg::WorkshopQueueInfo { game_name, .. }) => assert_eq!(game_name, "Garry's Mod"),
        other => panic!("expected a report, got {other:?}"),
    }
    // A game with a real name needs no lookup.
    assert_eq!(r.lookup_wanted(&entry(3, "Mod C", "Portal 2", 620)), None);
}
