use space_game_client::remote_health::{bar_health, BarEntities, BarState};

#[test]
fn bars_show_ship_health_and_damaged_asteroids() {
    assert_eq!(bar_health(Some(40), None, 100, 5), Some((40, 100)));
    assert_eq!(bar_health(Some(40), Some(1), 100, 5), Some((40, 100)));
    assert_eq!(bar_health(None, Some(3), 100, 5), Some((3, 5)));
    assert_eq!(bar_health(None, Some(5), 100, 5), None);
    assert_eq!(bar_health(None, None, 100, 5), None);
}

#[test]
fn bars_follow_the_drawn_bodies() {
    let mut bars = BarState::new();
    bars.remember(1, BarEntities { track: 10, fill: 11 });
    bars.remember(2, BarEntities { track: 20, fill: 21 });
    assert_eq!(bars.bar_of(1), Some(BarEntities { track: 10, fill: 11 }));
    bars.remember(1, BarEntities { track: 12, fill: 13 });
    assert_eq!(bars.bar_of(1), Some(BarEntities { track: 12, fill: 13 }));
    assert_eq!(bars.remove_unseen(&[2]), vec![12]);
    assert_eq!(bars.bar_of(1), None);
    assert_eq!(bars.bar_of(2), Some(BarEntities { track: 20, fill: 21 }));
    assert_eq!(bars.remove_unseen(&[]), vec![20]);
}
