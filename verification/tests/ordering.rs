use modtables::bean::{
    race_code, race_from_code, tip_code, tip_from_code, Element, ERaceType, Etip, RaceAttribute,
};
use modtables::data::{MessageQueue, TableData, TableEntry};
use modtables::page::Page;
use modtables::sorting::sort_by_id;

fn race(id: i32, icon: &str) -> RaceAttribute {
    RaceAttribute {
        id,
        icon: String::from(icon),
        name_id: 0,
        desc_id: 0,
    }
}

#[test]
fn sort_orders_adjacent_pairs() {
    let mut rows = vec![race(3, "c"), race(1, "a"), race(2, "b"), race(-5, "z")];
    sort_by_id(&mut rows);
    for pair in rows.windows(2) {
        assert!(pair[0].id <= pair[1].id);
    }
    let ids: Vec<i32> = rows.iter().map(|r| r.id).collect();
    assert_eq!(ids, vec![-5, 1, 2, 3]);
}

#[test]
fn sort_is_stable_for_equal_identifiers() {
    let mut rows = vec![
        race(2, "first-two"),
        race(1, "first-one"),
        race(2, "second-two"),
        race(1, "second-one"),
        race(2, "third-two"),
    ];
    sort_by_id(&mut rows);
    let names: Vec<&str> = rows.iter().map(|r| r.icon.as_str()).collect();
    assert_eq!(
        names,
        vec!["first-one", "second-one", "first-two", "second-two", "third-two"]
    );
}

#[test]
fn collection_sort_touches_only_its_page() {
    let mut data = TableData::default();
    data.append(TableEntry::RaceAttribute(race(2, "b")));
    data.append(TableEntry::RaceAttribute(race(1, "a")));
    data.append(TableEntry::L10n(modtables::bean::Localization::default()));
    data.sort(&Page::RaceAttribute);
    assert_eq!(data.race_attributes[0].id, 1);
    assert_eq!(data.race_attributes[1].id, 2);
    assert_eq!(data.l10n.len(), 1);
}

#[test]
fn collection_append_and_remove() {
    let mut data = TableData::default();
    data.append(TableEntry::RaceAttribute(race(1, "a")));
    data.append(TableEntry::RaceAttribute(race(2, "b")));
    data.remove(&Page::RaceAttribute, 0);
    assert_eq!(data.race_attributes.len(), 1);
    assert_eq!(data.race_attributes[0].id, 2);
}

#[test]
fn elements_with_same_id_compare_equal() {
    let mut a = Element::default();
    a.id = 10;
    a.icon = String::from("one.png");
    a.attribute = vec![modtables::bean::ElementAttribute { id: 1, value: 2 }];
    let mut b = Element::default();
    b.id = 10;
    b.icon = String::from("two.png");
    assert!(a == b);
    assert_eq!(a.partial_cmp(&b), Some(std::cmp::Ordering::Equal));
    let mut rows = vec![a, b];
    sort_by_id(&mut rows);
    assert_eq!(rows[0].icon, "one.png");
    assert_eq!(rows[1].icon, "two.png");
}

#[test]
fn elements_order_by_id_alone() {
    let mut a = Element::default();
    a.id = 5;
    let mut b = Element::default();
    b.id = 4;
    b.icon = String::from("zzz");
    assert_eq!(a.partial_cmp(&b), Some(std::cmp::Ordering::Greater));
    assert_eq!(b.partial_cmp(&a), Some(std::cmp::Ordering::Less));
    assert!(a != b);
}

#[test]
fn message_queue_is_fifo() {
    let mut q = MessageQueue::new();
    assert!(q.pop_front().is_none());
    q.push_back(String::from("first"));
    q.push_back(String::from("second"));
    q.push_back(String::from("third"));
    assert_eq!(q.len(), 3);
    assert_eq!(q.pop_front().unwrap(), "first");
    assert_eq!(q.pop_front().unwrap(), "second");
    assert_eq!(q.pop_front().unwrap(), "third");
    assert!(q.pop_front().is_none());
}

#[test]
fn race_codes_are_the_wire_contract() {
    let all = [
        (ERaceType::NoneRace, 0),
        (ERaceType::Item, 1),
        (ERaceType::Cat, 2),
        (ERaceType::Dog, 3),
        (ERaceType::Bird, 4),
        (ERaceType::Bug, 5),
        (ERaceType::Fish, 6),
        (ERaceType::Dragon, 7),
        (ERaceType::Snake, 8),
        (ERaceType::Hoofed, 9),
        (ERaceType::Lizard, 10),
        (ERaceType::Rodents, 11),
        (ERaceType::Molluscs, 12),
        (ERaceType::Furry, 13),
        (ERaceType::Mod1, 14),
        (ERaceType::Mod2, 15),
        (ERaceType::Mod3, 16),
        (ERaceType::Mod4, 17),
        (ERaceType::Mod5, 18),
        (ERaceType::Mod6, 19),
        (ERaceType::Mod7, 20),
        (ERaceType::Mod8, 21),
    ];
    for (r, c) in all {
        assert_eq!(race_code(r), c);
        assert_eq!(race_from_code(c), Some(r));
    }
    assert_eq!(race_from_code(22), None);
    assert_eq!(race_from_code(-1), None);
}

#[test]
fn tip_codes_are_the_wire_contract() {
    let all = [
        (Etip::NoneTip, 0),
        (Etip::Sum, 1),
        (Etip::Before, 2),
        (Etip::Prob, 3),
        (Etip::SumEnd, 4),
        (Etip::Near, 5),
    ];
    for (t, c) in all {
        assert_eq!(tip_code(t), c);
        assert_eq!(tip_from_code(c), Some(t));
    }
    assert_eq!(tip_from_code(6), None);
    assert_eq!(tip_from_code(-1), None);
}

#[test]
fn page_titles_and_default() {
    assert_eq!(Page::default(), Page::Relic);
    assert_eq!(Page::Relic.get_info().title, "遗物");
    assert_eq!(Page::Element.get_info().title, "单位");
    assert_eq!(Page::Enemy.get_info().title, "敌人");
    assert_eq!(Page::L10n.get_info().title, "本地化");
    assert_eq!(Page::RaceAttribute.get_info().title, "种族");
}
