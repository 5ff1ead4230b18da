use modtables::bean::{
    Element, ElementAttribute, ElementTriggerValue, Enemy, ERaceType, Etip, Localization,
    RaceAttribute, Relics,
};
use modtables::data::{
    clear_data, read_data, read_json, save_data, MessageQueue, TableData, TableFiles,
};

fn sample_relic() -> Relics {
    Relics {
        id: 7,
        enable: 1,
        lock: 0,
        role: 2,
        tutorial: 1,
        icon: String::from("relic/icon.png"),
        small_icon: String::from("relic/small.png"),
        name_id: 100,
        desc_id: 101,
        other_desc_id: 102,
        desc_tip: vec![Etip::Sum, Etip::Near],
        rare: 3,
        passive: vec![1, 2, 3],
        trigger_type: 4,
        trigger_param: vec![-1, 0, 5],
        event_tip: 9,
        trigger_action: 2,
        trigger_value: vec![10, 20],
        other_value: vec![],
    }
}

fn sample_element() -> Element {
    Element {
        id: 3,
        lock: 1,
        enable: 1,
        role: 0,
        name_id: 11,
        desc_id: 12,
        desctip: vec![Etip::Prob],
        desc_attribute: vec![5, 6],
        icon: String::from("unit/cat.png"),
        rare: 2,
        race_type: ERaceType::Cat,
        other_race: ERaceType::Furry,
        attribute: vec![
            ElementAttribute { id: 1, value: 10 },
            ElementAttribute { id: 2, value: -3 },
        ],
        trigger_type: 1,
        trigger_param: vec![7],
        event_tip: 0,
        trigger_action: 5,
        trigger_value: vec![
            ElementTriggerValue { value: vec![1, 2] },
            ElementTriggerValue { value: vec![] },
        ],
        other_value: vec![-2147483648, 2147483647],
        attack_sound: 21,
        select_sound: 22,
        attack_particle: 23,
    }
}

fn sample_enemy() -> Enemy {
    Enemy {
        id: 5,
        icon: String::from("enemy.png"),
        name_id: 1,
        desc_id: 2,
        map: 3,
        level: 4,
        boss: 1,
        hp: 1000,
        attack: 55,
        upgrade_attack: 5,
        endless_hp: 2000,
        endless_attack: 66,
        endless_upgrade: 6,
        gold: 10,
        gold_max: 20,
        attack_sound: 7,
        show_sound: 8,
    }
}

fn sample_l10n() -> Localization {
    Localization {
        id: 9,
        cn: String::from("名字"),
        en: String::from("name \"quoted\""),
        jp: String::from("なまえ\\path"),
        cnt: String::from("名字"),
    }
}

fn sample_race() -> RaceAttribute {
    RaceAttribute {
        id: 2,
        icon: String::from("race.png"),
        name_id: 31,
        desc_id: 32,
    }
}

fn assert_elements_equal_fields(a: &Element, b: &Element) {
    assert_eq!(a.id, b.id);
    assert_eq!(a.lock, b.lock);
    assert_eq!(a.enable, b.enable);
    assert_eq!(a.role, b.role);
    assert_eq!(a.name_id, b.name_id);
    assert_eq!(a.desc_id, b.desc_id);
    assert_eq!(a.desctip, b.desctip);
    assert_eq!(a.desc_attribute, b.desc_attribute);
    assert_eq!(a.icon, b.icon);
    assert_eq!(a.rare, b.rare);
    assert_eq!(a.race_type, b.race_type);
    assert_eq!(a.other_race, b.other_race);
    assert_eq!(a.attribute, b.attribute);
    assert_eq!(a.trigger_type, b.trigger_type);
    assert_eq!(a.trigger_param, b.trigger_param);
    assert_eq!(a.event_tip, b.event_tip);
    assert_eq!(a.trigger_action, b.trigger_action);
    assert_eq!(a.trigger_value, b.trigger_value);
    assert_eq!(a.other_value, b.other_value);
    assert_eq!(a.attack_sound, b.attack_sound);
    assert_eq!(a.select_sound, b.select_sound);
    assert_eq!(a.attack_particle, b.attack_particle);
}

#[test]
fn roundtrip_every_entity_kind() {
    let mut data = TableData::default();
    data.relics.push(sample_relic());
    data.elements.push(sample_element());
    data.enemies.push(sample_enemy());
    data.l10n.push(sample_l10n());
    data.race_attributes.push(sample_race());

    let texts = save_data(&data);
    let files = TableFiles {
        elements: Some(texts.elements.clone()),
        l10n: Some(texts.l10n.clone()),
        race_attributes: Some(texts.race_attributes.clone()),
        enemies: Some(texts.enemies.clone()),
        relics: Some(texts.relics.clone()),
    };
    let mut reloaded = TableData::default();
    let mut messages = MessageQueue::new();
    read_data(&files, &mut reloaded, &mut messages);

    assert_eq!(messages.len(), 0);
    assert_eq!(reloaded.relics, vec![sample_relic()]);
    assert_eq!(reloaded.enemies, vec![sample_enemy()]);
    assert_eq!(reloaded.l10n, vec![sample_l10n()]);
    assert_eq!(reloaded.race_attributes, vec![sample_race()]);
    assert_eq!(reloaded.elements.len(), 1);
    assert_elements_equal_fields(&reloaded.elements[0], &sample_element());
}

#[test]
fn roundtrip_empty_tables() {
    let data = TableData::default();
    let texts = save_data(&data);
    assert_eq!(texts.relics, "[]");
    let files = TableFiles {
        elements: Some(texts.elements),
        l10n: Some(texts.l10n),
        race_attributes: Some(texts.race_attributes),
        enemies: Some(texts.enemies),
        relics: Some(texts.relics),
    };
    let mut reloaded = TableData::default();
    reloaded.race_attributes.push(sample_race());
    let mut messages = MessageQueue::new();
    read_data(&files, &mut reloaded, &mut messages);
    assert_eq!(messages.len(), 0);
    assert!(reloaded.race_attributes.is_empty());
    assert!(reloaded.relics.is_empty());
}

#[test]
fn missing_file_leaves_table_untouched() {
    let mut rows = vec![sample_race()];
    let mut messages = MessageQueue::new();
    read_json::<RaceAttribute>("raceattribute_mod.json", None, &mut rows, &mut messages);
    assert_eq!(rows, vec![sample_race()]);
    assert_eq!(messages.len(), 0);
}

#[test]
fn malformed_file_reports_once_and_leaves_table() {
    let mut rows = vec![sample_race()];
    let mut messages = MessageQueue::new();
    read_json::<RaceAttribute>(
        "raceattribute_mod.json",
        Some("this is not a table"),
        &mut rows,
        &mut messages,
    );
    assert_eq!(rows, vec![sample_race()]);
    assert_eq!(messages.len(), 1);
    let m = messages.pop_front().unwrap();
    assert_eq!(m, "raceattribute_mod.json: malformed table text");
}

#[test]
fn one_malformed_file_leaves_other_four_loaded() {
    let mut data = TableData::default();
    data.relics.push(sample_relic());
    data.elements.push(sample_element());
    data.enemies.push(sample_enemy());
    data.l10n.push(sample_l10n());
    data.race_attributes.push(sample_race());
    let texts = save_data(&data);

    let files = TableFiles {
        elements: Some(texts.elements),
        l10n: Some(texts.l10n),
        race_attributes: Some(String::from("{broken")),
        enemies: Some(texts.enemies),
        relics: Some(texts.relics),
    };
    let mut reloaded = TableData::default();
    let mut messages = MessageQueue::new();
    read_data(&files, &mut reloaded, &mut messages);

    assert_eq!(messages.len(), 1);
    assert_eq!(
        messages.pop_front().unwrap(),
        "raceattribute_mod.json: malformed table text"
    );
    assert_eq!(reloaded.elements.len(), 1);
    assert_eq!(reloaded.l10n, vec![sample_l10n()]);
    assert_eq!(reloaded.enemies, vec![sample_enemy()]);
    assert_eq!(reloaded.relics, vec![sample_relic()]);
    assert!(reloaded.race_attributes.is_empty());
}

#[test]
fn clear_resets_all_five_tables() {
    let mut data = TableData::default();
    data.relics.push(sample_relic());
    data.race_attributes.push(sample_race());
    clear_data(&mut data);
    assert!(data.relics.is_empty());
    assert!(data.elements.is_empty());
    assert!(data.enemies.is_empty());
    assert!(data.l10n.is_empty());
    assert!(data.race_attributes.is_empty());
}

#[test]
fn race_table_exact_text() {
    let mut data = TableData::default();
    data.race_attributes.push(RaceAttribute {
        id: 1,
        icon: String::from("a"),
        name_id: 2,
        desc_id: -3,
    });
    data.race_attributes.push(RaceAttribute {
        id: 0,
        icon: String::from("b\"c\\d"),
        name_id: 0,
        desc_id: 0,
    });
    let texts = save_data(&data);
    assert_eq!(
        texts.race_attributes,
        "[{\"Id\":1,\"Icon\":\"a\",\"NameID\":2,\"DescID\":-3},\n{\"Id\":0,\"Icon\":\"b\\\"c\\\\d\",\"NameID\":0,\"DescID\":0}]"
    );
}

#[test]
fn number_out_of_range_is_malformed() {
    let text = "[{\"Id\":2147483648,\"Icon\":\"a\",\"NameID\":0,\"DescID\":0}]";
    let mut rows: Vec<RaceAttribute> = Vec::new();
    let mut messages = MessageQueue::new();
    read_json::<RaceAttribute>("raceattribute_mod.json", Some(text), &mut rows, &mut messages);
    assert_eq!(messages.len(), 1);
    assert!(rows.is_empty());
    let fits = "[{\"Id\":2147483647,\"Icon\":\"a\",\"NameID\":-2147483648,\"DescID\":0}]";
    let mut messages2 = MessageQueue::new();
    read_json::<RaceAttribute>("raceattribute_mod.json", Some(fits), &mut rows, &mut messages2);
    assert_eq!(messages2.len(), 0);
    assert_eq!(rows[0].id, 2147483647);
    assert_eq!(rows[0].name_id, -2147483648);
}

#[test]
fn unknown_tip_code_is_malformed() {
    let good = "[{\"Id\":1,\"Enable\":0,\"Lock\":0,\"Role\":0,\"Tutorial\":0,\"Icon\":\"\",\"SmallIcon\":\"\",\"NameId\":0,\"DescId\":0,\"OtherDescId\":0,\"DescTip\":[5],\"Rare\":0,\"Passive\":[],\"TriggerType\":0,\"TriggerParam\":[],\"EventTip\":0,\"TriggerAction\":0,\"TriggerValue\":[],\"OtherValue\":[]}]";
    let bad = good.replace("\"DescTip\":[5]", "\"DescTip\":[6]");
    let mut rows: Vec<Relics> = Vec::new();
    let mut messages = MessageQueue::new();
    read_json::<Relics>("relics_mod.json", Some(good), &mut rows, &mut messages);
    assert_eq!(messages.len(), 0);
    assert_eq!(rows.len(), 1);
    assert_eq!(rows[0].desc_tip, vec![Etip::Near]);
    let mut rows2: Vec<Relics> = Vec::new();
    read_json::<Relics>("relics_mod.json", Some(bad.as_str()), &mut rows2, &mut messages);
    assert_eq!(messages.len(), 1);
    assert!(rows2.is_empty());
}

#[test]
fn trailing_text_is_malformed() {
    let text = "[]garbage";
    let mut rows: Vec<RaceAttribute> = Vec::new();
    let mut messages = MessageQueue::new();
    read_json::<RaceAttribute>("raceattribute_mod.json", Some(text), &mut rows, &mut messages);
    assert_eq!(messages.len(), 1);
}

#[test]
fn parser_accepts_exactly_the_canonical_shape() {
    let canonical = "[{\"Id\":1,\"Icon\":\"a\",\"NameID\":2,\"DescID\":3}]";
    let spaced = "[ {\"Id\":1,\"Icon\":\"a\",\"NameID\":2,\"DescID\":3} ]";
    let reordered = "[{\"Icon\":\"a\",\"Id\":1,\"NameID\":2,\"DescID\":3}]";
    let mut rows: Vec<RaceAttribute> = Vec::new();
    let mut messages = MessageQueue::new();
    read_json::<RaceAttribute>("raceattribute_mod.json", Some(canonical), &mut rows, &mut messages);
    assert_eq!(messages.len(), 0);
    assert_eq!(rows.len(), 1);
    read_json::<RaceAttribute>("raceattribute_mod.json", Some(spaced), &mut rows, &mut messages);
    assert_eq!(messages.len(), 1);
    read_json::<RaceAttribute>("raceattribute_mod.json", Some(reordered), &mut rows, &mut messages);
    assert_eq!(messages.len(), 2);
    assert_eq!(rows.len(), 1);
}

#[test]
fn leading_zeros_are_not_canonical() {
    let text = "[{\"Id\":01,\"Icon\":\"a\",\"NameID\":0,\"DescID\":0}]";
    let mut rows: Vec<RaceAttribute> = Vec::new();
    let mut messages = MessageQueue::new();
    read_json::<RaceAttribute>("raceattribute_mod.json", Some(text), &mut rows, &mut messages);
    assert_eq!(messages.len(), 1);
}

#[test]
fn element_exact_text() {
    let mut data = TableData::default();
    let mut e = Element::default();
    e.id = 1;
    e.desctip = vec![Etip::Sum];
    e.desc_attribute = vec![2];
    e.icon = String::from("i");
    e.race_type = ERaceType::Cat;
    e.attribute = vec![ElementAttribute { id: 4, value: 5 }];
    e.trigger_value = vec![ElementTriggerValue { value: vec![6, 7] }];
    data.elements.push(e);
    let texts = save_data(&data);
    let expected = String::new()
        + "[{\"Id\":1,\"Lock\":0,\"Enable\":0,\"Role\":0,\"NameId\":0,\"DescId\":0,"
        + "\"Desctip\":[1],\"DescAttribute\":[2],\"Icon\":\"i\",\"Rare\":0,"
        + "\"RaceType\":2,\"OtherRace\":0,\"Attribute\":[{\"Id\":4,\"Value\":5}],"
        + "\"TriggerType\":0,\"TriggerParam\":[],\"EventTip\":0,\"TriggerAction\":0,"
        + "\"TriggerValue\":[{\"Value\":[6,7]}],\"OtherValue\":[],"
        + "\"AttackSound\":0,\"SelectSound\":0,\"AttackParticle\":0}]";
    assert_eq!(texts.elements, expected);
}
