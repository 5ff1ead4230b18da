use modtables::data::MessageQueue;
use modtables::luban::{read_element_table, read_int, read_localization_table, read_luban_bytes, read_raceattribute_table, read_uint, LubanBlobs};
use modtables::modpack::{scaffold_plan, validate_mod_creation};

#[test]
fn each_condition_independently_blocks_the_scaffold() {
    let mut q = MessageQueue::new();
    assert!(!validate_mod_creation("", "desc", true, false, false, true, &mut q));
    assert_eq!(q.pop_front().unwrap(), "MOD名称不能为空");

    assert!(!validate_mod_creation("name", "   ", true, false, false, true, &mut q));
    assert_eq!(q.pop_front().unwrap(), "MOD描述不能为空");

    assert!(!validate_mod_creation("name", "desc", false, false, false, true, &mut q));
    assert_eq!(q.pop_front().unwrap(), "至少选择一个修改选项");

    assert!(!validate_mod_creation("name", "desc", false, true, false, false, &mut q));
    assert_eq!(q.pop_front().unwrap(), "请先选择工作区");

    assert!(validate_mod_creation("name", "desc", false, false, true, true, &mut q));
    assert!(q.pop_front().is_none());
}

#[test]
fn scaffold_plans_three_subdirectories_and_one_manifest() {
    let plan = scaffold_plan("/home/user/ModTool", "mymod", "my desc", true, true, false)
        .expect("workspace has a parent");
    assert_eq!(plan.mod_root, "/home/user/ModDebug/mymod");
    assert_eq!(plan.config_dir, "/home/user/ModDebug/mymod/Config_Mod");
    assert_eq!(plan.image_dir, "/home/user/ModDebug/mymod/Image_Mod");
    assert_eq!(plan.sound_dir, "/home/user/ModDebug/mymod/Sound_Mod");
    assert_eq!(plan.manifest_path, "/home/user/ModDebug/mymod/moddata.json");
    assert_eq!(
        plan.manifest_text,
        "{\"ModName\":\"mymod\",\"ModDesc\":\"my desc\",\"EntityMod\":true,\"EnemyMod\":false,\"Version\":\"1.0.0\",\"CardMod\":true}"
    );
}

#[test]
fn scaffold_handles_backslash_paths_and_rootless_paths() {
    let plan = scaffold_plan("C:\\tools\\ModTool", "m", "d", true, false, false).unwrap();
    assert_eq!(plan.mod_root, "C:\\tools/ModDebug/m");
    assert!(scaffold_plan("ModTool", "m", "d", true, false, false).is_none());
}

// one varint-encoded unsigned integer, in the byte-buffer reader's format
fn enc_uint(v: u32) -> Vec<u8> {
    if v < 0x80 {
        vec![v as u8]
    } else if v < 0x4000 {
        vec![0x80 | (v >> 8) as u8, (v & 0xff) as u8]
    } else if v < 0x200000 {
        vec![0xc0 | (v >> 16) as u8, ((v >> 8) & 0xff) as u8, (v & 0xff) as u8]
    } else if v < 0x10000000 {
        vec![
            0xe0 | (v >> 24) as u8,
            ((v >> 16) & 0xff) as u8,
            ((v >> 8) & 0xff) as u8,
            (v & 0xff) as u8,
        ]
    } else {
        vec![
            0xf0,
            (v >> 24) as u8,
            ((v >> 16) & 0xff) as u8,
            ((v >> 8) & 0xff) as u8,
            (v & 0xff) as u8,
        ]
    }
}

fn enc_int(v: i32) -> Vec<u8> {
    enc_uint(v as u32)
}

fn enc_str(s: &str) -> Vec<u8> {
    let mut out = enc_uint(s.len() as u32);
    out.extend_from_slice(s.as_bytes());
    out
}

#[test]
fn varint_reader_matches_the_pipeline_reader() {
    for v in [0u32, 1, 0x7f, 0x80, 300, 0x3fff, 0x4000, 0x123456, 0x0fffffff, 0x10000000,
        0xffffffff]
    {
        let bytes = enc_uint(v);
        let (mine, end) = read_uint(&bytes, 0).expect("decodes");
        assert_eq!(mine, v);
        assert_eq!(end, bytes.len());
        let mut buf = luban_lib::ByteBuf::new(bytes.clone());
        assert_eq!(buf.read_uint(), v);
        assert_eq!(buf.reader_index, end);
    }
}

#[test]
fn negative_integers_cross_the_byte_boundary() {
    let bytes = enc_int(-1);
    let (v, _) = read_int(&bytes, 0).expect("decodes");
    assert_eq!(v, -1);
    let mut buf = luban_lib::ByteBuf::new(bytes);
    assert_eq!(buf.read_int(), -1);
}

#[test]
fn truncated_varint_is_rejected() {
    assert!(read_uint(&vec![0x81], 0).is_none());
    assert!(read_uint(&vec![], 0).is_none());
}

fn race_row(id: i32, icon: &str, name_id: i32, desc_id: i32) -> Vec<u8> {
    let mut out = enc_int(id);
    out.extend(enc_str(icon));
    out.extend(enc_int(name_id));
    out.extend(enc_int(desc_id));
    out
}

#[test]
fn race_attribute_blob_decodes() {
    let mut blob = enc_uint(2);
    blob.extend(race_row(1, "图标.png", 10, 11));
    blob.extend(race_row(2, "b", 20, 21));
    let rows = read_raceattribute_table(&blob).expect("decodes");
    assert_eq!(rows.len(), 2);
    assert_eq!(rows[0].id, 1);
    assert_eq!(rows[0].icon, "图标.png");
    assert_eq!(rows[1].name_id, 20);
}

#[test]
fn malformed_blob_fails_the_whole_bundle() {
    let mut race_blob = enc_uint(1);
    race_blob.extend(race_row(1, "a", 2, 3));
    let empty_table = enc_uint(0);
    let blobs = LubanBlobs {
        tbrelics: empty_table.clone(),
        tbelement: empty_table.clone(),
        tbenemy: empty_table.clone(),
        tbraceattribute: race_blob.clone(),
        tblocalization: empty_table.clone(),
    };
    let data = read_luban_bytes(&blobs).expect("bundle decodes");
    assert_eq!(data.race_attributes.len(), 1);
    assert!(data.relics.is_empty());

    let broken = LubanBlobs {
        tbrelics: vec![0x05],
        tbelement: empty_table.clone(),
        tbenemy: empty_table.clone(),
        tbraceattribute: race_blob,
        tblocalization: empty_table,
    };
    assert!(read_luban_bytes(&broken).is_none());
}

#[test]
fn trailing_bytes_in_a_blob_are_rejected() {
    let mut blob = enc_uint(0);
    blob.push(0);
    assert!(read_raceattribute_table(&blob).is_none());
}

#[test]
fn invalid_utf8_in_a_string_is_rejected() {
    let mut blob = enc_uint(1);
    blob.extend(enc_int(1));
    blob.extend(enc_uint(2));
    blob.push(0xff);
    blob.push(0xfe);
    blob.extend(enc_int(2));
    blob.extend(enc_int(3));
    assert!(read_raceattribute_table(&blob).is_none());
}

fn enc_int_list(vs: &[i32]) -> Vec<u8> {
    let mut out = enc_uint(vs.len() as u32);
    for v in vs {
        out.extend(enc_int(*v));
    }
    out
}

#[test]
fn element_blob_decodes_nested_lists_and_codes() {
    let mut row: Vec<u8> = Vec::new();
    row.extend(enc_int(3)); // id
    row.extend(enc_int(1)); // lock
    row.extend(enc_int(1)); // enable
    row.extend(enc_int(0)); // role
    row.extend(enc_int(11)); // name id
    row.extend(enc_int(12)); // desc id
    row.extend(enc_int_list(&[3])); // description tips, by code
    row.extend(enc_int_list(&[5, 6])); // description attributes
    row.extend(enc_str("unit/cat.png")); // icon
    row.extend(enc_int(2)); // rarity
    row.extend(enc_int(2)); // race: cat
    row.extend(enc_int(13)); // other race: furry
    // attribute pairs
    row.extend(enc_uint(2));
    row.extend(enc_int(1));
    row.extend(enc_int(10));
    row.extend(enc_int(2));
    row.extend(enc_int(-3));
    row.extend(enc_int(1)); // trigger type
    row.extend(enc_int_list(&[7])); // trigger params
    row.extend(enc_int(0)); // event tip
    row.extend(enc_int(5)); // trigger action
    // trigger value groups
    row.extend(enc_uint(2));
    row.extend(enc_int_list(&[1, 2]));
    row.extend(enc_int_list(&[]));
    row.extend(enc_int_list(&[-1])); // other values
    row.extend(enc_int(21)); // attack sound
    row.extend(enc_int(22)); // select sound
    row.extend(enc_int(23)); // attack particle

    let mut blob = enc_uint(1);
    blob.extend(row.clone());
    let rows = read_element_table(&blob).expect("decodes");
    assert_eq!(rows.len(), 1);
    let e = &rows[0];
    assert_eq!(e.id, 3);
    assert_eq!(e.desctip, vec![modtables::bean::Etip::Prob]);
    assert_eq!(e.icon, "unit/cat.png");
    assert_eq!(e.race_type, modtables::bean::ERaceType::Cat);
    assert_eq!(e.other_race, modtables::bean::ERaceType::Furry);
    assert_eq!(e.attribute.len(), 2);
    assert_eq!(e.attribute[1].value, -3);
    assert_eq!(e.trigger_value.len(), 2);
    assert_eq!(e.trigger_value[0].value, vec![1, 2]);
    assert!(e.trigger_value[1].value.is_empty());
    assert_eq!(e.other_value, vec![-1]);

    // an unused race code fails the whole blob
    let mut bad_blob = enc_uint(1);
    bad_blob.extend(enc_int(3));
    bad_blob.extend(enc_int(1));
    bad_blob.extend(enc_int(1));
    bad_blob.extend(enc_int(0));
    bad_blob.extend(enc_int(11));
    bad_blob.extend(enc_int(12));
    bad_blob.extend(enc_int_list(&[3]));
    bad_blob.extend(enc_int_list(&[5, 6]));
    bad_blob.extend(enc_str("unit/cat.png"));
    bad_blob.extend(enc_int(2));
    bad_blob.extend(enc_int(22)); // no race carries this code
    assert!(read_element_table(&bad_blob).is_none());
}

#[test]
fn localization_blob_decodes_four_languages() {
    let mut blob = enc_uint(1);
    blob.extend(enc_int(9));
    blob.extend(enc_str("名字"));
    blob.extend(enc_str("name"));
    blob.extend(enc_str("なまえ"));
    blob.extend(enc_str(""));
    let rows = read_localization_table(&blob).expect("decodes");
    assert_eq!(rows.len(), 1);
    assert_eq!(rows[0].id, 9);
    assert_eq!(rows[0].cn, "名字");
    assert_eq!(rows[0].en, "name");
    assert_eq!(rows[0].jp, "なまえ");
    assert_eq!(rows[0].cnt, "");
}
