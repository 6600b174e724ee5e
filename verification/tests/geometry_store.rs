use window_placement::geometry::{WindowGeometry, DEFAULT_HEIGHT, DEFAULT_WIDTH};
use window_placement::json::{read_document, record_from_members};
use window_placement::record::{encode, read_canonical};
use window_placement::store::{decode, GeometryStore};

fn text(s: &str) -> Vec<u8> {
    s.as_bytes().to_vec()
}

#[test]
fn default_geometry_is_800_by_600_at_the_origin() {
    let g = WindowGeometry::default();
    assert_eq!(g, WindowGeometry { width: 800, height: 600, x: 0, y: 0 });
    assert_eq!((DEFAULT_WIDTH, DEFAULT_HEIGHT), (800, 600));
}

#[test]
fn record_text_is_compact_json_in_field_order() {
    let g = WindowGeometry::new(800, 600, 0, 0);
    assert_eq!(encode(&g), text("{\"width\":800,\"height\":600,\"x\":0,\"y\":0}"));
    let g = WindowGeometry::new(1920, 1080, -100, 50);
    assert_eq!(encode(&g), text("{\"width\":1920,\"height\":1080,\"x\":-100,\"y\":50}"));
}

#[test]
fn record_text_at_the_limits_of_the_fields() {
    let g = WindowGeometry::new(u32::MAX, 1, i32::MIN, i32::MAX);
    assert_eq!(
        encode(&g),
        text("{\"width\":4294967295,\"height\":1,\"x\":-2147483648,\"y\":2147483647}")
    );
    assert_eq!(read_canonical(&encode(&g)), Some(g));
    assert_eq!(read_document(&encode(&g)), Some(g));
    assert_eq!(decode(&encode(&g)), Some(g));
}

#[test]
fn save_then_load_returns_the_record() {
    let records = [
        WindowGeometry::new(1, 1, 0, 0),
        WindowGeometry::new(800, 600, 0, 0),
        WindowGeometry::new(1920, 1080, 100, 50),
        WindowGeometry::new(640, 480, -32000, -32000),
        WindowGeometry::new(10, 4294967295, 7, -9),
        WindowGeometry::new(u32::MAX, u32::MAX, i32::MAX, i32::MIN),
    ];
    for g in records.iter() {
        let mut store = GeometryStore::open(None);
        assert!(store.save(g));
        assert_eq!(store.load(), Some(*g));
        let reopened = GeometryStore::open(store.contents().map(|b| b.to_vec()));
        assert_eq!(reopened.load(), Some(*g));
    }
}

#[test]
fn canonical_reader_and_json_reader_agree_on_written_records() {
    let mut w: u32 = 1;
    let mut x: i32 = -1_000_000;
    for _ in 0..200 {
        let g = WindowGeometry::new(w, w / 3 + 1, x, -x / 7);
        let bytes = encode(&g);
        assert_eq!(read_canonical(&bytes), Some(g));
        assert_eq!(read_document(&bytes), Some(g));
        w = w.wrapping_mul(31).wrapping_add(17);
        x = x.wrapping_mul(13).wrapping_add(5);
    }
}

#[test]
fn load_on_a_missing_file_returns_nothing() {
    let store = GeometryStore::open(None);
    assert_eq!(store.load(), None);
    assert_eq!(store.contents(), None);
}

#[test]
fn load_on_a_corrupted_file_returns_nothing() {
    let corrupted: [&str; 16] = [
        "",
        " ",
        "{",
        "}",
        "null",
        "[]",
        "800",
        "not json at all",
        "{\"width\":800,\"height\":600,\"x\":0,\"y\":0",
        "{\"width\":800,\"height\":600,\"x\":0}",
        "{\"width\":800,\"height\":600,\"x\":0,\"y\":0}{",
        "{\"width\":\"800\",\"height\":600,\"x\":0,\"y\":0}",
        "{\"width\":800.5,\"height\":600,\"x\":0,\"y\":0}",
        "{\"width\":-1,\"height\":600,\"x\":0,\"y\":0}",
        "{\"width\":4294967296,\"height\":600,\"x\":0,\"y\":0}",
        "{\"width\":800,\"height\":600,\"x\":2147483648,\"y\":0}",
    ];
    for c in corrupted.iter() {
        let store = GeometryStore::open(Some(text(c)));
        assert_eq!(store.load(), None, "{}", c);
        assert_eq!(decode(c.as_bytes()), None, "{}", c);
    }
    let store = GeometryStore::open(Some(vec![0xff, 0xfe, 0x00, 0x7b]));
    assert_eq!(store.load(), None);
}

#[test]
fn load_rejects_numbers_that_json_does_not_allow() {
    assert_eq!(decode(b"{\"width\":0800,\"height\":600,\"x\":0,\"y\":0}"), None);
    assert_eq!(decode(b"{\"width\":800,\"height\":600,\"x\":+5,\"y\":0}"), None);
    assert_eq!(decode(b"{\"width\":800,\"height\":600,\"x\":-,\"y\":0}"), None);
    assert_eq!(decode(b"{\"width\":800,\"height\":600,\"x\":-0,\"y\":0}"), None);
    assert_eq!(decode(b"{\"width\":8e2,\"height\":600,\"x\":0,\"y\":0}"), None);
}

#[test]
fn load_reads_any_json_document_with_the_four_members() {
    let expected = Some(WindowGeometry::new(1920, 1080, 100, 50));
    assert_eq!(decode(b"{\"width\":1920,\"height\":1080,\"x\":100,\"y\":50}"), expected);
    assert_eq!(decode(b" {\"width\": 1920, \"height\": 1080, \"x\": 100, \"y\": 50}\n"), expected);
    assert_eq!(decode(b"{\"y\":50,\"x\":100,\"height\":1080,\"width\":1920}"), expected);
    assert_eq!(
        decode(b"{\"width\":1920,\"height\":1080,\"x\":100,\"y\":50,\"note\":{\"a\":[1,2.5,null]}}"),
        expected
    );
    assert_eq!(
        decode(b"{\n  \"width\": 1920,\n  \"height\": 1080,\n  \"x\": 100,\n  \"y\": 50\n}"),
        expected
    );
}

#[test]
fn json_reader_is_not_the_identity_on_its_input() {
    let spaced = b"{ \"width\": 3, \"height\": 4, \"x\": -5, \"y\": 6 }";
    assert_eq!(read_canonical(spaced), None);
    assert_eq!(read_document(spaced), Some(WindowGeometry::new(3, 4, -5, 6)));
    assert_eq!(read_document(b"{ \"width\": 3, \"height\": 4, \"x\": -5 }"), None);
    assert_eq!(read_document(b"{ \"width\": 3, \"height\": 4, \"x\": -5, \"y\": true }"), None);
    assert_eq!(read_document(b"[3, 4, -5, 6]"), None);
    assert_eq!(read_document(b"{ \"width\": 3, \"height\": 4, \"x\": -5, \"y\": 6 } x"), None);
}

#[test]
fn canonical_reader_reads_canonical_text_only() {
    assert_eq!(
        read_canonical(b"{\"width\":1,\"height\":2,\"x\":3,\"y\":4}"),
        Some(WindowGeometry::new(1, 2, 3, 4))
    );
    assert_eq!(read_canonical(b"{\"width\":01,\"height\":2,\"x\":3,\"y\":4}"), None);
    assert_eq!(read_canonical(b"{\"width\":1,\"height\":2,\"x\":-0,\"y\":4}"), None);
    assert_eq!(read_canonical(b"{\"width\":1,\"height\":2,\"x\":3,\"y\":4} "), None);
    assert_eq!(read_canonical(b"{\"width\":1,\"height\":2,\"y\":4,\"x\":3}"), None);
    assert_eq!(read_canonical(b"{\"width\":1,\"height\":2,\"x\":3,\"y\":4"), None);
    assert_eq!(read_canonical(b"{\"width\":,\"height\":2,\"x\":3,\"y\":4}"), None);
    assert_eq!(read_canonical(b"{\"width\":99999999999,\"height\":2,\"x\":3,\"y\":4}"), None);
    assert_eq!(read_canonical(b""), None);
}

#[test]
fn record_from_members_checks_presence_and_range() {
    assert_eq!(
        record_from_members(Some(1920), Some(1080), Some(100), Some(50)),
        Some(WindowGeometry::new(1920, 1080, 100, 50))
    );
    assert_eq!(
        record_from_members(Some(4294967295), Some(0), Some(-2147483648), Some(2147483647)),
        Some(WindowGeometry::new(u32::MAX, 0, i32::MIN, i32::MAX))
    );
    assert_eq!(record_from_members(None, Some(1), Some(1), Some(1)), None);
    assert_eq!(record_from_members(Some(1), None, Some(1), Some(1)), None);
    assert_eq!(record_from_members(Some(1), Some(1), None, Some(1)), None);
    assert_eq!(record_from_members(Some(1), Some(1), Some(1), None), None);
    assert_eq!(record_from_members(Some(-1), Some(1), Some(1), Some(1)), None);
    assert_eq!(record_from_members(Some(4294967296), Some(1), Some(1), Some(1)), None);
    assert_eq!(record_from_members(Some(1), Some(-1), Some(1), Some(1)), None);
    assert_eq!(record_from_members(Some(1), Some(1), Some(2147483648), Some(1)), None);
    assert_eq!(record_from_members(Some(1), Some(1), Some(1), Some(-2147483649)), None);
}

#[test]
fn save_with_zero_width_or_height_keeps_the_stored_record() {
    let valid = WindowGeometry::new(1920, 1080, 100, 50);
    let collapsed = [
        WindowGeometry::new(0, 0, 100, 50),
        WindowGeometry::new(0, 1080, 100, 50),
        WindowGeometry::new(1920, 0, -32000, -32000),
    ];
    for c in collapsed.iter() {
        let mut store = GeometryStore::open(None);
        assert!(store.save(&valid));
        let before = store.contents().map(|b| b.to_vec());
        assert!(!store.save(c));
        assert_eq!(store.contents().map(|b| b.to_vec()), before);
        assert_eq!(store.load(), Some(valid));
    }
}

#[test]
fn save_with_zero_size_leaves_an_empty_or_unreadable_slot_alone() {
    let collapsed = WindowGeometry::new(0, 0, 1, 1);
    let mut empty = GeometryStore::open(None);
    assert!(!empty.save(&collapsed));
    assert_eq!(empty.contents(), None);
    let mut garbage = GeometryStore::open(Some(text("garbage")));
    assert!(!garbage.save(&collapsed));
    assert_eq!(garbage.contents(), Some("garbage".as_bytes()));
}

#[test]
fn save_overwrites_an_earlier_record_and_an_unreadable_slot() {
    let first = WindowGeometry::new(800, 600, 0, 0);
    let second = WindowGeometry::new(640, 480, 7, 8);
    let mut store = GeometryStore::open(Some(text("garbage")));
    assert!(store.save(&first));
    assert_eq!(store.load(), Some(first));
    assert!(store.save(&second));
    assert_eq!(store.load(), Some(second));
    assert_eq!(
        store.contents(),
        Some("{\"width\":640,\"height\":480,\"x\":7,\"y\":8}".as_bytes())
    );
}

#[test]
fn geometry_helpers_change_one_half_only() {
    let g = WindowGeometry::new(800, 600, 10, 20);
    assert_eq!(g.with_size(640, 480), WindowGeometry::new(640, 480, 10, 20));
    assert_eq!(g.with_position(-1, -2), WindowGeometry::new(800, 600, -1, -2));
    assert!(g.is_persistable());
    assert!(!g.with_size(0, 600).is_persistable());
    assert!(!g.with_size(800, 0).is_persistable());
}
