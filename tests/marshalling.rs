use libfj_c::{
    allocate_cstring, decode_geometry, fill_listing, place_cubes, read_cstring, robot_record,
    CubeC, FactoryRobotGetInfoC, FactoryRobotListInfoC, FactorySearchQuery, GeometryError,
    OrderType, RobotGetInfo, RobotListInfo, SearchSettings, TextError, TextSearchType,
    INTERIOR_NUL_MESSAGE,
};

fn robot(id: usize, name: &str) -> RobotListInfo {
    RobotListInfo {
        item_id: id,
        item_name: name.to_string(),
        item_description: "a fast bot".to_string(),
        thumbnail: "https://example.com/t.png".to_string(),
        added_by: "uuid-1".to_string(),
        added_by_display_name: "Pilot".to_string(),
        added_date: "2020-01-02T03:04:05".to_string(),
        expiry_date: "2021-01-02T03:04:05".to_string(),
        cpu: 1500,
        total_robot_ranking: 42,
        rent_count: 7,
        buy_count: 9,
        buyable: true,
        removed_date: None,
        ban_date: Some("2020-06-01".to_string()),
        featured: false,
        banner_message: None,
        combat_rating_bits: 3.5f32.to_bits(),
        cosmetic_rating_bits: 4.25f32.to_bits(),
        cube_amounts: "{\"1\":2}".to_string(),
    }
}

fn text(c: &libfj_c::CText) -> String {
    read_cstring(c)
}

fn unset_query() -> FactorySearchQuery {
    FactorySearchQuery {
        page: None,
        items_per_page: None,
        order: None,
        movement_filter: None,
        weapon_filter: None,
        minimum_cpu: None,
        maximum_cpu: None,
        text_filter: None,
        text_search_field: None,
        buyable: None,
        prepend_featured_robot: None,
        featured_only: None,
        default_page: None,
    }
}

#[test]
fn cstring_has_terminator() {
    let c = allocate_cstring("abc").unwrap();
    assert_eq!(c.as_bytes(), &[b'a', b'b', b'c', 0u8][..]);
    let e = allocate_cstring("").unwrap();
    assert_eq!(e.as_bytes(), &[0u8][..]);
    let u = allocate_cstring("é").unwrap();
    assert_eq!(u.as_bytes().len(), 3);
}

#[test]
fn cstring_refuses_interior_nul() {
    assert!(matches!(allocate_cstring("a\0b"), Err(TextError::InteriorNul)));
}

#[test]
fn listing_takes_min_of_capacity_and_records() {
    let recs = vec![robot(1, "one"), robot(2, "two"), robot(3, "three")];
    let out = fill_listing(2, &Ok(recs));
    assert_eq!(out.count, 2);
    assert_eq!(out.slots.len(), 2);
    assert_eq!(out.slots[0].item_id, 1);
    assert_eq!(text(&out.slots[1].item_name), "two");

    let recs = vec![robot(1, "one"), robot(2, "two")];
    let out = fill_listing(10, &Ok(recs));
    assert_eq!(out.count, 2);
    assert_eq!(out.slots.len(), 2);
    assert_eq!(text(&out.slots[0].item_name), "one");
}

#[test]
fn listing_with_no_capacity_writes_nothing() {
    let out = fill_listing(0, &Ok(vec![robot(1, "one")]));
    assert_eq!(out.count, 0);
    assert!(out.slots.is_empty());
    let out = fill_listing(0, &Err("offline".to_string()));
    assert_eq!(out.count, 0);
    assert!(out.slots.is_empty());
}

#[test]
fn listing_failure_writes_error_record() {
    let out = fill_listing(5, &Err("connection refused".to_string()));
    assert_eq!(out.count, 0);
    assert_eq!(out.slots.len(), 1);
    let e = &out.slots[0];
    assert_eq!(e.item_id, u32::MAX);
    assert_eq!(text(&e.added_by), "ERROR");
    assert_eq!(text(&e.added_by_display_name), "ERROR");
    assert_eq!(text(&e.item_name), "connection refused");
    assert_eq!(text(&e.thumbnail), "");
}

#[test]
fn listing_with_nul_text_reports_error() {
    let recs = vec![robot(1, "ok"), robot(2, "bad\0name")];
    let out = fill_listing(5, &Ok(recs));
    assert_eq!(out.count, 0);
    assert_eq!(out.slots.len(), 1);
    assert_eq!(out.slots[0].item_id, u32::MAX);
    assert_eq!(text(&out.slots[0].item_name), INTERIOR_NUL_MESSAGE);
    // beyond the capacity, the bad record is not read
    let out = fill_listing(1, &Ok(vec![robot(1, "ok"), robot(2, "bad\0name")]));
    assert_eq!(out.count, 1);
}

#[test]
fn every_text_field_is_terminated() {
    let records = vec![
        FactoryRobotListInfoC::mock_error("boom", "http://x"),
        FactoryRobotListInfoC::default(),
        FactoryRobotListInfoC::from_info(&robot(5, "five")).unwrap(),
    ];
    for r in &records {
        for c in [
            &r.item_name, &r.item_description, &r.thumbnail, &r.added_by,
            &r.added_by_display_name, &r.added_date, &r.expiry_date, &r.removed_date,
            &r.ban_date, &r.banner_message, &r.cube_amounts,
        ] {
            assert!(!c.as_bytes().is_empty());
            assert_eq!(*c.as_bytes().last().unwrap(), 0u8);
        }
    }
}

#[test]
fn error_record_with_nul_message_keeps_marker() {
    let e = FactoryRobotListInfoC::mock_error("a\0b", "");
    assert_eq!(e.item_id, u32::MAX);
    assert_eq!(text(&e.item_name), "");
    assert_eq!(text(&e.added_by), "ERROR");
}

#[test]
fn list_record_round_trip() {
    let d = robot(77, "Tänk ✓");
    let c = FactoryRobotListInfoC::from_info(&d).unwrap();
    assert_eq!(c.item_id, 77);
    assert_eq!(text(&c.item_name), "Tänk ✓");
    assert_eq!(text(&c.item_description), "a fast bot");
    assert_eq!(text(&c.thumbnail), "https://example.com/t.png");
    assert_eq!(text(&c.added_by), "uuid-1");
    assert_eq!(text(&c.added_by_display_name), "Pilot");
    assert_eq!(text(&c.added_date), "2020-01-02T03:04:05");
    assert_eq!(text(&c.expiry_date), "2021-01-02T03:04:05");
    assert_eq!(c.cpu, 1500);
    assert_eq!(c.total_robot_ranking, 42);
    assert_eq!(c.rent_count, 7);
    assert_eq!(c.buy_count, 9);
    assert!(c.buyable);
    assert_eq!(text(&c.removed_date), "");
    assert_eq!(text(&c.ban_date), "2020-06-01");
    assert!(!c.featured);
    assert_eq!(text(&c.banner_message), "");
    assert_eq!(f32::from_bits(c.combat_rating_bits), 3.5f32);
    assert_eq!(f32::from_bits(c.cosmetic_rating_bits), 4.25f32);
    assert_eq!(text(&c.cube_amounts), "{\"1\":2}");
}

#[test]
fn narrowing_wraps() {
    let mut d = robot(1, "x");
    d.cpu = (u32::MAX as usize) + 3;
    let c = FactoryRobotListInfoC::from_info(&d).unwrap();
    assert_eq!(c.cpu, 2);
}

#[test]
fn robot_record_success_and_failure() {
    let d = RobotGetInfo {
        summary: robot(9, "nine"),
        cube_data: "AAAA".to_string(),
        colour_data: "BBBB".to_string(),
    };
    let r = robot_record(&Ok(d));
    assert_eq!(r.summary.item_id, 9);
    assert_eq!(read_cstring(&r.cube_data), "AAAA");
    assert_eq!(read_cstring(&r.colour_data), "BBBB");
    let e = robot_record(&Err("not found".to_string()));
    assert_eq!(e.summary.item_id, u32::MAX);
    assert_eq!(read_cstring(&e.summary.item_name), "not found");
    assert_eq!(read_cstring(&e.summary.added_by), "ERROR");
    assert_eq!(read_cstring(&e.cube_data), "");
    let g = FactoryRobotGetInfoC::mock_error("m", "u");
    assert_eq!(read_cstring(&g.summary.thumbnail), "u");
}

#[test]
fn unset_query_keeps_settings() {
    let mut s = SearchSettings::new();
    s.page = Some(3);
    s.text = Some("x".to_string());
    let r = unset_query().apply(s);
    assert_eq!(r.page, Some(3));
    assert_eq!(r.text, Some("x".to_string()));
    assert_eq!(r.order, None);
    assert_eq!(r.buyable, None);
    let d = unset_query().apply(SearchSettings::new());
    assert!(d.page.is_none() && d.items_per_page.is_none() && d.order.is_none());
    assert!(d.movement.is_none() && d.weapon.is_none() && d.text.is_none());
    assert!(d.min_cpu.is_none() && d.max_cpu.is_none() && d.text_search.is_none());
    assert!(d.buyable.is_none() && d.prepend_featured.is_none() && d.default_page.is_none());
}

#[test]
fn out_of_range_order_selects_suggested() {
    let mut q = unset_query();
    q.order = Some(200);
    let r = q.apply(SearchSettings::new());
    assert_eq!(r.order, Some(OrderType::Suggested));
    q.order = Some(257);
    assert_eq!(q.apply(SearchSettings::new()).order, Some(OrderType::Suggested));
    q.order = Some(-1);
    assert_eq!(q.apply(SearchSettings::new()).order, Some(OrderType::Suggested));
    q.order = Some(-255);
    assert_eq!(q.apply(SearchSettings::new()).order, Some(OrderType::Suggested));
    q.order = Some(4);
    assert_eq!(q.apply(SearchSettings::new()).order, Some(OrderType::Cpu));
    q.text_search_field = Some(9);
    assert_eq!(q.apply(SearchSettings::new()).text_search, Some(TextSearchType::All));
    q.text_search_field = Some(257);
    assert_eq!(q.apply(SearchSettings::new()).text_search, Some(TextSearchType::All));
    q.text_search_field = Some(-1);
    assert_eq!(q.apply(SearchSettings::new()).text_search, Some(TextSearchType::All));
}

#[test]
fn query_overrides_given_fields() {
    let mut q = unset_query();
    q.page = Some(2);
    q.items_per_page = Some(50);
    q.movement_filter = Some(b"100000,200000".to_vec());
    q.weapon_filter = Some(vec![0xff, 0xfe]);
    q.minimum_cpu = Some(100);
    q.maximum_cpu = Some(2000);
    q.text_filter = Some(b"tank".to_vec());
    q.text_search_field = Some(1);
    q.buyable = Some(5);
    q.prepend_featured_robot = Some(0);
    q.featured_only = Some(1);
    q.default_page = Some(1);
    let r = q.apply(SearchSettings::new());
    assert_eq!(r.page, Some(2));
    assert_eq!(r.items_per_page, Some(50));
    assert_eq!(r.movement, Some("100000,200000".to_string()));
    assert_eq!(r.weapon, Some(String::new()));
    assert_eq!(r.min_cpu, Some(100));
    assert_eq!(r.max_cpu, Some(2000));
    assert_eq!(r.text, Some("tank".to_string()));
    assert_eq!(r.text_search, Some(TextSearchType::Player));
    assert_eq!(r.buyable, Some(true));
    assert_eq!(r.prepend_featured, Some(false));
    assert_eq!(r.default_page, Some(true));
}

#[test]
fn order_codes_round_trip() {
    for c in 0u8..6 {
        assert_eq!(OrderType::from_code(c).unwrap().code(), c);
    }
    assert_eq!(OrderType::from_code(6), None);
    assert_eq!(TextSearchType::from_code(2), Some(TextSearchType::Name));
    assert_eq!(TextSearchType::from_code(3), None);
}

#[test]
fn geometry_decodes_base64() {
    let (cubes, colours) = decode_geometry(b"AQID".to_vec(), b"BAUG".to_vec()).unwrap();
    assert_eq!(cubes, vec![1u8, 2, 3]);
    assert_eq!(colours, vec![4u8, 5, 6]);
}

#[test]
fn geometry_reports_bad_streams() {
    assert_eq!(decode_geometry(b"@@@@".to_vec(), b"AQID".to_vec()), Err(GeometryError::InvalidBase64));
    assert_eq!(decode_geometry(b"AQID".to_vec(), vec![0xc3]), Err(GeometryError::InvalidUtf8));
}

#[test]
fn cubes_fill_up_to_capacity() {
    let cell = |i: u32| CubeC { id: i, x: 1, y: 2, z: 3, orientation: 4, colour: 5 };
    let cubes = vec![cell(10), cell(11), cell(12)];
    assert_eq!(place_cubes(5, &cubes), cubes);
    assert_eq!(place_cubes(2, &cubes), vec![cell(10), cell(11)]);
    assert!(place_cubes(0, &cubes).is_empty());
}
