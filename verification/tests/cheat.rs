use membreak::cheat::{
    aim_bones, find_module, glow_field_address, is_live_enemy, spotted_by_local, GlowField, AIM_KEY,
    EXIT_KEY, GLOW_STRIDE, MAX_ENTITY_INDEX,
};

#[test]
fn key_codes_and_scan_range() {
    assert_eq!(EXIT_KEY, 0x77);
    assert_eq!(AIM_KEY, 0x01);
    assert_eq!(MAX_ENTITY_INDEX, 64);
    assert_eq!(aim_bones(), [8, 6, 5, 4, 3, 0]);
}

#[test]
fn module_lookup() {
    let names: Vec<String> = vec!["ntdll.dll", "client.dll", "engine.dll", "client.dll"]
        .into_iter()
        .map(String::from)
        .collect();
    assert_eq!(find_module(&names, &"client.dll".to_string()), Some(1));
    assert_eq!(find_module(&names, &"engine.dll".to_string()), Some(2));
    assert_eq!(find_module(&names, &"server.dll".to_string()), None);
    assert_eq!(find_module(&Vec::new(), &"client.dll".to_string()), None);
}

#[test]
fn targets() {
    assert!(is_live_enemy(2, 3, 100));
    assert!(is_live_enemy(3, 2, 1));
    assert!(!is_live_enemy(2, 2, 100));
    assert!(!is_live_enemy(2, 1, 100));
    assert!(!is_live_enemy(3, 0, 100));
    assert!(!is_live_enemy(2, 3, 0));
    assert!(!is_live_enemy(2, 3, -5));
}

#[test]
fn spotted_mask_bits() {
    assert_eq!(spotted_by_local(0, 3), Some(false));
    assert_eq!(spotted_by_local(0, 99), Some(false));
    assert_eq!(spotted_by_local(0b1000, 3), Some(true));
    assert_eq!(spotted_by_local(0b1000, 2), Some(false));
    assert_eq!(spotted_by_local(1, 0), Some(true));
    assert_eq!(spotted_by_local(1 << 30, 30), Some(true));
    // the sign bit never counts as spotted
    assert_eq!(spotted_by_local(i32::MIN, 31), Some(false));
    assert_eq!(spotted_by_local(-1, 31), Some(false));
    assert_eq!(spotted_by_local(-1, 5), Some(true));
    assert_eq!(spotted_by_local(1, 32), None);
    assert_eq!(spotted_by_local(1, -1), None);
}

#[test]
fn glow_addresses() {
    assert_eq!(glow_field_address(0x1000, 0, GlowField::Red), Some(0x1008));
    assert_eq!(glow_field_address(0x1000, 2, GlowField::Alpha), Some(0x1000 + 0x70 + 0x14));
    assert_eq!(glow_field_address(0x1000, 1, GlowField::RenderOccluded), Some(0x1000 + 0x38 + 0x28));
    assert_eq!(glow_field_address(0x1000, 1, GlowField::RenderUnoccluded), Some(0x1000 + 0x38 + 0x29));
    assert_eq!(glow_field_address(0, usize::MAX, GlowField::Red), None);
    assert_eq!(glow_field_address(u64::MAX, 0, GlowField::Green), None);
    assert_eq!(GLOW_STRIDE, 0x38);
}

#[test]
fn glow_writes_do_not_overlap() {
    let fields = [
        (GlowField::Red, 4u64),
        (GlowField::Green, 4),
        (GlowField::Blue, 4),
        (GlowField::Alpha, 4),
        (GlowField::RenderOccluded, 1),
        (GlowField::RenderUnoccluded, 1),
    ];
    let mut spans = Vec::new();
    for i in 0..4usize {
        for (f, w) in fields.iter() {
            let a = glow_field_address(0x10_0000, i, *f).unwrap();
            spans.push((a, a + w));
        }
    }
    for (x, a) in spans.iter().enumerate() {
        for (y, b) in spans.iter().enumerate() {
            if x != y {
                assert!(a.1 <= b.0 || b.1 <= a.0);
            }
        }
    }
}
