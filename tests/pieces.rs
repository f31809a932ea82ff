use hex_cellar::byte::{flip, get, BitNumber};
use hex_cellar::geometry::{Point, Rectangle};
use hex_cellar::item::{random_appearance_map, Appearance, Inventory, InventorySlot, Item, Kind};
use hex_cellar::log::{Log, MESSAGE_BUFFER_SIZE};
use hex_cellar::names::{a_or_an, address_name, color_name, decimal_string, ordinal, punctuation_name};
use hex_cellar::random::{pick, random_range_two};
use hex_cellar::speech::{generate, shout_line};
use hex_cellar::sprite::{Color, Palette, Sprite};
use rand::rngs::StdRng;
use rand::SeedableRng;

#[test]
fn point_bytes_and_norms() {
    assert_eq!(Point::of_byte(0), Point(0, 0));
    assert_eq!(Point::of_byte(20), Point(1, 1));
    assert_eq!(Point::of_byte(255), Point(8, 13));
    assert_eq!(Point(8, 13).as_byte(), 255);
    assert_eq!(Point(3, -7).cheby_norm(), 7);
    assert_eq!(Point(3, -7).taxi_norm(), 10);
    assert_eq!(Point(1, 1).cheby_dist(Point(4, 3)), 3);
    assert_eq!(Point(1, 1).taxi_dist(Point(4, 3)), 5);
    assert_eq!(Point(1, 2).add(Point(3, 4)), Point(4, 6));
    assert_eq!(Point(1, 2).sub(Point(3, 4)), Point(-2, -2));
    assert_eq!(Point(1, -2).neg(), Point(-1, 2));
}

#[test]
fn rectangles() {
    let r = Rectangle(Point(5, 7), Point(1, 2)).correct();
    assert_eq!(r, Rectangle(Point(1, 2), Point(5, 7)));
    assert_eq!(r.width(), 5);
    assert_eq!(r.height(), 6);
    assert_eq!(r.area(), 30);
    assert!(r.contains(Point(1, 7)));
    assert!(!r.contains(Point(0, 7)));
    assert_eq!(r.grow(1), Rectangle(Point(0, 1), Point(6, 8)));
    assert_eq!(r.shrink(1), Rectangle(Point(2, 3), Point(4, 6)));
    let pts = Rectangle::point(Point(2, 2)).grow(1).points();
    assert_eq!(pts.len(), 9);
    assert_eq!(pts[0], Point(1, 1));
    assert_eq!(pts[8], Point(3, 3));
    assert_eq!(Rectangle::board().points().len(), 247);
}

#[test]
fn bits() {
    assert_eq!(BitNumber::Bit5.mask(), 0b0010_0000);
    assert_eq!(BitNumber::Bit7.char(), '7');
    assert!(get(0b0000_1000, BitNumber::Bit3));
    assert!(!get(0b0000_1000, BitNumber::Bit2));
    assert_eq!(flip(0b0000_1000, BitNumber::Bit3), 0);
    assert_eq!(flip(0, BitNumber::Bit0), 1);
    assert_eq!(BitNumber::from_number(6), BitNumber::Bit6);
}


#[test]
fn sprites_from_bytes() {
    let s = Sprite::of_byte(0xff, true);
    assert_eq!(s, Sprite { character: '@', color: Palette::One(Color::White) });
    let s = Sprite::of_byte(0b1100_1010, false);
    assert_eq!(s, Sprite { character: '+', color: Palette::One(Color::Brown) });
    let s = Sprite::of_byte(0b0110_0010, false);
    assert_eq!(s, Sprite { character: '#', color: Palette::One(Color::Teal) });
    assert_eq!(s.darken(true).color, Palette::One(Color::Dark));
    assert_eq!(s.darken(false), s);
}

#[test]
fn inventory_slots_pack_items() {
    let item = Item { appearance: Appearance::Wand, enchanted: true, cursed: false };
    let slot = InventorySlot::filled(item);
    assert_eq!(slot.byte, (0x18 << 3) | 0b100);
    assert_eq!(slot.get_item(), Some(item));
    assert!(slot.is_enchanted() && !slot.is_cursed() && !slot.is_equipped());
    assert!(slot.equip().is_equipped());
    assert!(!slot.equip().unequip().is_equipped());
    assert!(InventorySlot::empty().is_empty());
    assert_eq!(InventorySlot::empty().get_item(), None);
    for code in 1u8..32 {
        assert_eq!(Appearance::from_byte(code).to_byte(), code);
    }
}

#[test]
fn inventory_fills_the_first_free_slot() {
    let mut inv = Inventory::empty();
    inv.slots[0] = InventorySlot { byte: 0b0000_0001 };
    let item = Item { appearance: Appearance::Crowbar, enchanted: false, cursed: true };
    assert!(inv.insert(item));
    assert_eq!(inv.slots[0].byte, 1);
    assert_eq!(inv.slots[1].get_item(), Some(item));
    for _ in 0..6 {
        assert!(inv.insert(item));
    }
    assert!(!inv.insert(item));
}

#[test]
fn appearance_map_shuffles_within_groups() {
    let mut rng = StdRng::seed_from_u64(3);
    let map = random_appearance_map(&mut rng);
    assert_eq!(map[0], None);
    assert_eq!(map[1], Some(Kind::Crowbar));
    let mut fruits: Vec<Kind> = map[5..8].iter().map(|k| k.unwrap()).collect();
    fruits.sort_by_key(|k| *k as u8);
    assert_eq!(fruits, vec![Kind::FullHPFruit, Kind::FullTPFruit, Kind::CancellationFruit]);
    assert_eq!(map[31], Some(Kind::GoldenPendant));
}

#[test]
fn log_keeps_the_newest_messages() {
    let mut log = Log::new();
    for i in 0..(MESSAGE_BUFFER_SIZE + 10) {
        log.tell(format!("m{}", i));
    }
    assert_eq!(log.messages.len(), MESSAGE_BUFFER_SIZE);
    assert_eq!(log.messages[0].1, format!("m{}", MESSAGE_BUFFER_SIZE + 9));
    log.end_turn();
    log.tell(String::from("next"));
    assert_eq!(log.messages[0], (2, String::from("next")));
    assert_eq!(log.recent_messages().len(), MESSAGE_BUFFER_SIZE);
}

#[test]
fn names() {
    assert_eq!(address_name(0x00), "player appearance");
    assert_eq!(address_name(0x1e), "monster 5 hp");
    assert_eq!(address_name(0x3f), "player fire/elec");
    assert_eq!(address_name(0x40), "invalid address");
    assert_eq!(color_name(Color::Aqua), "cyan");
    assert_eq!(punctuation_name('@'), "at sign");
    assert_eq!(punctuation_name('A'), "strange character");
    assert_eq!(a_or_an("apple"), "an apple");
    assert_eq!(a_or_an("one"), "a one");
    assert_eq!(a_or_an("number sign"), "a number sign");
    assert_eq!(a_or_an(""), "");
    assert_eq!(ordinal(1), "1st");
    assert_eq!(ordinal(12), "12th");
    assert_eq!(ordinal(22), "22nd");
    assert_eq!(ordinal(103), "103rd");
    assert_eq!(decimal_string(0), "0");
    assert_eq!(decimal_string(4096), "4096");
}

#[test]
fn templates_expand_every_group() {
    let mut rng = StdRng::seed_from_u64(5);
    let mut seen = Vec::new();
    for _ in 0..40 {
        let s = generate("a{b|c}d", &mut rng);
        assert!(s == "abd" || s == "acd", "{}", s);
        if !seen.contains(&s) {
            seen.push(s);
        }
    }
    assert_eq!(seen.len(), 2);
    assert_eq!(generate("plain", &mut rng), "plain");
    assert_eq!(generate("{x}{y|y}", &mut rng), "xy");
}

#[test]
fn nested_templates_expand_inside_out() {
    let mut rng = StdRng::seed_from_u64(6);
    for _ in 0..20 {
        let s = shout_line(hex_cellar::monster::Kind::Android, &mut rng);
        assert!(
            s == "The android beeps at you!" || s == "The android shouts at you!"
                || s == "The android sounds an alarm!",
            "{}",
            s
        );
    }
}

#[test]
fn random_helpers() {
    let mut rng = StdRng::seed_from_u64(8);
    for n in 2..20usize {
        let (a, b) = random_range_two(&mut rng, n);
        assert!(a < n && b < n && a != b);
    }
    let v = vec![3, 5, 7];
    for _ in 0..10 {
        assert!(v.contains(&pick(&mut rng, &v)));
    }
}
